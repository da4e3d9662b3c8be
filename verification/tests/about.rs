use wx_utils::about::AboutBoxBuilder;

#[test]
fn a_new_box_is_empty() {
    let frame = 7u8;
    let parts = AboutBoxBuilder::new(&frame).into_parts();
    assert_eq!(*parts.parent, 7);
    assert!(parts.name.is_none());
    assert!(parts.version.is_none());
    assert!(parts.description.is_none());
    assert!(parts.copyright.is_none());
    assert!(parts.website.is_none());
    assert!(parts.developers.is_empty());
}

#[test]
fn every_field_takes_plain_and_owned_strings() {
    let frame = ();
    let parts = AboutBoxBuilder::new(&frame)
        .name("Paperback")
        .version(String::from("1.2"))
        .description("A reader")
        .copyright("(c) 2025")
        .website("https://example.org")
        .add_developer("Ann")
        .add_developer(String::from("Bo"))
        .into_parts();
    assert_eq!(parts.name.as_deref(), Some("Paperback"));
    assert_eq!(parts.version.as_deref(), Some("1.2"));
    assert_eq!(parts.description.as_deref(), Some("A reader"));
    assert_eq!(parts.copyright.as_deref(), Some("(c) 2025"));
    assert_eq!(parts.website.as_deref(), Some("https://example.org"));
    assert_eq!(parts.developers, vec!["Ann".to_string(), "Bo".to_string()]);
}

#[test]
fn a_later_setting_replaces_an_earlier_one() {
    let frame = ();
    let parts = AboutBoxBuilder::new(&frame).name("Old").name("New").into_parts();
    assert_eq!(parts.name.as_deref(), Some("New"));
}
