use wx_utils::menu_label;

#[test]
fn a_shortcut_is_tab_separated() {
    assert_eq!(menu_label("&Open", "Ctrl+O"), "&Open\tCtrl+O");
}

#[test]
fn no_shortcut_leaves_a_bare_label() {
    assert_eq!(menu_label("&Open", ""), "&Open");
}

#[test]
fn an_empty_label_still_carries_its_shortcut() {
    assert_eq!(menu_label("", "F1"), "\tF1");
}
