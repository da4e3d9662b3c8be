//! The About box's contents, gathered through a fluent builder before the box is shown.

use vstd::prelude::*;

verus! {

/// A fluent builder for the native About box of the window `parent`: every field is
/// optional, and the developers are listed in the order they were added.
pub struct AboutBoxBuilder<'a, P> {
    parent: &'a P,
    name: Option<String>,
    version: Option<String>,
    description: Option<String>,
    copyright: Option<String>,
    website: Option<String>,
    developers: Vec<String>,
}

/// What an About box built so far holds, field by field.
pub struct AboutBoxParts<'a, P> {
    pub parent: &'a P,
    pub name: Option<String>,
    pub version: Option<String>,
    pub description: Option<String>,
    pub copyright: Option<String>,
    pub website: Option<String>,
    pub developers: Vec<String>,
}

impl<'a, P> AboutBoxBuilder<'a, P> {
    /// The window the box belongs to.
    pub closed spec fn spec_parent(&self) -> &'a P {
        self.parent
    }

    /// The application name set so far.
    pub closed spec fn spec_name(&self) -> Option<String> {
        self.name
    }

    /// The version set so far.
    pub closed spec fn spec_version(&self) -> Option<String> {
        self.version
    }

    /// The description set so far.
    pub closed spec fn spec_description(&self) -> Option<String> {
        self.description
    }

    /// The copyright line set so far.
    pub closed spec fn spec_copyright(&self) -> Option<String> {
        self.copyright
    }

    /// The website set so far.
    pub closed spec fn spec_website(&self) -> Option<String> {
        self.website
    }

    /// The developers added so far, in order.
    pub closed spec fn spec_developers(&self) -> Seq<String> {
        self.developers@
    }

    /// An empty About box for `parent`.
    pub fn new(parent: &'a P) -> (builder: Self)
        ensures
            builder.spec_parent() == parent,
            builder.spec_name() is None,
            builder.spec_version() is None,
            builder.spec_description() is None,
            builder.spec_copyright() is None,
            builder.spec_website() is None,
            builder.spec_developers() == Seq::<String>::empty(),
    {
        AboutBoxBuilder {
            parent,
            name: None,
            version: None,
            description: None,
            copyright: None,
            website: None,
            developers: Vec::new(),
        }
    }

    /// Sets the application name, replacing any set before.
    pub fn name(self, name: impl Into<String>) -> (builder: Self)
        ensures
            builder.spec_name() matches Some(s) && call_ensures(<_ as Into<String>>::into, (name,), s),
            builder.spec_parent() == self.spec_parent(),
            builder.spec_version() == self.spec_version(),
            builder.spec_description() == self.spec_description(),
            builder.spec_copyright() == self.spec_copyright(),
            builder.spec_website() == self.spec_website(),
            builder.spec_developers() == self.spec_developers(),
    {
        let mut builder = self;
        builder.name = Some(name.into());
        builder
    }

    /// Sets the version, replacing any set before.
    pub fn version(self, version: impl Into<String>) -> (builder: Self)
        ensures
            builder.spec_version() matches Some(s) && call_ensures(<_ as Into<String>>::into, (version,), s),
            builder.spec_parent() == self.spec_parent(),
            builder.spec_name() == self.spec_name(),
            builder.spec_description() == self.spec_description(),
            builder.spec_copyright() == self.spec_copyright(),
            builder.spec_website() == self.spec_website(),
            builder.spec_developers() == self.spec_developers(),
    {
        let mut builder = self;
        builder.version = Some(version.into());
        builder
    }

    /// Sets the description, replacing any set before.
    pub fn description(self, desc: impl Into<String>) -> (builder: Self)
        ensures
            builder.spec_description() matches Some(s) && call_ensures(<_ as Into<String>>::into, (desc,), s),
            builder.spec_parent() == self.spec_parent(),
            builder.spec_name() == self.spec_name(),
            builder.spec_version() == self.spec_version(),
            builder.spec_copyright() == self.spec_copyright(),
            builder.spec_website() == self.spec_website(),
            builder.spec_developers() == self.spec_developers(),
    {
        let mut builder = self;
        builder.description = Some(desc.into());
        builder
    }

    /// Sets the copyright line, replacing any set before.
    pub fn copyright(self, copyright: impl Into<String>) -> (builder: Self)
        ensures
            builder.spec_copyright() matches Some(s) && call_ensures(<_ as Into<String>>::into, (copyright,), s),
            builder.spec_parent() == self.spec_parent(),
            builder.spec_name() == self.spec_name(),
            builder.spec_version() == self.spec_version(),
            builder.spec_description() == self.spec_description(),
            builder.spec_website() == self.spec_website(),
            builder.spec_developers() == self.spec_developers(),
    {
        let mut builder = self;
        builder.copyright = Some(copyright.into());
        builder
    }

    /// Sets the website, replacing any set before.
    pub fn website(self, url: impl Into<String>) -> (builder: Self)
        ensures
            builder.spec_website() matches Some(s) && call_ensures(<_ as Into<String>>::into, (url,), s),
            builder.spec_parent() == self.spec_parent(),
            builder.spec_name() == self.spec_name(),
            builder.spec_version() == self.spec_version(),
            builder.spec_description() == self.spec_description(),
            builder.spec_copyright() == self.spec_copyright(),
            builder.spec_developers() == self.spec_developers(),
    {
        let mut builder = self;
        builder.website = Some(url.into());
        builder
    }

    /// Adds a developer after those added before.
    pub fn add_developer(self, dev: impl Into<String>) -> (builder: Self)
        ensures
            builder.spec_developers().len() == self.spec_developers().len() + 1,
            builder.spec_developers().take(self.spec_developers().len() as int) == self.spec_developers(),
            call_ensures(<_ as Into<String>>::into, (dev,), builder.spec_developers().last()),
            builder.spec_parent() == self.spec_parent(),
            builder.spec_name() == self.spec_name(),
            builder.spec_version() == self.spec_version(),
            builder.spec_description() == self.spec_description(),
            builder.spec_copyright() == self.spec_copyright(),
            builder.spec_website() == self.spec_website(),
    {
        let mut builder = self;
        builder.developers.push(dev.into());
        builder
    }

    /// Everything the box holds, for showing it.
    pub fn into_parts(self) -> (parts: AboutBoxParts<'a, P>)
        ensures
            parts.parent == self.spec_parent(),
            parts.name == self.spec_name(),
            parts.version == self.spec_version(),
            parts.description == self.spec_description(),
            parts.copyright == self.spec_copyright(),
            parts.website == self.spec_website(),
            parts.developers@ == self.spec_developers(),
    {
        AboutBoxParts {
            parent: self.parent,
            name: self.name,
            version: self.version,
            description: self.description,
            copyright: self.copyright,
            website: self.website,
            developers: self.developers,
        }
    }
}

} // verus!
