//! The properties of the two elements: what they are called, and how they reach the settings.

use vstd::prelude::*;

use crate::settings::{text_view, Settings, SettingsView};

verus! {

/// The type of a property, with its default where it has one.
#[derive(Debug, Clone, Copy, PartialEq, Eq, Structural)]
pub enum PropertyKind {
    /// An optional text, unset at first.
    Text,
    /// A switch.
    Flag { default: bool },
}

/// How a property is announced to the user.
#[derive(Debug, Clone, Copy)]
pub struct PropertySpec {
    pub name: &'static str,
    pub nick: &'static str,
    pub blurb: &'static str,
    pub kind: PropertyKind,
}

/// The value of a `PropertySpec`.
pub struct PropertySpecView {
    pub name: Seq<char>,
    pub nick: Seq<char>,
    pub blurb: Seq<char>,
    pub kind: PropertyKind,
}

impl View for PropertySpec {
    type V = PropertySpecView;

    open spec fn view(&self) -> PropertySpecView {
        PropertySpecView {
            name: self.name@,
            nick: self.nick@,
            blurb: self.blurb@,
            kind: self.kind,
        }
    }
}

/// A value that a property is set to or read as.
#[derive(Debug)]
pub enum PropertyValue {
    Text(Option<String>),
    Flag(bool),
}

/// The value of a `PropertyValue`.
pub enum PropertyValueView {
    Text(Option<Seq<char>>),
    Flag(bool),
}

impl View for PropertyValue {
    type V = PropertyValueView;

    open spec fn view(&self) -> PropertyValueView {
        match *self {
            PropertyValue::Text(text) => PropertyValueView::Text(text_view(text)),
            PropertyValue::Flag(flag) => PropertyValueView::Flag(flag),
        }
    }
}

/// Whether there is a property of that name.
pub open spec fn is_property(name: Seq<char>) -> bool {
    name == "url"@ || name == "broadcast"@ || name == "tls-disable-verify"@
}

/// Whether there is a property of that name which takes values of that type.
pub open spec fn accepts(name: Seq<char>, value: PropertyValueView) -> bool {
    match value {
        PropertyValueView::Text(_) => name == "url"@ || name == "broadcast"@,
        PropertyValueView::Flag(_) => name == "tls-disable-verify"@,
    }
}

/// The settings after the property of that name has been set to a value that it takes.
pub open spec fn with_property(
    settings: SettingsView,
    name: Seq<char>,
    value: PropertyValueView,
) -> SettingsView {
    match value {
        PropertyValueView::Text(text) => if name == "url"@ {
            SettingsView { url: text, ..settings }
        } else {
            SettingsView { broadcast: text, ..settings }
        },
        PropertyValueView::Flag(flag) => SettingsView { tls_disable_verify: flag, ..settings },
    }
}

/// What the property of that name reads as.
pub open spec fn property_of(settings: SettingsView, name: Seq<char>) -> PropertyValueView {
    if name == "url"@ {
        PropertyValueView::Text(settings.url)
    } else if name == "broadcast"@ {
        PropertyValueView::Text(settings.broadcast)
    } else {
        PropertyValueView::Flag(settings.tls_disable_verify)
    }
}

/// What a property of that type reads as before it is set.
pub open spec fn default_of(kind: PropertyKind) -> PropertyValueView {
    match kind {
        PropertyKind::Text => PropertyValueView::Text(None),
        PropertyKind::Flag { default } => PropertyValueView::Flag(default),
    }
}

/// The three names are different.
proof fn lemma_names_differ()
    ensures
        "url"@ != "broadcast"@,
        "url"@ != "tls-disable-verify"@,
        "broadcast"@ != "tls-disable-verify"@,
{
    reveal_strlit("url");
    reveal_strlit("broadcast");
    reveal_strlit("tls-disable-verify");
    assert("url"@.len() == 3);
    assert("broadcast"@.len() == 9);
    assert("tls-disable-verify"@.len() == 18);
}

fn same_text(left: &str, right: &str) -> (same: bool)
    ensures
        same == (left@ == right@),
{
    left.to_owned() == right.to_owned()
}

impl Settings {
    /// Whether `set_property` may be called with that name and value.
    pub fn accepts_property(name: &str, value: &PropertyValue) -> (accepted: bool)
        ensures
            accepted == accepts(name@, value@),
    {
        match value {
            PropertyValue::Text(_) => same_text(name, "url") || same_text(name, "broadcast"),
            PropertyValue::Flag(_) => same_text(name, "tls-disable-verify"),
        }
    }

    /// Sets the property of that name.
    pub fn set_property(&mut self, name: &str, value: PropertyValue)
        requires
            accepts(name@, value@),
        ensures
            final(self)@ == with_property(old(self)@, name@, value@),
            match value {
                PropertyValue::Text(text) => if name@ == "url"@ {
                    *final(self) == (Settings { url: text, ..*old(self) })
                } else {
                    *final(self) == (Settings { broadcast: text, ..*old(self) })
                },
                PropertyValue::Flag(flag) => *final(self) == (Settings {
                    tls_disable_verify: flag,
                    ..*old(self)
                }),
            },
    {
        proof {
            lemma_names_differ();
        }
        match value {
            PropertyValue::Text(text) => {
                if same_text(name, "url") {
                    self.url = text;
                } else {
                    self.broadcast = text;
                }
            },
            PropertyValue::Flag(flag) => {
                self.tls_disable_verify = flag;
            },
        }
    }

    /// Whether `property` may be called with that name.
    pub fn has_property(name: &str) -> (known: bool)
        ensures
            known == is_property(name@),
    {
        same_text(name, "url") || same_text(name, "broadcast") || same_text(
            name,
            "tls-disable-verify",
        )
    }

    /// Reads the property of that name.
    pub fn property(&self, name: &str) -> (value: PropertyValue)
        requires
            is_property(name@),
        ensures
            value@ == property_of(self@, name@),
            match value {
                PropertyValue::Text(text) => text == (if name@ == "url"@ {
                    self.url
                } else {
                    self.broadcast
                }) && name@ != "tls-disable-verify"@,
                PropertyValue::Flag(flag) => flag == self.tls_disable_verify && name@
                    == "tls-disable-verify"@,
            },
    {
        proof {
            lemma_names_differ();
        }
        if same_text(name, "url") {
            PropertyValue::Text(self.url.clone())
        } else if same_text(name, "broadcast") {
            PropertyValue::Text(self.broadcast.clone())
        } else {
            PropertyValue::Flag(self.tls_disable_verify)
        }
    }
}

/// A property reads as the value that it was last set to, and setting one property leaves the
/// others as they were.
pub proof fn law_property_set_then_read(
    settings: SettingsView,
    name: Seq<char>,
    value: PropertyValueView,
    other: Seq<char>,
)
    requires
        accepts(name, value),
        is_property(other),
    ensures
        property_of(with_property(settings, name, value), name) == value,
        other != name ==> property_of(with_property(settings, name, value), other) == property_of(
            settings,
            other,
        ),
{
    lemma_names_differ();
}

/// Each property stands for the setting that it is named after: setting it changes that one and no
/// other, and reading it gives what that one holds.
pub proof fn law_properties_stand_for_their_settings(
    settings: SettingsView,
    text: Option<Seq<char>>,
    flag: bool,
)
    ensures
        ({
            let url = with_property(settings, "url"@, PropertyValueView::Text(text));
            &&& url.url == text
            &&& url.broadcast == settings.broadcast
            &&& url.tls_disable_verify == settings.tls_disable_verify
        }),
        ({
            let broadcast = with_property(settings, "broadcast"@, PropertyValueView::Text(text));
            &&& broadcast.url == settings.url
            &&& broadcast.broadcast == text
            &&& broadcast.tls_disable_verify == settings.tls_disable_verify
        }),
        ({
            let tls = with_property(settings, "tls-disable-verify"@, PropertyValueView::Flag(flag));
            &&& tls.url == settings.url
            &&& tls.broadcast == settings.broadcast
            &&& tls.tls_disable_verify == flag
        }),
        property_of(settings, "url"@) == PropertyValueView::Text(settings.url),
        property_of(settings, "broadcast"@) == PropertyValueView::Text(settings.broadcast),
        property_of(settings, "tls-disable-verify"@) == PropertyValueView::Flag(
            settings.tls_disable_verify,
        ),
{
    lemma_names_differ();
}

/// There are three properties. Two take texts and no flags, the third takes flags and no texts,
/// and a name takes values if and only if it is that of a property.
pub proof fn law_properties_take_values_of_their_type(
    name: Seq<char>,
    text: Option<Seq<char>>,
    flag: bool,
)
    ensures
        accepts(name, PropertyValueView::Text(text)) <==> name == "url"@ || name == "broadcast"@,
        accepts(name, PropertyValueView::Flag(flag)) <==> name == "tls-disable-verify"@,
        is_property(name) <==> accepts(name, PropertyValueView::Text(text)) || accepts(
            name,
            PropertyValueView::Flag(flag),
        ),
        default_of(PropertyKind::Text) == PropertyValueView::Text(None),
        default_of(PropertyKind::Flag { default: flag }) == PropertyValueView::Flag(flag),
{
}

/// The values of properties and of their announcements have what these hold, in its own place.
pub proof fn law_property_values_have_every_part(value: PropertyValue, property: PropertySpec)
    ensures
        match value {
            PropertyValue::Text(Some(text)) => value@ == PropertyValueView::Text(Some(text@)),
            PropertyValue::Text(None) => value@ == PropertyValueView::Text(None),
            PropertyValue::Flag(flag) => value@ == PropertyValueView::Flag(flag),
        },
        property@.name == property.name@,
        property@.nick == property.nick@,
        property@.blurb == property.blurb@,
        property@.kind == property.kind,
{
}

} // verus!
