//! What every entity has: its identity, its topics and the common part of its
//! discovery document.

use vstd::prelude::*;
use vstd::string::*;
use crate::helpers::{slugify, slug_of, dashes_to_underscores};
use crate::json::{JsonObject, JsonField, FieldView, str_field};
use crate::strings::IntoText;

verus! {

/// The identity and topics of an entity of a device.
#[derive(Debug, PartialEq)]
pub struct EntityDetails {
    pub device_identifier: String,
    pub id: String,
    pub name: String,
    pub icon: Option<String>,
    pub has_attributes: bool,
    pub command_topics: Vec<String>,
}

/// The characters of an optional string slice.
pub open spec fn opt_str_view(item: Option<&str>) -> Option<Seq<char>> {
    match item {
        Some(s) => Some(s@),
        None => None,
    }
}

/// The characters of an optional string.
pub open spec fn opt_string_view(item: Option<String>) -> Option<Seq<char>> {
    match item {
        Some(s) => Some(s@),
        None => None,
    }
}

/// The topic path of an entity: `<device>/<id>`, or `<device>/<id>_<item>`
/// for one of its items.
pub open spec fn topic_path(device_identifier: Seq<char>, id: Seq<char>, item: Option<Seq<char>>) -> Seq<char> {
    match item {
        Some(i) => device_identifier + "/"@ + id + "_"@ + i,
        None => device_identifier + "/"@ + id,
    }
}

/// The text that names the attributes item of an entity.
pub open spec fn attributes_item() -> Seq<char> {
    "attributes"@
}

/// The template that reads entity attributes from a JSON state.
pub open spec fn attributes_template() -> Seq<char> {
    "{{ value_json | tojson }}"@
}

impl EntityDetails {
    /// The topic path of this entity, or of one of its items.
    pub open spec fn path(self, item: Option<Seq<char>>) -> Seq<char> {
        topic_path(self.device_identifier@, self.id@, item)
    }

    /// The command topic of this entity, or of one of its items.
    pub open spec fn command_topic(self, item: Option<Seq<char>>) -> Seq<char> {
        self.path(item) + "/command"@
    }

    /// The state topic of this entity, or of one of its items.
    pub open spec fn state_topic(self, item: Option<Seq<char>>) -> Seq<char> {
        self.path(item) + "/state"@
    }

    /// The availability topic of this entity, or of one of its items.
    pub open spec fn availability_topic(self, item: Option<Seq<char>>) -> Seq<char> {
        self.path(item) + "/availability"@
    }

    /// The part of the discovery document that every entity shares: name, unique
    /// id, state topic, the icon when there is one, and the attribute topic and
    /// template when the entity has attributes.
    pub open spec fn json_view(self, device_identifier: Seq<char>) -> Map<Seq<char>, FieldView> {
        let base = Map::<Seq<char>, FieldView>::empty()
            .insert("name"@, FieldView::Str(self.name@))
            .insert("unique_id"@, FieldView::Str(device_identifier + "_"@ + self.id@))
            .insert("state_topic"@, FieldView::Str(self.state_topic(None)));
        let with_icon = match self.icon {
            Some(i) => base.insert("icon"@, FieldView::Str(i@)),
            None => base,
        };
        if self.has_attributes {
            with_icon
                .insert("json_attributes_topic"@, FieldView::Str(self.state_topic(Some(attributes_item()))))
                .insert("json_attributes_template"@, FieldView::Str(attributes_template()))
        } else {
            with_icon
        }
    }

    /// The details of an entity named `name` of the device `device_identifier`:
    /// its id is the slug of its name, it has the icon, no attributes and no
    /// command topic.
    pub fn new<A: IntoText, B: IntoText, C: IntoText>(device_identifier: A, name: B, icon: C) -> (r: Self)
        ensures
            r.device_identifier@ == device_identifier.text_view(),
            r.name@ == name.text_view(),
            r.id@ == dashes_to_underscores(slug_of(name.text_view())),
            r.icon matches Some(i) && i@ == icon.text_view(),
            !r.has_attributes,
            r.command_topics@ == Seq::<String>::empty(),
    {
        let name = name.into_text();
        EntityDetails {
            device_identifier: device_identifier.into_text(),
            id: slugify(name.as_str()),
            name,
            icon: Some(icon.into_text()),
            has_attributes: false,
            command_topics: Vec::new(),
        }
    }

    /// The details of an entity as `new` gives them, but without an icon.
    pub fn new_without_icon<A: IntoText, B: IntoText>(device_identifier: A, name: B) -> (r: Self)
        ensures
            r.device_identifier@ == device_identifier.text_view(),
            r.name@ == name.text_view(),
            r.id@ == dashes_to_underscores(slug_of(name.text_view())),
            r.icon is None,
            !r.has_attributes,
            r.command_topics@ == Seq::<String>::empty(),
    {
        let name = name.into_text();
        EntityDetails {
            device_identifier: device_identifier.into_text(),
            id: slugify(name.as_str()),
            name,
            icon: None,
            has_attributes: false,
            command_topics: Vec::new(),
        }
    }

    /// These details with the icon set.
    pub fn set_icon<A: IntoText>(self, icon: A) -> (r: Self)
        ensures
            r.icon matches Some(i) && i@ == icon.text_view(),
            r.device_identifier == self.device_identifier,
            r.id == self.id,
            r.name == self.name,
            r.has_attributes == self.has_attributes,
            r.command_topics == self.command_topics,
    {
        let mut s = self;
        s.icon = Some(icon.into_text());
        s
    }

    /// These details, marked as having attributes.
    pub fn has_attributes(self) -> (r: Self)
        ensures
            r.has_attributes,
            r.device_identifier == self.device_identifier,
            r.id == self.id,
            r.name == self.name,
            r.icon == self.icon,
            r.command_topics == self.command_topics,
    {
        let mut s = self;
        s.has_attributes = true;
        s
    }

    /// These details with one more command topic, after the others.
    pub fn add_command(self, command: String) -> (r: Self)
        ensures
            r.command_topics@ == self.command_topics@.push(command),
            r.device_identifier == self.device_identifier,
            r.id == self.id,
            r.name == self.name,
            r.icon == self.icon,
            r.has_attributes == self.has_attributes,
    {
        let mut s = self;
        s.command_topics.push(command);
        s
    }

    /// The topic path of this entity, or of one of its items.
    pub fn get_topic_path(&self, item: Option<&str>) -> (r: String)
        ensures
            r@ == self.path(opt_str_view(item)),
    {
        let mut r = self.device_identifier.clone();
        r.append("/");
        r.append(self.id.as_str());
        match item {
            Some(i) => {
                r.append("_");
                r.append(i);
            },
            None => {},
        }
        r
    }

    /// The command topic of this entity, or of one of its items.
    pub fn get_topic_for_command(&self, item: Option<&str>) -> (r: String)
        ensures
            r@ == self.command_topic(opt_str_view(item)),
    {
        let mut r = self.get_topic_path(item);
        r.append("/command");
        r
    }

    /// The state topic of this entity, or of one of its items.
    pub fn get_topic_for_state(&self, item: Option<&str>) -> (r: String)
        ensures
            r@ == self.state_topic(opt_str_view(item)),
    {
        let mut r = self.get_topic_path(item);
        r.append("/state");
        r
    }

    /// The availability topic of this entity, or of one of its items.
    pub fn get_topic_for_availability(&self, item: Option<&str>) -> (r: String)
        ensures
            r@ == self.availability_topic(opt_str_view(item)),
    {
        let mut r = self.get_topic_path(item);
        r.append("/availability");
        r
    }

    /// The shared part of the discovery document of this entity, on the device
    /// `device_identifier`.
    pub fn json_for_discovery(&self, device_identifier: &str) -> (r: JsonObject)
        ensures
            r.view() == self.json_view(device_identifier@),
    {
        let mut json = JsonObject::new();
        json.insert("name".to_owned(), JsonField::Str(self.name.clone()));
        let mut unique_id = device_identifier.to_owned();
        unique_id.append("_");
        unique_id.append(self.id.as_str());
        json.insert("unique_id".to_owned(), JsonField::Str(unique_id));
        json.insert("state_topic".to_owned(), JsonField::Str(self.get_topic_for_state(None)));
        match &self.icon {
            Some(icon) => {
                json.insert("icon".to_owned(), JsonField::Str(icon.clone()));
            },
            None => {},
        }
        if self.has_attributes {
            json.insert("json_attributes_topic".to_owned(), JsonField::Str(self.get_topic_for_state(Some("attributes"))));
            json.insert("json_attributes_template".to_owned(), str_field("{{ value_json | tojson }}"));
        }
        json
    }
}

/// A value that has entity details.
pub trait EntityDetailsGetter {
    /// The details of the value.
    spec fn details_view(&self) -> &EntityDetails;

    /// The details of the value.
    fn details(&self) -> (r: &EntityDetails)
        ensures
            r == self.details_view(),
    ;
}

} // verus!
