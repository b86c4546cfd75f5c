//! The kinds of entities a device has, and their discovery documents.
//!
//! The discovery document of an entity is the object that Home Assistant finds
//! under the entity's id in the `components` of its device.

use vstd::prelude::*;
use vstd::string::*;
use crate::device::Device;
use crate::entity_details::{EntityDetails, EntityDetailsGetter, opt_str_view};
use crate::json::{JsonObject, JsonField, FieldView, opt_field, opt_field_view, str_field};
use crate::strings::IntoText;
use crate::helpers::{slug_of, dashes_to_underscores};

verus! {

/// The text of the brightness item of a light.
pub open spec fn brightness_item() -> Seq<char> {
    "brightness"@
}

// ---------------------------------------------------------------- Sensor

/// An entity that reports a value.
#[derive(Debug)]
pub struct Sensor {
    pub details: EntityDetails,
    pub unit_of_measurement: Option<String>,
    pub device_class: Option<String>,
}

impl EntityDetailsGetter for Sensor {
    open spec fn details_view(&self) -> &EntityDetails {
        &self.details
    }

    fn details(&self) -> (r: &EntityDetails) {
        &self.details
    }
}

impl Sensor {
    /// A sensor with a unit of measurement and a device class.
    pub fn new<A: IntoText, B: IntoText, C: IntoText, D: IntoText, E: IntoText>(
        device_identifier: A,
        name: B,
        icon: C,
        unit_of_measurement: D,
        device_class: E,
    ) -> (r: Self)
        ensures
            r.details.device_identifier@ == device_identifier.text_view(),
            r.details.name@ == name.text_view(),
            r.details.id@ == dashes_to_underscores(slug_of(name.text_view())),
            r.details.icon matches Some(i) && i@ == icon.text_view(),
            !r.details.has_attributes,
            r.details.command_topics@.len() == 0,
            r.unit_of_measurement matches Some(u) && u@ == unit_of_measurement.text_view(),
            r.device_class matches Some(c) && c@ == device_class.text_view(),
    {
        Self::new_with_details(
            EntityDetails::new(device_identifier, name, icon),
            Some(unit_of_measurement.into_text()),
            Some(device_class.into_text()),
        )
    }

    /// A sensor without unit of measurement and device class.
    pub fn new_simple<A: IntoText, B: IntoText, C: IntoText>(device_identifier: A, name: B, icon: C) -> (r: Self)
        ensures
            r.details.device_identifier@ == device_identifier.text_view(),
            r.details.name@ == name.text_view(),
            r.details.id@ == dashes_to_underscores(slug_of(name.text_view())),
            r.details.icon matches Some(i) && i@ == icon.text_view(),
            !r.details.has_attributes,
            r.details.command_topics@.len() == 0,
            r.unit_of_measurement is None,
            r.device_class is None,
    {
        Self::new_with_details(EntityDetails::new(device_identifier, name, icon), None, None)
    }

    /// A sensor with the given details.
    pub fn new_with_details(
        details: EntityDetails,
        unit_of_measurement: Option<String>,
        device_class: Option<String>,
    ) -> (r: Self)
        ensures
            r.details == details,
            r.unit_of_measurement == unit_of_measurement,
            r.device_class == device_class,
    {
        Sensor { details, unit_of_measurement, device_class }
    }

    /// The discovery document of this sensor on a device.
    pub open spec fn json_view(self, device_identifier: Seq<char>) -> Map<Seq<char>, FieldView> {
        self.details.json_view(device_identifier)
            .insert("device_class"@, opt_field_view(self.device_class))
            .insert("platform"@, FieldView::Str("sensor"@))
            .insert("unit_of_measurement"@, opt_field_view(self.unit_of_measurement))
    }

    /// The discovery document of this sensor on `device`.
    pub fn json_for_discovery(&self, device: &Device) -> (r: JsonObject)
        ensures
            r.view() == self.json_view(device.details.identifier@),
    {
        let mut json = self.details.json_for_discovery(device.details.identifier.as_str());
        json.insert("device_class".to_owned(), opt_field(&self.device_class));
        json.insert("platform".to_owned(), str_field("sensor"));
        json.insert("unit_of_measurement".to_owned(), opt_field(&self.unit_of_measurement));
        json
    }
}

// ---------------------------------------------------------------- Switch

/// An entity that is on or off and takes commands.
#[derive(Debug)]
pub struct Switch {
    pub details: EntityDetails,
    pub payload_on: String,
    pub payload_off: String,
    pub device_class: Option<String>,
    pub command_topic: String,
}

impl EntityDetailsGetter for Switch {
    open spec fn details_view(&self) -> &EntityDetails {
        &self.details
    }

    fn details(&self) -> (r: &EntityDetails) {
        &self.details
    }
}

impl Switch {
    /// A switch named `name` of the device `device_identifier`.
    pub fn new<A: IntoText, B: IntoText, C: IntoText>(
        device_identifier: A,
        name: B,
        icon: C,
        device_class: Option<String>,
    ) -> (r: Self)
        ensures
            r.details.device_identifier@ == device_identifier.text_view(),
            r.details.name@ == name.text_view(),
            r.details.id@ == dashes_to_underscores(slug_of(name.text_view())),
            r.details.icon matches Some(i) && i@ == icon.text_view(),
            r.command_topic@ == r.details.command_topic(None),
            r.details.command_topics@.len() == 1,
            r.details.command_topics@[0] == r.command_topic,
            r.payload_on@ == "ON"@,
            r.payload_off@ == "OFF"@,
            r.device_class == device_class,
    {
        Self::new_with_details(EntityDetails::new(device_identifier, name, icon), device_class)
    }

    /// A switch with the given details: its command topic is the command topic
    /// of the details, and is added to them.
    pub fn new_with_details(details: EntityDetails, device_class: Option<String>) -> (r: Self)
        ensures
            r.command_topic@ == details.command_topic(None),
            r.details.command_topics@ == details.command_topics@.push(r.command_topic),
            r.details.device_identifier == details.device_identifier,
            r.details.id == details.id,
            r.details.name == details.name,
            r.details.icon == details.icon,
            r.details.has_attributes == details.has_attributes,
            r.payload_on@ == "ON"@,
            r.payload_off@ == "OFF"@,
            r.device_class == device_class,
    {
        let command_topic = details.get_topic_for_command(None);
        Switch {
            details: details.add_command(command_topic.clone()),
            payload_on: "ON".to_owned(),
            payload_off: "OFF".to_owned(),
            device_class,
            command_topic,
        }
    }

    /// A switch made from entity details alone: its command topic is the
    /// command topic of the details, which keep their own command topics, and
    /// it has no device class.
    pub fn from_details(details: EntityDetails) -> (r: Self)
        ensures
            r.command_topic@ == details.command_topic(None),
            r.details == details,
            r.payload_on@ == "ON"@,
            r.payload_off@ == "OFF"@,
            r.device_class is None,
    {
        let command_topic = details.get_topic_for_command(None);
        Switch {
            details,
            payload_on: "ON".to_owned(),
            payload_off: "OFF".to_owned(),
            device_class: None,
            command_topic,
        }
    }

    /// The discovery document of this switch on a device.
    pub open spec fn json_view(self, device_identifier: Seq<char>) -> Map<Seq<char>, FieldView> {
        self.details.json_view(device_identifier)
            .insert("device_class"@, opt_field_view(self.device_class))
            .insert("platform"@, FieldView::Str("switch"@))
            .insert("payload_on"@, FieldView::Str(self.payload_on@))
            .insert("payload_off"@, FieldView::Str(self.payload_off@))
            .insert("command_topic"@, FieldView::Str(self.command_topic@))
    }

    /// The discovery document of this switch on `device`.
    pub fn json_for_discovery(&self, device: &Device) -> (r: JsonObject)
        ensures
            r.view() == self.json_view(device.details.identifier@),
    {
        let mut json = self.details.json_for_discovery(device.details.identifier.as_str());
        json.insert("device_class".to_owned(), opt_field(&self.device_class));
        json.insert("platform".to_owned(), str_field("switch"));
        json.insert("payload_on".to_owned(), JsonField::Str(self.payload_on.clone()));
        json.insert("payload_off".to_owned(), JsonField::Str(self.payload_off.clone()));
        json.insert("command_topic".to_owned(), JsonField::Str(self.command_topic.clone()));
        json
    }
}

// ---------------------------------------------------------------- Light

/// A light, that may be dimmed.
#[derive(Debug)]
pub struct Light {
    pub details: EntityDetails,
    pub payload_on: String,
    pub payload_off: String,
    pub supports_brightness: bool,
    pub brightness_scale: u8,
    pub command_topic: String,
    pub brightness_command_topic: Option<String>,
}

impl EntityDetailsGetter for Light {
    open spec fn details_view(&self) -> &EntityDetails {
        &self.details
    }

    fn details(&self) -> (r: &EntityDetails) {
        &self.details
    }
}

impl Light {
    /// A light named `name` of the device `device_identifier`, without brightness.
    pub fn new<A: IntoText, B: IntoText, C: IntoText>(device_identifier: A, name: B, icon: C) -> (r: Self)
        ensures
            r.details.device_identifier@ == device_identifier.text_view(),
            r.details.name@ == name.text_view(),
            r.details.id@ == dashes_to_underscores(slug_of(name.text_view())),
            r.details.icon matches Some(i) && i@ == icon.text_view(),
            r.command_topic@ == r.details.command_topic(None),
            r.details.command_topics@.len() == 1,
            r.details.command_topics@[0] == r.command_topic,
            r.payload_on@ == "ON"@,
            r.payload_off@ == "OFF"@,
            !r.supports_brightness,
            r.brightness_scale == 255,
            r.brightness_command_topic is None,
    {
        Self::new_with_details(EntityDetails::new(device_identifier, name, icon))
    }

    /// A light with the given details: its command topic is the command topic
    /// of the details, and is added to them.
    pub fn new_with_details(details: EntityDetails) -> (r: Self)
        ensures
            r.command_topic@ == details.command_topic(None),
            r.details.command_topics@ == details.command_topics@.push(r.command_topic),
            r.details.device_identifier == details.device_identifier,
            r.details.id == details.id,
            r.details.name == details.name,
            r.details.icon == details.icon,
            r.details.has_attributes == details.has_attributes,
            r.payload_on@ == "ON"@,
            r.payload_off@ == "OFF"@,
            !r.supports_brightness,
            r.brightness_scale == 255,
            r.brightness_command_topic is None,
    {
        let command_topic = details.get_topic_for_command(None);
        Light {
            details: details.add_command(command_topic.clone()),
            payload_on: "ON".to_owned(),
            payload_off: "OFF".to_owned(),
            supports_brightness: false,
            brightness_scale: 255,
            command_topic,
            brightness_command_topic: None,
        }
    }

    /// This light, dimmable on the given scale: its brightness command topic is
    /// the command topic of its brightness item, and is added to its details.
    pub fn support_brightness(self, scale: u8) -> (r: Self)
        ensures
            r.supports_brightness,
            r.brightness_scale == scale,
            r.brightness_command_topic matches Some(t)
                && t@ == self.details.command_topic(Some(brightness_item()))
                && r.details.command_topics@ == self.details.command_topics@.push(t),
            r.details.device_identifier == self.details.device_identifier,
            r.details.id == self.details.id,
            r.details.name == self.details.name,
            r.details.icon == self.details.icon,
            r.details.has_attributes == self.details.has_attributes,
            r.payload_on == self.payload_on,
            r.payload_off == self.payload_off,
            r.command_topic == self.command_topic,
    {
        let mut s = self;
        s.supports_brightness = true;
        s.brightness_scale = scale;
        let brightness_command_topic = s.details.get_topic_for_command(Some("brightness"));
        s.details = s.details.add_command(brightness_command_topic.clone());
        s.brightness_command_topic = Some(brightness_command_topic);
        s
    }

    /// The discovery document of this light on a device: the brightness fields
    /// hold the scale and the brightness topics only when the light is dimmable.
    pub open spec fn json_view(self, device_identifier: Seq<char>) -> Map<Seq<char>, FieldView> {
        self.details.json_view(device_identifier)
            .insert("platform"@, FieldView::Str("light"@))
            .insert("payload_on"@, FieldView::Str(self.payload_on@))
            .insert("payload_off"@, FieldView::Str(self.payload_off@))
            .insert("command_topic"@, FieldView::Str(self.command_topic@))
            .insert("brightness_scale"@, FieldView::Int(if self.supports_brightness { self.brightness_scale as nat } else { 255 }))
            .insert("brightness_command_topic"@, if self.supports_brightness { opt_field_view(self.brightness_command_topic) } else { FieldView::Null })
            .insert("brightness_state_topic"@, if self.supports_brightness { FieldView::Str(self.details.state_topic(Some(brightness_item()))) } else { FieldView::Null })
    }

    /// The discovery document of this light on `device`.
    pub fn json_for_discovery(&self, device: &Device) -> (r: JsonObject)
        ensures
            r.view() == self.json_view(device.details.identifier@),
    {
        let mut json = self.details.json_for_discovery(device.details.identifier.as_str());
        json.insert("platform".to_owned(), str_field("light"));
        json.insert("payload_on".to_owned(), JsonField::Str(self.payload_on.clone()));
        json.insert("payload_off".to_owned(), JsonField::Str(self.payload_off.clone()));
        json.insert("command_topic".to_owned(), JsonField::Str(self.command_topic.clone()));
        let scale: u64 = if self.supports_brightness { self.brightness_scale as u64 } else { 255 };
        json.insert("brightness_scale".to_owned(), JsonField::Int(scale));
        if self.supports_brightness {
            json.insert("brightness_command_topic".to_owned(), opt_field(&self.brightness_command_topic));
            json.insert("brightness_state_topic".to_owned(), JsonField::Str(self.details.get_topic_for_state(Some("brightness"))));
        } else {
            json.insert("brightness_command_topic".to_owned(), JsonField::Null);
            json.insert("brightness_state_topic".to_owned(), JsonField::Null);
        }
        json
    }
}

// ---------------------------------------------------------------- Button

/// An entity that takes a press.
#[derive(Debug)]
pub struct Button {
    pub details: EntityDetails,
    pub device_class: Option<String>,
    pub command_topic: String,
    pub can_be_made_unavailable: bool,
}

/// The device classes of a button.
#[derive(Debug, Clone, Copy, PartialEq, Eq, Structural)]
pub enum ButtonDeviceClass {
    Identify,
    Restart,
    Update,
}

/// The text of a button device class.
pub open spec fn button_device_class_text(c: ButtonDeviceClass) -> Seq<char> {
    match c {
        ButtonDeviceClass::Identify => "identify"@,
        ButtonDeviceClass::Restart => "restart"@,
        ButtonDeviceClass::Update => "update"@,
    }
}

impl EntityDetailsGetter for Button {
    open spec fn details_view(&self) -> &EntityDetails {
        &self.details
    }

    fn details(&self) -> (r: &EntityDetails) {
        &self.details
    }
}

impl Button {
    /// A button named `name` of the device `device_identifier`.
    pub fn new<A: IntoText, B: IntoText, C: IntoText>(device_identifier: A, name: B, icon: C) -> (r: Self)
        ensures
            r.details.device_identifier@ == device_identifier.text_view(),
            r.details.name@ == name.text_view(),
            r.details.id@ == dashes_to_underscores(slug_of(name.text_view())),
            r.details.icon matches Some(i) && i@ == icon.text_view(),
            r.command_topic@ == r.details.command_topic(None),
            r.details.command_topics@.len() == 1,
            r.details.command_topics@[0] == r.command_topic,
            r.device_class is None,
            !r.can_be_made_unavailable,
    {
        Self::new_with_details(EntityDetails::new(device_identifier, name, icon))
    }

    /// A button with the given details: its command topic is the command topic
    /// of the details, and is added to them.
    pub fn new_with_details(details: EntityDetails) -> (r: Self)
        ensures
            r.command_topic@ == details.command_topic(None),
            r.details.command_topics@ == details.command_topics@.push(r.command_topic),
            r.details.device_identifier == details.device_identifier,
            r.details.id == details.id,
            r.details.name == details.name,
            r.details.icon == details.icon,
            r.details.has_attributes == details.has_attributes,
            r.device_class is None,
            !r.can_be_made_unavailable,
    {
        let command_topic = details.get_topic_for_command(None);
        Button {
            details: details.add_command(command_topic.clone()),
            device_class: None,
            command_topic,
            can_be_made_unavailable: false,
        }
    }

    /// This button with the given device class.
    pub fn with_device_class(self, device_class: ButtonDeviceClass) -> (r: Self)
        ensures
            r.device_class matches Some(c) && c@ == button_device_class_text(device_class),
            r.details == self.details,
            r.command_topic == self.command_topic,
            r.can_be_made_unavailable == self.can_be_made_unavailable,
    {
        let mut s = self;
        let text = match device_class {
            ButtonDeviceClass::Identify => "identify",
            ButtonDeviceClass::Restart => "restart",
            ButtonDeviceClass::Update => "update",
        };
        s.device_class = Some(text.to_owned());
        s
    }

    /// This button, made available only when both its device and its own
    /// availability topic say so.
    pub fn can_be_made_unavailable(self) -> (r: Self)
        ensures
            r.can_be_made_unavailable,
            r.details == self.details,
            r.command_topic == self.command_topic,
            r.device_class == self.device_class,
    {
        let mut s = self;
        s.can_be_made_unavailable = true;
        s
    }

    /// The discovery document of this button on a device: a button that can be
    /// made unavailable lists the device's and its own availability topics, and
    /// asks for all of them.
    pub open spec fn json_view(self, device_identifier: Seq<char>, device_availability_topic: Seq<char>) -> Map<Seq<char>, FieldView> {
        let base = self.details.json_view(device_identifier)
            .insert("device_class"@, opt_field_view(self.device_class))
            .insert("platform"@, FieldView::Str("button"@))
            .insert("command_topic"@, FieldView::Str(self.command_topic@));
        if self.can_be_made_unavailable {
            base.insert("availability"@, FieldView::TopicList(seq![device_availability_topic, self.details.availability_topic(None)]))
                .insert("availability_mode"@, FieldView::Str("all"@))
        } else {
            base
        }
    }

    /// The discovery document of this button on `device`.
    pub fn json_for_discovery(&self, device: &Device) -> (r: JsonObject)
        ensures
            r.view() == self.json_view(device.details.identifier@, device.availability_topic@),
    {
        let mut json = self.details.json_for_discovery(device.details.identifier.as_str());
        json.insert("device_class".to_owned(), opt_field(&self.device_class));
        json.insert("platform".to_owned(), str_field("button"));
        json.insert("command_topic".to_owned(), JsonField::Str(self.command_topic.clone()));
        if self.can_be_made_unavailable {
            let mut topics: Vec<String> = Vec::new();
            topics.push(device.availability_topic());
            topics.push(self.details.get_topic_for_availability(None));
            proof {
                assert(topics@.map_values(|t: String| t@) =~= seq![device.availability_topic@, self.details.availability_topic(None)]);
            }
            json.insert("availability".to_owned(), JsonField::TopicList(topics));
            json.insert("availability_mode".to_owned(), str_field("all"));
        }
        json
    }
}

// ---------------------------------------------------------------- Number

/// The ways Home Assistant shows a number entity.
#[derive(Debug, Clone, Copy, PartialEq, Eq, Structural)]
pub enum NumberMode {
    Auto,
    Box,
    Slider,
}

/// The text of a number mode.
pub open spec fn number_mode_text(m: NumberMode) -> Seq<char> {
    match m {
        NumberMode::Auto => "auto"@,
        NumberMode::Box => "box"@,
        NumberMode::Slider => "slider"@,
    }
}

fn number_mode_field(m: NumberMode) -> (r: JsonField)
    ensures
        field_view_is(r, FieldView::Str(number_mode_text(m))),
{
    match m {
        NumberMode::Auto => str_field("auto"),
        NumberMode::Box => str_field("box"),
        NumberMode::Slider => str_field("slider"),
    }
}

/// A field stands for a value.
pub open spec fn field_view_is(f: JsonField, v: FieldView) -> bool {
    crate::json::field_view(f) == v
}

/// The discovery document of a number holds its mode under "mode", as the
/// lowercase name of the mode: "auto", "box" or "slider"; different modes give
/// different texts.
pub proof fn lemma_number_mode_field(n: Number, device_identifier: Seq<char>, m1: NumberMode, m2: NumberMode)
    ensures
        n.json_view(device_identifier).contains_key("mode"@),
        n.mode == NumberMode::Auto ==> n.json_view(device_identifier)["mode"@] == FieldView::Str("auto"@),
        n.mode == NumberMode::Box ==> n.json_view(device_identifier)["mode"@] == FieldView::Str("box"@),
        n.mode == NumberMode::Slider ==> n.json_view(device_identifier)["mode"@] == FieldView::Str("slider"@),
        number_mode_text(m1) == number_mode_text(m2) ==> m1 == m2,
{
    reveal_strlit("auto");
    reveal_strlit("box");
    reveal_strlit("slider");
    assert("slider"@.len() != "auto"@.len());
    assert("slider"@.len() != "box"@.len());
    assert("auto"@[0] != "box"@[0]);
}

/// An entity that holds a number and takes commands.
#[derive(Debug)]
pub struct Number {
    pub details: EntityDetails,
    pub command_topic: String,
    pub mode: NumberMode,
}

impl EntityDetailsGetter for Number {
    open spec fn details_view(&self) -> &EntityDetails {
        &self.details
    }

    fn details(&self) -> (r: &EntityDetails) {
        &self.details
    }
}

impl Number {
    /// A number named `name` of the device `device_identifier`, shown automatically.
    pub fn new<A: IntoText, B: IntoText, C: IntoText>(device_identifier: A, name: B, icon: C) -> (r: Self)
        ensures
            r.details.device_identifier@ == device_identifier.text_view(),
            r.details.name@ == name.text_view(),
            r.details.id@ == dashes_to_underscores(slug_of(name.text_view())),
            r.details.icon matches Some(i) && i@ == icon.text_view(),
            r.command_topic@ == r.details.command_topic(None),
            r.details.command_topics@.len() == 1,
            r.details.command_topics@[0] == r.command_topic,
            r.mode == NumberMode::Auto,
    {
        Self::new_with_details(EntityDetails::new(device_identifier, name, icon))
    }

    /// A number with the given details: its command topic is the command topic
    /// of the details, and is added to them.
    pub fn new_with_details(details: EntityDetails) -> (r: Self)
        ensures
            r.command_topic@ == details.command_topic(None),
            r.details.command_topics@ == details.command_topics@.push(r.command_topic),
            r.details.device_identifier == details.device_identifier,
            r.details.id == details.id,
            r.details.name == details.name,
            r.details.icon == details.icon,
            r.details.has_attributes == details.has_attributes,
            r.mode == NumberMode::Auto,
    {
        let command_topic = details.get_topic_for_command(None);
        Number {
            details: details.add_command(command_topic.clone()),
            mode: NumberMode::Auto,
            command_topic,
        }
    }

    /// This number, shown as a slider.
    pub fn with_mode_slider(self) -> (r: Self)
        ensures
            r.mode == NumberMode::Slider,
            r.details == self.details,
            r.command_topic == self.command_topic,
    {
        let mut s = self;
        s.mode = NumberMode::Slider;
        s
    }

    /// This number, shown as an input box.
    pub fn with_mode_box(self) -> (r: Self)
        ensures
            r.mode == NumberMode::Box,
            r.details == self.details,
            r.command_topic == self.command_topic,
    {
        let mut s = self;
        s.mode = NumberMode::Box;
        s
    }

    /// The discovery document of this number on a device.
    pub open spec fn json_view(self, device_identifier: Seq<char>) -> Map<Seq<char>, FieldView> {
        self.details.json_view(device_identifier)
            .insert("platform"@, FieldView::Str("number"@))
            .insert("command_topic"@, FieldView::Str(self.command_topic@))
            .insert("mode"@, FieldView::Str(number_mode_text(self.mode)))
    }

    /// The discovery document of this number on `device`.
    pub fn json_for_discovery(&self, device: &Device) -> (r: JsonObject)
        ensures
            r.view() == self.json_view(device.details.identifier@),
    {
        let mut json = self.details.json_for_discovery(device.details.identifier.as_str());
        json.insert("platform".to_owned(), str_field("number"));
        json.insert("command_topic".to_owned(), JsonField::Str(self.command_topic.clone()));
        json.insert("mode".to_owned(), number_mode_field(self.mode));
        json
    }
}

// ---------------------------------------------------------------- Text

/// The ways Home Assistant shows a text entity.
#[derive(Debug, Clone, Copy, PartialEq, Eq, Structural)]
pub enum TextMode {
    Text,
    Password,
}

/// The text of a text mode.
pub open spec fn text_mode_text(m: TextMode) -> Seq<char> {
    match m {
        TextMode::Text => "text"@,
        TextMode::Password => "password"@,
    }
}

/// The discovery document of a text holds its mode under "mode": "password"
/// for a password, "text" for a text shown in clear; the two differ, so a
/// password is never announced as a text in clear.
pub proof fn lemma_text_mode_field(t: Text, device_identifier: Seq<char>)
    ensures
        t.json_view(device_identifier).contains_key("mode"@),
        t.mode == TextMode::Password ==> t.json_view(device_identifier)["mode"@] == FieldView::Str("password"@),
        t.mode == TextMode::Text ==> t.json_view(device_identifier)["mode"@] == FieldView::Str("text"@),
        text_mode_text(TextMode::Password) != text_mode_text(TextMode::Text),
{
    reveal_strlit("password");
    reveal_strlit("text");
    assert("password"@.len() != "text"@.len());
}

/// An entity that holds a text and takes commands.
#[derive(Debug)]
pub struct Text {
    pub details: EntityDetails,
    pub command_topic: String,
    pub mode: TextMode,
}

impl EntityDetailsGetter for Text {
    open spec fn details_view(&self) -> &EntityDetails {
        &self.details
    }

    fn details(&self) -> (r: &EntityDetails) {
        &self.details
    }
}

impl Text {
    /// A text named `name` of the device `device_identifier`, shown in clear.
    pub fn new<A: IntoText, B: IntoText, C: IntoText>(device_identifier: A, name: B, icon: C) -> (r: Self)
        ensures
            r.details.device_identifier@ == device_identifier.text_view(),
            r.details.name@ == name.text_view(),
            r.details.id@ == dashes_to_underscores(slug_of(name.text_view())),
            r.details.icon matches Some(i) && i@ == icon.text_view(),
            r.command_topic@ == r.details.command_topic(None),
            r.details.command_topics@.len() == 1,
            r.details.command_topics@[0] == r.command_topic,
            r.mode == TextMode::Text,
    {
        Self::new_with_details(EntityDetails::new(device_identifier, name, icon))
    }

    /// A text with the given details: its command topic is the command topic
    /// of the details, and is added to them.
    pub fn new_with_details(details: EntityDetails) -> (r: Self)
        ensures
            r.command_topic@ == details.command_topic(None),
            r.details.command_topics@ == details.command_topics@.push(r.command_topic),
            r.details.device_identifier == details.device_identifier,
            r.details.id == details.id,
            r.details.name == details.name,
            r.details.icon == details.icon,
            r.details.has_attributes == details.has_attributes,
            r.mode == TextMode::Text,
    {
        let command_topic = details.get_topic_for_command(None);
        Text {
            details: details.add_command(command_topic.clone()),
            mode: TextMode::Text,
            command_topic,
        }
    }

    /// This text, shown as a password.
    pub fn with_password(self) -> (r: Self)
        ensures
            r.mode == TextMode::Password,
            r.details == self.details,
            r.command_topic == self.command_topic,
    {
        let mut s = self;
        s.mode = TextMode::Password;
        s
    }

    /// The discovery document of this text on a device.
    pub open spec fn json_view(self, device_identifier: Seq<char>) -> Map<Seq<char>, FieldView> {
        self.details.json_view(device_identifier)
            .insert("platform"@, FieldView::Str("text"@))
            .insert("command_topic"@, FieldView::Str(self.command_topic@))
            .insert("mode"@, FieldView::Str(text_mode_text(self.mode)))
    }

    /// The discovery document of this text on `device`.
    pub fn json_for_discovery(&self, device: &Device) -> (r: JsonObject)
        ensures
            r.view() == self.json_view(device.details.identifier@),
    {
        let mut json = self.details.json_for_discovery(device.details.identifier.as_str());
        json.insert("platform".to_owned(), str_field("text"));
        json.insert("command_topic".to_owned(), JsonField::Str(self.command_topic.clone()));
        let mode = match self.mode {
            TextMode::Text => str_field("text"),
            TextMode::Password => str_field("password"),
        };
        json.insert("mode".to_owned(), mode);
        json
    }
}

// ---------------------------------------------------------------- Entity

/// An entity of a device, of one of the kinds above.
#[derive(Debug)]
pub enum Entity {
    Sensor(Sensor),
    Switch(Switch),
    Light(Light),
    Button(Button),
    Number(Number),
    Text(Text),
}

/// The command topics of an entity as its constructor sets them: none for a
/// sensor; for the others the command topic of their details, and for a
/// dimmable light also that of its brightness item, in that order.
pub open spec fn entity_commands_ok(e: Entity) -> bool {
    match e {
        Entity::Sensor(s) => s.details.command_topics@.len() == 0,
        Entity::Button(b) => b.command_topic@ == b.details.command_topic(None)
            && b.details.command_topics@ == seq![b.command_topic],
        Entity::Switch(w) => w.command_topic@ == w.details.command_topic(None)
            && w.details.command_topics@ == seq![w.command_topic],
        Entity::Number(n) => n.command_topic@ == n.details.command_topic(None)
            && n.details.command_topics@ == seq![n.command_topic],
        Entity::Text(t) => t.command_topic@ == t.details.command_topic(None)
            && t.details.command_topics@ == seq![t.command_topic],
        Entity::Light(l) => l.command_topic@ == l.details.command_topic(None)
            && if l.supports_brightness {
                l.brightness_command_topic matches Some(bt)
                    && bt@ == l.details.command_topic(Some(brightness_item()))
                    && l.details.command_topics@ == seq![l.command_topic, bt]
            } else {
                l.brightness_command_topic is None && l.details.command_topics@ == seq![l.command_topic]
            },
    }
}

/// An entity of the device `device_id` with the given name, identified by the
/// slug of its name (which sets its topics and unique id), with the command
/// topics its constructor sets.
pub open spec fn entity_named(e: Entity, name: Seq<char>, device_id: Seq<char>) -> bool {
    &&& e.details_view().name@ == name
    &&& e.details_view().device_identifier@ == device_id
    &&& e.details_view().id@ == dashes_to_underscores(slug_of(name))
    &&& entity_commands_ok(e)
}

impl EntityDetailsGetter for Entity {
    open spec fn details_view(&self) -> &EntityDetails {
        match self {
            Entity::Sensor(e) => &e.details,
            Entity::Switch(e) => &e.details,
            Entity::Light(e) => &e.details,
            Entity::Button(e) => &e.details,
            Entity::Number(e) => &e.details,
            Entity::Text(e) => &e.details,
        }
    }

    fn details(&self) -> (r: &EntityDetails) {
        match self {
            Entity::Sensor(e) => &e.details,
            Entity::Switch(e) => &e.details,
            Entity::Light(e) => &e.details,
            Entity::Button(e) => &e.details,
            Entity::Number(e) => &e.details,
            Entity::Text(e) => &e.details,
        }
    }
}

impl Entity {
    /// The discovery document of this entity on a device.
    pub open spec fn json_view(self, device_identifier: Seq<char>, device_availability_topic: Seq<char>) -> Map<Seq<char>, FieldView> {
        match self {
            Entity::Sensor(e) => e.json_view(device_identifier),
            Entity::Switch(e) => e.json_view(device_identifier),
            Entity::Light(e) => e.json_view(device_identifier),
            Entity::Button(e) => e.json_view(device_identifier, device_availability_topic),
            Entity::Number(e) => e.json_view(device_identifier),
            Entity::Text(e) => e.json_view(device_identifier),
        }
    }

    /// The discovery document of this entity on `device`.
    pub fn json_for_discovery(&self, device: &Device) -> (r: JsonObject)
        ensures
            r.view() == self.json_view(device.details.identifier@, device.availability_topic@),
    {
        match self {
            Entity::Sensor(e) => e.json_for_discovery(device),
            Entity::Switch(e) => e.json_for_discovery(device),
            Entity::Light(e) => e.json_for_discovery(device),
            Entity::Button(e) => e.json_for_discovery(device),
            Entity::Number(e) => e.json_for_discovery(device),
            Entity::Text(e) => e.json_for_discovery(device),
        }
    }
}

} // verus!
