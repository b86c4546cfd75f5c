//! The first model of Home Assistant devices: components addressed under a
//! node id, a device identifier and the component id, announced in one
//! discovery document per device.

use vstd::prelude::*;
use vstd::string::*;
use crate::helpers::{slug_slugify, slug_of};
use crate::json::{JsonObject, JsonField, FieldView, opt_field, opt_field_view, str_field};

verus! {

/// The identity of a device.
#[derive(Debug, PartialEq)]
pub struct DeviceDetails {
    pub name: String,
    pub identifier: String,
    pub manufacturer: String,
    pub sw_version: String,
}

impl Clone for DeviceDetails {
    fn clone(&self) -> (r: Self)
        ensures
            r == *self,
    {
        DeviceDetails {
            name: self.name.clone(),
            identifier: self.identifier.clone(),
            manufacturer: self.manufacturer.clone(),
            sw_version: self.sw_version.clone(),
        }
    }
}

/// The software that announces a device.
#[derive(Debug, PartialEq)]
pub struct DeviceOrigin {
    pub name: String,
    pub sw: String,
    pub url: String,
}

impl Clone for DeviceOrigin {
    fn clone(&self) -> (r: Self)
        ensures
            r == *self,
    {
        DeviceOrigin { name: self.name.clone(), sw: self.sw.clone(), url: self.url.clone() }
    }
}

/// What goes wrong when describing devices.
#[derive(Debug, Clone, Copy, PartialEq, Eq, Structural)]
pub enum DevicesError {
    /// A component was described without its device.
    MissingDevice,
    /// A document did not have the shape of a JSON object.
    IncorrectJsonStructure,
    Unknown,
}

/// A payload to publish on a topic.
#[derive(Debug, Clone, PartialEq)]
pub struct EntityData {
    pub topic: String,
    pub payload: String,
}

/// The identity and topics of a component of a device.
#[derive(Debug, PartialEq)]
pub struct ComponentDetails {
    pub device_node_id: String,
    pub device_identifier: String,
    pub id: String,
    pub name: String,
    pub icon: String,
    pub has_attributes: bool,
    pub command_topics: Vec<String>,
}

/// The topic path of a component: `<node>/<device>/<id>`, or
/// `<node>/<device>/<id>_<item>` for one of its items.
pub open spec fn component_path(node: Seq<char>, device: Seq<char>, id: Seq<char>, item: Option<Seq<char>>) -> Seq<char> {
    match item {
        Some(i) => node + "/"@ + device + "/"@ + id + "_"@ + i,
        None => node + "/"@ + device + "/"@ + id,
    }
}

/// The characters of an optional string slice.
pub open spec fn opt_view(item: Option<&str>) -> Option<Seq<char>> {
    match item {
        Some(s) => Some(s@),
        None => None,
    }
}

impl ComponentDetails {
    /// The topic path of this component, or of one of its items.
    pub open spec fn path(self, item: Option<Seq<char>>) -> Seq<char> {
        component_path(self.device_node_id@, self.device_identifier@, self.id@, item)
    }

    /// The command topic of this component, or of one of its items.
    pub open spec fn command_topic(self, item: Option<Seq<char>>) -> Seq<char> {
        self.path(item) + "/command"@
    }

    /// The state topic of this component, or of one of its items.
    pub open spec fn state_topic(self, item: Option<Seq<char>>) -> Seq<char> {
        self.path(item) + "/state"@
    }

    /// The part of the discovery document that every component shares.
    pub open spec fn json_view(self, device_identifier: Seq<char>) -> Map<Seq<char>, FieldView> {
        let base = Map::<Seq<char>, FieldView>::empty()
            .insert("name"@, FieldView::Str(self.name@))
            .insert("unique_id"@, FieldView::Str(device_identifier + "_"@ + self.id@))
            .insert("state_topic"@, FieldView::Str(self.state_topic(None)))
            .insert("icon"@, FieldView::Str(self.icon@));
        if self.has_attributes {
            base.insert("json_attributes_topic"@, FieldView::Str(self.state_topic(Some("attributes"@))))
                .insert("json_attributes_template"@, FieldView::Str("{{ value_json | tojson }}"@))
        } else {
            base
        }
    }

    /// The details of a component named `name`: its id is the slug of its name
    /// (words joined by `-`), with no attributes and no command topic.
    pub fn new(device_node_id: String, device_identifier: String, name: String, icon: String) -> (r: Self)
        ensures
            r.device_node_id == device_node_id,
            r.device_identifier == device_identifier,
            r.id@ == slug_of(name@),
            r.name == name,
            r.icon == icon,
            !r.has_attributes,
            r.command_topics@.len() == 0,
    {
        ComponentDetails {
            device_node_id,
            device_identifier,
            id: slug_slugify(name.as_str()),
            name,
            icon,
            has_attributes: false,
            command_topics: Vec::new(),
        }
    }

    /// These details, with attributes.
    pub fn has_attributes(self) -> (r: Self)
        ensures
            r.has_attributes,
            r.device_node_id == self.device_node_id,
            r.device_identifier == self.device_identifier,
            r.id == self.id,
            r.name == self.name,
            r.icon == self.icon,
            r.command_topics == self.command_topics,
    {
        let mut s = self;
        s.has_attributes = true;
        s
    }

    /// These details, with one more command topic.
    pub fn add_command(self, command: String) -> (r: Self)
        ensures
            r.command_topics@ == self.command_topics@.push(command),
            r.device_node_id == self.device_node_id,
            r.device_identifier == self.device_identifier,
            r.id == self.id,
            r.name == self.name,
            r.icon == self.icon,
            r.has_attributes == self.has_attributes,
    {
        let mut s = self;
        s.command_topics.push(command);
        s
    }

    /// The topic path of this component, or of one of its items.
    pub fn get_topic_path(&self, item: Option<&str>) -> (r: String)
        ensures
            r@ == self.path(opt_view(item)),
    {
        let mut r = self.device_node_id.clone();
        r.append("/");
        r.append(self.device_identifier.as_str());
        r.append("/");
        r.append(self.id.as_str());
        match item {
            Some(i) => {
                r.append("_");
                r.append(i);
            },
            None => {},
        }
        r
    }

    /// The command topic of this component, or of one of its items.
    pub fn get_topic_for_command(&self, item: Option<&str>) -> (r: String)
        ensures
            r@ == self.command_topic(opt_view(item)),
    {
        let mut r = self.get_topic_path(item);
        r.append("/command");
        r
    }

    /// The state topic of this component, or of one of its items.
    pub fn get_topic_for_state(&self, item: Option<&str>) -> (r: String)
        ensures
            r@ == self.state_topic(opt_view(item)),
    {
        let mut r = self.get_topic_path(item);
        r.append("/state");
        r
    }

    /// The shared part of the discovery document of this component on
    /// `device`, which is needed.
    pub fn to_json(&self, device: Option<&Device>) -> (r: Result<JsonObject, DevicesError>)
        ensures
            match device {
                Some(d) => r matches Ok(o) && o.view() == self.json_view(d.details.identifier@),
                None => r == Err::<JsonObject, DevicesError>(DevicesError::MissingDevice),
            },
    {
        let device = match device {
            Some(d) => d,
            None => return Err(DevicesError::MissingDevice),
        };
        let mut json = JsonObject::new();
        json.insert("name".to_owned(), JsonField::Str(self.name.clone()));
        let mut unique_id = device.details.identifier.clone();
        unique_id.append("_");
        unique_id.append(self.id.as_str());
        json.insert("unique_id".to_owned(), JsonField::Str(unique_id));
        json.insert("state_topic".to_owned(), JsonField::Str(self.get_topic_for_state(None)));
        json.insert("icon".to_owned(), JsonField::Str(self.icon.clone()));
        if self.has_attributes {
            json.insert("json_attributes_topic".to_owned(), JsonField::Str(self.get_topic_for_state(Some("attributes"))));
            json.insert("json_attributes_template".to_owned(), str_field("{{ value_json | tojson }}"));
        }
        Ok(json)
    }
}

/// A value that has component details.
pub trait ComponentDetailsGetter {
    /// The details of the value.
    spec fn component_details_view(&self) -> &ComponentDetails;

    /// The details of the value.
    fn details(&self) -> (r: &ComponentDetails)
        ensures
            r == self.component_details_view(),
    ;
}

// ---------------------------------------------------------------- Sensor

/// A component that reports a value.
#[derive(Debug)]
pub struct Sensor {
    pub details: ComponentDetails,
    pub unit_of_measurement: String,
    pub device_class: Option<String>,
}

impl ComponentDetailsGetter for Sensor {
    open spec fn component_details_view(&self) -> &ComponentDetails {
        &self.details
    }

    fn details(&self) -> (r: &ComponentDetails) {
        &self.details
    }
}

impl Sensor {
    /// A sensor named `name` of the device `device_identifier` under `device_node_id`.
    pub fn new(
        device_node_id: String,
        device_identifier: String,
        name: String,
        icon: String,
        unit_of_measurement: String,
        device_class: Option<String>,
    ) -> (r: Self)
        ensures
            r.details.device_node_id == device_node_id,
            r.details.device_identifier == device_identifier,
            r.details.id@ == slug_of(name@),
            r.details.name == name,
            r.details.icon == icon,
            !r.details.has_attributes,
            r.details.command_topics@.len() == 0,
            r.unit_of_measurement == unit_of_measurement,
            r.device_class == device_class,
    {
        Self::new_with_details(ComponentDetails::new(device_node_id, device_identifier, name, icon), unit_of_measurement, device_class)
    }

    /// A sensor with the given details.
    pub fn new_with_details(details: ComponentDetails, unit_of_measurement: String, device_class: Option<String>) -> (r: Self)
        ensures
            r.details == details,
            r.unit_of_measurement == unit_of_measurement,
            r.device_class == device_class,
    {
        Sensor { details, unit_of_measurement, device_class }
    }

    /// The discovery document of this sensor on a device.
    pub open spec fn json_view(self, device_identifier: Seq<char>) -> Map<Seq<char>, FieldView> {
        self.details.json_view(device_identifier)
            .insert("device_class"@, opt_field_view(self.device_class))
            .insert("platform"@, FieldView::Str("sensor"@))
            .insert("unit_of_measurement"@, FieldView::Str(self.unit_of_measurement@))
    }
}

// ---------------------------------------------------------------- Switch

/// A component turned on and off.
#[derive(Debug)]
pub struct Switch {
    pub details: ComponentDetails,
    pub payload_on: String,
    pub payload_off: String,
    pub device_class: Option<String>,
    pub command_topic: String,
}

impl ComponentDetailsGetter for Switch {
    open spec fn component_details_view(&self) -> &ComponentDetails {
        &self.details
    }

    fn details(&self) -> (r: &ComponentDetails) {
        &self.details
    }
}

impl Switch {
    /// A switch named `name`.
    pub fn new(device_node_id: String, device_identifier: String, name: String, icon: String, device_class: Option<String>) -> (r: Self)
        ensures
            r.details.device_node_id == device_node_id,
            r.details.device_identifier == device_identifier,
            r.details.id@ == slug_of(name@),
            r.details.name == name,
            r.details.icon == icon,
            r.command_topic@ == r.details.command_topic(None),
            r.details.command_topics@ == seq![r.command_topic],
            r.payload_on@ == "ON"@,
            r.payload_off@ == "OFF"@,
            r.device_class == device_class,
    {
        Self::new_with_details(ComponentDetails::new(device_node_id, device_identifier, name, icon), device_class)
    }

    /// A switch with the given details: its command topic is the command topic
    /// of the details, and is added to them.
    pub fn new_with_details(details: ComponentDetails, device_class: Option<String>) -> (r: Self)
        ensures
            r.command_topic@ == details.command_topic(None),
            r.details.command_topics@ == details.command_topics@.push(r.command_topic),
            r.details.device_node_id == details.device_node_id,
            r.details.device_identifier == details.device_identifier,
            r.details.id == details.id,
            r.details.name == details.name,
            r.details.icon == details.icon,
            r.details.has_attributes == details.has_attributes,
            r.payload_on@ == "ON"@,
            r.payload_off@ == "OFF"@,
            r.device_class == device_class,
    {
        let command_topic = details.get_topic_for_command(None);
        Switch {
            details: details.add_command(command_topic.clone()),
            payload_on: "ON".to_owned(),
            payload_off: "OFF".to_owned(),
            device_class,
            command_topic,
        }
    }

    /// The discovery document of this switch on a device.
    pub open spec fn json_view(self, device_identifier: Seq<char>) -> Map<Seq<char>, FieldView> {
        self.details.json_view(device_identifier)
            .insert("device_class"@, opt_field_view(self.device_class))
            .insert("platform"@, FieldView::Str("switch"@))
            .insert("payload_on"@, FieldView::Str(self.payload_on@))
            .insert("payload_off"@, FieldView::Str(self.payload_off@))
            .insert("command_topic"@, FieldView::Str(self.command_topic@))
    }
}

// ---------------------------------------------------------------- Light

/// A component that lights, dimmable or not.
#[derive(Debug)]
pub struct Light {
    pub details: ComponentDetails,
    pub payload_on: String,
    pub payload_off: String,
    pub supports_brightness: bool,
    pub brightness_scale: u8,
    pub command_topic: String,
    pub brightness_command_topic: Option<String>,
}

impl ComponentDetailsGetter for Light {
    open spec fn component_details_view(&self) -> &ComponentDetails {
        &self.details
    }

    fn details(&self) -> (r: &ComponentDetails) {
        &self.details
    }
}

impl Light {
    /// A light named `name`, without brightness.
    pub fn new(device_node_id: String, device_identifier: String, name: String, icon: String) -> (r: Self)
        ensures
            r.details.device_node_id == device_node_id,
            r.details.device_identifier == device_identifier,
            r.details.id@ == slug_of(name@),
            r.details.name == name,
            r.details.icon == icon,
            r.command_topic@ == r.details.command_topic(None),
            r.details.command_topics@ == seq![r.command_topic],
            !r.supports_brightness,
            r.brightness_scale == 255,
            r.brightness_command_topic is None,
    {
        Self::new_with_details(ComponentDetails::new(device_node_id, device_identifier, name, icon))
    }

    /// A light with the given details: its command topic is the command topic
    /// of the details, and is added to them.
    pub fn new_with_details(details: ComponentDetails) -> (r: Self)
        ensures
            r.command_topic@ == details.command_topic(None),
            r.details.command_topics@ == details.command_topics@.push(r.command_topic),
            r.details.device_node_id == details.device_node_id,
            r.details.device_identifier == details.device_identifier,
            r.details.id == details.id,
            r.details.name == details.name,
            r.details.icon == details.icon,
            r.details.has_attributes == details.has_attributes,
            r.payload_on@ == "ON"@,
            r.payload_off@ == "OFF"@,
            !r.supports_brightness,
            r.brightness_scale == 255,
            r.brightness_command_topic is None,
    {
        let command_topic = details.get_topic_for_command(None);
        Light {
            details: details.add_command(command_topic.clone()),
            payload_on: "ON".to_owned(),
            payload_off: "OFF".to_owned(),
            supports_brightness: false,
            brightness_scale: 255,
            command_topic,
            brightness_command_topic: None,
        }
    }

    /// This light, dimmable on the given scale: its brightness command topic is
    /// the command topic of its brightness item, and is added to its details.
    pub fn support_brightness(self, scale: u8) -> (r: Self)
        ensures
            r.supports_brightness,
            r.brightness_scale == scale,
            r.brightness_command_topic matches Some(t)
                && t@ == self.details.command_topic(Some("brightness"@))
                && r.details.command_topics@ == self.details.command_topics@.push(t),
            r.details.device_node_id == self.details.device_node_id,
            r.details.device_identifier == self.details.device_identifier,
            r.details.id == self.details.id,
            r.details.name == self.details.name,
            r.details.icon == self.details.icon,
            r.details.has_attributes == self.details.has_attributes,
            r.payload_on == self.payload_on,
            r.payload_off == self.payload_off,
            r.command_topic == self.command_topic,
    {
        let mut s = self;
        s.supports_brightness = true;
        s.brightness_scale = scale;
        let topic = s.details.get_topic_for_command(Some("brightness"));
        s.details = s.details.add_command(topic.clone());
        s.brightness_command_topic = Some(topic);
        s
    }

    /// The discovery document of this light on a device.
    pub open spec fn json_view(self, device_identifier: Seq<char>) -> Map<Seq<char>, FieldView> {
        self.details.json_view(device_identifier)
            .insert("platform"@, FieldView::Str("light"@))
            .insert("payload_on"@, FieldView::Str(self.payload_on@))
            .insert("payload_off"@, FieldView::Str(self.payload_off@))
            .insert("command_topic"@, FieldView::Str(self.command_topic@))
            .insert("brightness_scale"@, FieldView::Int(if self.supports_brightness { self.brightness_scale as nat } else { 255 }))
            .insert("brightness_command_topic"@, if self.supports_brightness { opt_field_view(self.brightness_command_topic) } else { FieldView::Null })
            .insert("brightness_state_topic"@, if self.supports_brightness { FieldView::Str(self.details.state_topic(Some("brightness"@))) } else { FieldView::Null })
    }
}

// ---------------------------------------------------------------- components and devices

/// A component of a device.
#[derive(Debug)]
pub enum Component {
    Sensor(Sensor),
    Switch(Switch),
    Light(Light),
}

impl ComponentDetailsGetter for Component {
    open spec fn component_details_view(&self) -> &ComponentDetails {
        match self {
            Component::Sensor(c) => &c.details,
            Component::Switch(c) => &c.details,
            Component::Light(c) => &c.details,
        }
    }

    fn details(&self) -> (r: &ComponentDetails) {
        match self {
            Component::Sensor(c) => &c.details,
            Component::Switch(c) => &c.details,
            Component::Light(c) => &c.details,
        }
    }
}

impl Component {
    /// The discovery document of this component on a device.
    pub open spec fn json_view(self, device_identifier: Seq<char>) -> Map<Seq<char>, FieldView> {
        match self {
            Component::Sensor(c) => c.json_view(device_identifier),
            Component::Switch(c) => c.json_view(device_identifier),
            Component::Light(c) => c.json_view(device_identifier),
        }
    }

    /// The discovery document of this component on `device`, which is needed,
    /// under the component's id.
    pub fn json_for_discovery(&self, device: Option<&Device>) -> (r: Result<(String, JsonObject), DevicesError>)
        ensures
            match device {
                Some(d) => r matches Ok((id, o)) && id == self.component_details_view().id
                    && o.view() == self.json_view(d.details.identifier@),
                None => r == Err::<(String, JsonObject), DevicesError>(DevicesError::MissingDevice),
            },
    {
        let details = self.details();
        let mut json = match details.to_json(device) {
            Ok(j) => j,
            Err(e) => return Err(e),
        };
        match self {
            Component::Sensor(c) => {
                json.insert("device_class".to_owned(), opt_field(&c.device_class));
                json.insert("platform".to_owned(), str_field("sensor"));
                json.insert("unit_of_measurement".to_owned(), JsonField::Str(c.unit_of_measurement.clone()));
            },
            Component::Switch(c) => {
                json.insert("device_class".to_owned(), opt_field(&c.device_class));
                json.insert("platform".to_owned(), str_field("switch"));
                json.insert("payload_on".to_owned(), JsonField::Str(c.payload_on.clone()));
                json.insert("payload_off".to_owned(), JsonField::Str(c.payload_off.clone()));
                json.insert("command_topic".to_owned(), JsonField::Str(c.command_topic.clone()));
            },
            Component::Light(c) => {
                json.insert("platform".to_owned(), str_field("light"));
                json.insert("payload_on".to_owned(), JsonField::Str(c.payload_on.clone()));
                json.insert("payload_off".to_owned(), JsonField::Str(c.payload_off.clone()));
                json.insert("command_topic".to_owned(), JsonField::Str(c.command_topic.clone()));
                let scale: u64 = if c.supports_brightness { c.brightness_scale as u64 } else { 255 };
                json.insert("brightness_scale".to_owned(), JsonField::Int(scale));
                if c.supports_brightness {
                    json.insert("brightness_command_topic".to_owned(), opt_field(&c.brightness_command_topic));
                    json.insert("brightness_state_topic".to_owned(), JsonField::Str(c.details.get_topic_for_state(Some("brightness"))));
                } else {
                    json.insert("brightness_command_topic".to_owned(), JsonField::Null);
                    json.insert("brightness_state_topic".to_owned(), JsonField::Null);
                }
            },
        }
        Ok((details.id.clone(), json))
    }
}

/// A device: its node, identity, origin and components.
#[derive(Debug)]
pub struct Device {
    pub node_id: String,
    pub details: DeviceDetails,
    pub origin: DeviceOrigin,
    pub components: Vec<Component>,
}

/// The command topics of a list of components, component after component.
pub open spec fn components_command_topics(cs: Seq<Component>) -> Seq<String>
    decreases cs.len(),
{
    if cs.len() == 0 {
        Seq::empty()
    } else {
        components_command_topics(cs.drop_last()) + cs.last().component_details_view().command_topics@
    }
}

/// The components of a discovery document, a later one replacing an earlier
/// one with the same id.
pub open spec fn ha_components_view(cs: Seq<Component>, device_identifier: Seq<char>) -> Map<Seq<char>, Map<Seq<char>, FieldView>>
    decreases cs.len(),
{
    if cs.len() == 0 {
        Map::empty()
    } else {
        ha_components_view(cs.drop_last(), device_identifier)
            .insert(cs.last().component_details_view().id@, cs.last().json_view(device_identifier))
    }
}

/// The components that a list of writes leaves.
pub open spec fn ha_component_writes(s: Seq<(String, JsonObject)>) -> Map<Seq<char>, Map<Seq<char>, FieldView>>
    decreases s.len(),
{
    if s.len() == 0 {
        Map::empty()
    } else {
        ha_component_writes(s.drop_last()).insert(s.last().0@, s.last().1.view())
    }
}

/// The discovery document of a device.
#[derive(Debug)]
pub struct HaDeviceDiscovery {
    pub device: DeviceDetails,
    pub origin: DeviceOrigin,
    pub availability_topic: String,
    pub components: Vec<(String, JsonObject)>,
}

impl Device {
    /// The availability topic of this device: `<node>/<identifier>/availability`.
    pub fn availability_topic(&self) -> (r: String)
        ensures
            r@ == self.node_id@ + "/"@ + self.details.identifier@ + "/availability"@,
    {
        let mut r = self.node_id.clone();
        r.append("/");
        r.append(self.details.identifier.as_str());
        r.append("/availability");
        r
    }

    /// The discovery topic of this device: `<prefix>/device/<node>/config`.
    pub fn discovery_topic(&self, discovery_prefix: &str) -> (r: String)
        ensures
            r@ == discovery_prefix@ + "/device/"@ + self.node_id@ + "/config"@,
    {
        let mut r = discovery_prefix.to_owned();
        r.append("/device/");
        r.append(self.node_id.as_str());
        r.append("/config");
        r
    }

    /// The command topics of all components, component after component.
    pub fn command_topics(&self) -> (r: Vec<String>)
        ensures
            r@ == components_command_topics(self.components@),
    {
        let mut all: Vec<String> = Vec::new();
        let mut i: usize = 0;
        while i < self.components.len()
            invariant
                i <= self.components@.len(),
                all@ == components_command_topics(self.components@.subrange(0, i as int)),
            decreases self.components@.len() - i,
        {
            let details = self.components[i].details();
            let ghost before = all@;
            let mut j: usize = 0;
            while j < details.command_topics.len()
                invariant
                    j <= details.command_topics@.len(),
                    all@ == before + details.command_topics@.subrange(0, j as int),
                decreases details.command_topics@.len() - j,
            {
                all.push(details.command_topics[j].clone());
                proof {
                    assert(details.command_topics@.subrange(0, j + 1) =~= details.command_topics@.subrange(0, j as int).push(details.command_topics@[j as int]));
                }
                j += 1;
            }
            proof {
                assert(details.command_topics@.subrange(0, j as int) =~= details.command_topics@);
                assert(self.components@.subrange(0, i + 1).drop_last() =~= self.components@.subrange(0, i as int));
            }
            i += 1;
        }
        proof {
            assert(self.components@.subrange(0, i as int) =~= self.components@);
        }
        all
    }

    /// The discovery document of this device: its identity, origin and
    /// availability topic, and each component's document under its id.
    pub fn json_for_discovery(&self) -> (r: Result<HaDeviceDiscovery, DevicesError>)
        ensures
            r matches Ok(doc) && doc.device == self.details && doc.origin == self.origin
                && doc.availability_topic@ == self.node_id@ + "/"@ + self.details.identifier@ + "/availability"@
                && ha_component_writes(doc.components@) == ha_components_view(self.components@, self.details.identifier@),
    {
        let mut components: Vec<(String, JsonObject)> = Vec::new();
        let mut i: usize = 0;
        while i < self.components.len()
            invariant
                i <= self.components@.len(),
                ha_component_writes(components@) == ha_components_view(self.components@.subrange(0, i as int), self.details.identifier@),
            decreases self.components@.len() - i,
        {
            let ghost before = components@;
            match self.components[i].json_for_discovery(Some(self)) {
                Ok(pair) => components.push(pair),
                Err(_) => {},
            }
            proof {
                assert(components@.drop_last() =~= before);
                assert(self.components@.subrange(0, i + 1).drop_last() =~= self.components@.subrange(0, i as int));
            }
            i += 1;
        }
        proof {
            assert(self.components@.subrange(0, i as int) =~= self.components@);
        }
        Ok(HaDeviceDiscovery {
            device: self.details.clone(),
            origin: self.origin.clone(),
            availability_topic: self.availability_topic(),
            components,
        })
    }
}

} // verus!
