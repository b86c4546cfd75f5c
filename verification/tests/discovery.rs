use cmha::device::{Device, DeviceDiscovery};
use cmha::entities::{Button, ButtonDeviceClass, Entity, Light, Number, NumberMode, Sensor, Switch, Text, TextMode};
use cmha::entity_details::EntityDetails;
use cmha::json::{JsonField, JsonObject};
use cmha::test_helpers::{create_device_details, create_device_origin};
use serde_json::Value;

fn field_value(f: &JsonField) -> Value {
    match f {
        JsonField::Null => Value::Null,
        JsonField::Str(s) => Value::String(s.clone()),
        JsonField::Int(n) => Value::from(*n),
        JsonField::TopicList(topics) => Value::Array(
            topics
                .iter()
                .map(|t| {
                    let mut m = serde_json::Map::new();
                    m.insert("topic".to_string(), Value::String(t.clone()));
                    Value::Object(m)
                })
                .collect(),
        ),
    }
}

fn object_value(o: &JsonObject) -> Value {
    let mut m = serde_json::Map::new();
    for (k, v) in &o.entries {
        m.insert(k.clone(), field_value(v));
    }
    Value::Object(m)
}

fn obj(pairs: Vec<(&str, Value)>) -> Value {
    let mut m = serde_json::Map::new();
    for (k, v) in pairs {
        m.insert(k.to_string(), v);
    }
    Value::Object(m)
}

fn s(x: &str) -> Value {
    Value::String(x.to_string())
}

fn discovery_value(d: &DeviceDiscovery) -> Value {
    let mut device = vec![
        ("identifiers", Value::Array(vec![s(&d.device.identifier)])),
        ("name", s(&d.device.name)),
        ("manufacturer", s(&d.device.manufacturer)),
        ("sw_version", s(&d.device.sw_version)),
    ];
    if let Some(v) = &d.device.via_device {
        device.push(("via_device", s(v)));
    }
    let mut components = serde_json::Map::new();
    for (id, o) in &d.components {
        components.insert(id.clone(), object_value(o));
    }
    obj(vec![
        ("device", obj(device)),
        ("origin", obj(vec![("name", s(&d.origin.name)), ("sw", s(&d.origin.sw)), ("url", s(&d.origin.url))])),
        ("availability_topic", s(&d.availability_topic)),
        ("components", Value::Object(components)),
    ])
}

fn create_test_device_with_identifier(identifier: &str) -> Device {
    let mut details = create_device_details();
    details.identifier = identifier.to_string();
    Device::new(details, create_device_origin(), format!("{identifier}/availability"), "device_manager_1".to_string())
}

fn create_test_device() -> Device {
    Device::new(create_device_details(), create_device_origin(), "dev1/availability".to_string(), "device_manager_1".to_string())
}

#[test]
fn test_button_command_topic() {
    let button = Button::new("dev1".to_string(), "Test Button".to_string(), "mdi:button".to_string());
    assert_eq!(button.command_topic, "dev1/test_button/command");
    assert!(button.details.command_topics.contains(&"dev1/test_button/command".to_string()));
}

#[test]
fn test_button_json_for_discovery() {
    let device = create_test_device_with_identifier("test_device");
    let button = Button::new("test_device".to_string(), "Test Button".to_string(), "mdi:button".to_string());
    let json = object_value(&button.json_for_discovery(&device));
    let expected = obj(vec![
        ("command_topic", s("test_device/test_button/command")),
        ("device_class", Value::Null),
        ("icon", s("mdi:button")),
        ("name", s("Test Button")),
        ("platform", s("button")),
        ("state_topic", s("test_device/test_button/state")),
        ("unique_id", s("test_device_test_button")),
    ]);
    assert_eq!(json, expected);
}

#[test]
fn test_button_json_for_discovery_with_device_class() {
    let device = create_test_device_with_identifier("test_device");
    let button = Button::new("test_device".to_string(), "Outlet Button".to_string(), "mdi:power-socket".to_string())
        .with_device_class(ButtonDeviceClass::Identify);
    let json = object_value(&button.json_for_discovery(&device));
    let expected = obj(vec![
        ("command_topic", s("test_device/outlet_button/command")),
        ("device_class", s("identify")),
        ("icon", s("mdi:power-socket")),
        ("name", s("Outlet Button")),
        ("platform", s("button")),
        ("state_topic", s("test_device/outlet_button/state")),
        ("unique_id", s("test_device_outlet_button")),
    ]);
    assert_eq!(json, expected);
}

#[test]
fn test_button_json_for_discovery_can_be_made_unavailable() {
    let device = create_test_device_with_identifier("test_device");
    let button = Button::new("test_device".to_string(), "Test Button".to_string(), "mdi:button".to_string())
        .can_be_made_unavailable();
    let json = object_value(&button.json_for_discovery(&device));
    let expected = obj(vec![
        ("command_topic", s("test_device/test_button/command")),
        ("device_class", Value::Null),
        ("icon", s("mdi:button")),
        ("name", s("Test Button")),
        ("platform", s("button")),
        ("state_topic", s("test_device/test_button/state")),
        ("unique_id", s("test_device_test_button")),
        (
            "availability",
            Value::Array(vec![
                obj(vec![("topic", s("test_device/availability"))]),
                obj(vec![("topic", s("test_device/test_button/availability"))]),
            ]),
        ),
        ("availability_mode", s("all")),
    ]);
    assert_eq!(json, expected);
}

#[test]
fn test_switch_command_topic() {
    let switch = Switch::new("dev1".to_string(), "Test Switch".to_string(), "mdi:switch".to_string(), Some("switch".to_string()));
    assert_eq!(switch.command_topic, "dev1/test_switch/command");
    assert!(switch.details.command_topics.contains(&"dev1/test_switch/command".to_string()));
}

#[test]
fn test_switch_json_for_discovery() {
    let device = create_test_device_with_identifier("test_device");
    let switch = Switch::new("test_device".to_string(), "Test Switch".to_string(), "mdi:switch".to_string(), None);
    let json = object_value(&switch.json_for_discovery(&device));
    let expected = obj(vec![
        ("command_topic", s("test_device/test_switch/command")),
        ("device_class", Value::Null),
        ("icon", s("mdi:switch")),
        ("name", s("Test Switch")),
        ("payload_off", s("OFF")),
        ("payload_on", s("ON")),
        ("platform", s("switch")),
        ("state_topic", s("test_device/test_switch/state")),
        ("unique_id", s("test_device_test_switch")),
    ]);
    assert_eq!(json, expected);
}

#[test]
fn test_switch_json_for_discovery_with_device_class() {
    let device = create_test_device_with_identifier("test_device");
    let switch = Switch::new(
        "test_device".to_string(),
        "Outlet Switch".to_string(),
        "mdi:power-socket".to_string(),
        Some("outlet".to_string()),
    );
    let json = object_value(&switch.json_for_discovery(&device));
    let expected = obj(vec![
        ("command_topic", s("test_device/outlet_switch/command")),
        ("device_class", s("outlet")),
        ("icon", s("mdi:power-socket")),
        ("name", s("Outlet Switch")),
        ("payload_off", s("OFF")),
        ("payload_on", s("ON")),
        ("platform", s("switch")),
        ("state_topic", s("test_device/outlet_switch/state")),
        ("unique_id", s("test_device_outlet_switch")),
    ]);
    assert_eq!(json, expected);
}

#[test]
fn test_light_creation_basic() {
    let light = Light::new("dev1".to_string(), "Test light".to_string(), "mdi:x".to_string());
    assert_eq!(light.payload_on, "ON");
    assert_eq!(light.payload_off, "OFF");
    assert!(!light.supports_brightness);
    assert_eq!(light.brightness_scale, 255);
    assert_eq!(light.command_topic, "dev1/test_light/command");
}

#[test]
fn test_light_with_brightness() {
    let light = Light::new("dev1".to_string(), "Dimmable Light".to_string(), "mdi:lightbulb".to_string()).support_brightness(100);
    assert!(light.supports_brightness);
    assert_eq!(light.brightness_scale, 100);
    assert_eq!(light.brightness_command_topic.unwrap(), "dev1/dimmable_light_brightness/command");
}

#[test]
fn test_light_support_brightness_chaining() {
    let light = Light::new("dev1".to_string(), "Dimmable Light".to_string(), "mdi:lightbulb".to_string()).support_brightness(200);
    assert!(light.supports_brightness);
    assert_eq!(light.brightness_scale, 200);
    assert_eq!(light.brightness_command_topic.clone().unwrap(), "dev1/dimmable_light_brightness/command");
    assert!(light.details.command_topics.contains(&"dev1/dimmable_light/command".to_string()));
    assert!(light.details.command_topics.contains(&"dev1/dimmable_light_brightness/command".to_string()));
}

#[test]
fn test_light_json_for_discovery_without_brightness() {
    let device = create_test_device_with_identifier("test_device");
    let light = Light::new("test_device".to_string(), "Simple Light".to_string(), "mdi:lightbulb".to_string());
    let json = object_value(&light.json_for_discovery(&device));
    let expected = obj(vec![
        ("brightness_command_topic", Value::Null),
        ("brightness_scale", Value::from(255)),
        ("brightness_state_topic", Value::Null),
        ("command_topic", s("test_device/simple_light/command")),
        ("icon", s("mdi:lightbulb")),
        ("name", s("Simple Light")),
        ("payload_off", s("OFF")),
        ("payload_on", s("ON")),
        ("platform", s("light")),
        ("state_topic", s("test_device/simple_light/state")),
        ("unique_id", s("test_device_simple_light")),
    ]);
    assert_eq!(json, expected);
}

#[test]
fn test_light_json_for_discovery_with_brightness() {
    let device = create_test_device_with_identifier("test_device");
    let light = Light::new("test_device".to_string(), "Dimmable Light".to_string(), "mdi:lightbulb".to_string()).support_brightness(100);
    let json = object_value(&light.json_for_discovery(&device));
    let expected = obj(vec![
        ("brightness_command_topic", s("test_device/dimmable_light_brightness/command")),
        ("brightness_scale", Value::from(100)),
        ("brightness_state_topic", s("test_device/dimmable_light_brightness/state")),
        ("command_topic", s("test_device/dimmable_light/command")),
        ("icon", s("mdi:lightbulb")),
        ("name", s("Dimmable Light")),
        ("payload_off", s("OFF")),
        ("payload_on", s("ON")),
        ("platform", s("light")),
        ("state_topic", s("test_device/dimmable_light/state")),
        ("unique_id", s("test_device_dimmable_light")),
    ]);
    assert_eq!(json, expected);
}

#[test]
fn test_light_brightness_scale_edge_cases() {
    let light = Light::new("dev1", "Light", "mdi:x").support_brightness(0);
    assert_eq!(light.brightness_scale, 0);
    let light = Light::new("dev1", "Light", "mdi:x").support_brightness(255);
    assert_eq!(light.brightness_scale, 255);
}

#[test]
fn test_sensor_json_for_discovery() {
    let device = create_test_device();
    let sensor = Sensor::new("test_device", "Temperature", "mdi:thermometer", "°C", "temperature");
    let json = object_value(&sensor.json_for_discovery(&device));
    let expected = obj(vec![
        ("device_class", s("temperature")),
        ("icon", s("mdi:thermometer")),
        ("name", s("Temperature")),
        ("platform", s("sensor")),
        ("state_topic", s("test_device/temperature/state")),
        ("unique_id", s("test_device_temperature")),
        ("unit_of_measurement", s("°C")),
    ]);
    assert_eq!(json, expected);
}

#[test]
fn test_sensor_json_for_discovery_without_device_class_and_unit() {
    let device = create_test_device_with_identifier("test_device");
    let sensor = Sensor::new_simple("test_device".to_string(), "Generic Sensor".to_string(), "mdi:sensor".to_string());
    let json = object_value(&sensor.json_for_discovery(&device));
    let expected = obj(vec![
        ("icon", s("mdi:sensor")),
        ("name", s("Generic Sensor")),
        ("platform", s("sensor")),
        ("state_topic", s("test_device/generic_sensor/state")),
        ("unique_id", s("test_device_generic_sensor")),
        ("device_class", Value::Null),
        ("unit_of_measurement", Value::Null),
    ]);
    assert_eq!(json, expected);
}

#[test]
fn test_sensor_json_for_discovery_with_attributes() {
    let device = create_test_device_with_identifier("test_device");
    let details = EntityDetails::new("test_device".to_string(), "Sensor with Attributes".to_string(), "mdi:sensor".to_string())
        .has_attributes();
    let sensor = Sensor::new_with_details(details, Some("units".to_string()), Some("some_device_class".to_string()));
    let json = object_value(&sensor.json_for_discovery(&device));
    let expected = obj(vec![
        ("icon", s("mdi:sensor")),
        ("json_attributes_template", s("{{ value_json | tojson }}")),
        ("json_attributes_topic", s("test_device/sensor_with_attributes_attributes/state")),
        ("name", s("Sensor with Attributes")),
        ("platform", s("sensor")),
        ("state_topic", s("test_device/sensor_with_attributes/state")),
        ("unique_id", s("test_device_sensor_with_attributes")),
        ("unit_of_measurement", s("units")),
        ("device_class", s("some_device_class")),
    ]);
    assert_eq!(json, expected);
}

#[test]
fn test_number_auto() {
    let number = Number::new("dev1".to_string(), "Some number".to_string(), "mdi:x".to_string());
    assert_eq!(number.mode, NumberMode::Auto);
}

#[test]
fn test_number_slider() {
    let number = Number::new("dev1".to_string(), "Some number".to_string(), "mdi:x".to_string()).with_mode_slider();
    assert_eq!(number.mode, NumberMode::Slider);
}

#[test]
fn test_number_box() {
    let number = Number::new("dev1".to_string(), "Some number".to_string(), "mdi:x".to_string()).with_mode_box();
    assert_eq!(number.mode, NumberMode::Box);
}

#[test]
fn test_number_json_for_discovery() {
    let device = create_test_device();
    let number = Number::new("dev1".to_string(), "Some number".to_string(), "mdi:x".to_string());
    let json = object_value(&number.json_for_discovery(&device));
    let expected = obj(vec![
        ("command_topic", s("dev1/some_number/command")),
        ("icon", s("mdi:x")),
        ("mode", s("auto")),
        ("name", s("Some number")),
        ("platform", s("number")),
        ("state_topic", s("dev1/some_number/state")),
        ("unique_id", s("test_device_some_number")),
    ]);
    assert_eq!(json, expected);
}

#[test]
fn test_text_plain() {
    let text = Text::new("dev1".to_string(), "Some text".to_string(), "mdi:x".to_string());
    assert_eq!(text.mode, TextMode::Text);
}

#[test]
fn test_text_password() {
    let text = Text::new("dev1".to_string(), "Some text".to_string(), "mdi:x".to_string()).with_password();
    assert_eq!(text.mode, TextMode::Password);
}

#[test]
fn test_text_json_for_discovery() {
    let device = create_test_device();
    let text = Text::new("dev1".to_string(), "Some text".to_string(), "mdi:x".to_string());
    let json = object_value(&text.json_for_discovery(&device));
    let expected = obj(vec![
        ("command_topic", s("dev1/some_text/command")),
        ("icon", s("mdi:x")),
        ("mode", s("text")),
        ("name", s("Some text")),
        ("platform", s("text")),
        ("state_topic", s("dev1/some_text/state")),
        ("unique_id", s("test_device_some_text")),
    ]);
    assert_eq!(json, expected);
}

#[test]
fn test_device_json_for_discovery_empty_entities() {
    let device = create_test_device();
    let json = discovery_value(&device.json_for_discovery());
    let expected = obj(vec![
        (
            "device",
            obj(vec![
                ("identifiers", Value::Array(vec![s("test_device")])),
                ("name", s("Test Device")),
                ("manufacturer", s("Test Mfg")),
                ("sw_version", s("1.0.0")),
            ]),
        ),
        ("origin", obj(vec![("name", s("test-origin")), ("sw", s("1.0.0")), ("url", s("http://example.com"))])),
        ("availability_topic", s("dev1/availability")),
        ("components", obj(vec![])),
    ]);
    assert_eq!(json, expected);
}

#[test]
fn test_device_json_for_discovery() {
    let mut device = create_test_device();
    device.entities.push(Entity::Sensor(Sensor::new_simple("dev1", "Test Name", "testicon")));
    let json = discovery_value(&device.json_for_discovery());
    let expected = obj(vec![
        (
            "device",
            obj(vec![
                ("identifiers", Value::Array(vec![s("test_device")])),
                ("name", s("Test Device")),
                ("manufacturer", s("Test Mfg")),
                ("sw_version", s("1.0.0")),
            ]),
        ),
        ("origin", obj(vec![("name", s("test-origin")), ("sw", s("1.0.0")), ("url", s("http://example.com"))])),
        ("availability_topic", s("dev1/availability")),
        (
            "components",
            obj(vec![(
                "test_name",
                obj(vec![
                    ("name", s("Test Name")),
                    ("unique_id", s("test_device_test_name")),
                    ("state_topic", s("dev1/test_name/state")),
                    ("icon", s("testicon")),
                    ("device_class", Value::Null),
                    ("platform", s("sensor")),
                    ("unit_of_measurement", Value::Null),
                ]),
            )]),
        ),
    ]);
    assert_eq!(json, expected);
}
