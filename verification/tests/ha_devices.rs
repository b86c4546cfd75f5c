use cmha::ha_devices::{
    Component, ComponentDetails, ComponentDetailsGetter, Device, DeviceDetails, DeviceOrigin, DevicesError, EntityData,
    Light, Sensor, Switch,
};
use cmha::json::JsonField;

fn details(name: &str) -> ComponentDetails {
    ComponentDetails::new("mqtt-docker".to_string(), "test-device".to_string(), name.to_string(), "mdi:x".to_string())
}

fn device(components: Vec<Component>) -> Device {
    Device {
        node_id: "mqtt-docker".to_string(),
        details: DeviceDetails {
            name: "Test Device".to_string(),
            identifier: "test-device".to_string(),
            manufacturer: "Giovanni Bassi".to_string(),
            sw_version: "0.1.0".to_string(),
        },
        origin: DeviceOrigin { name: "docker-status-mqtt".to_string(), sw: "0.1.0".to_string(), url: "u".to_string() },
        components,
    }
}

fn field<'a>(entries: &'a [(String, JsonField)], key: &str) -> Option<&'a JsonField> {
    entries.iter().rev().find(|(k, _)| k == key).map(|(_, v)| v)
}

#[test]
fn component_ids_keep_dashes() {
    let d = details("Memory Usage");
    assert_eq!(d.id, "memory-usage");
    assert_eq!(d.get_topic_path(None), "mqtt-docker/test-device/memory-usage");
    assert_eq!(d.get_topic_for_state(None), "mqtt-docker/test-device/memory-usage/state");
    assert_eq!(d.get_topic_for_state(Some("attributes")), "mqtt-docker/test-device/memory-usage_attributes/state");
    assert_eq!(d.get_topic_for_command(Some("brightness")), "mqtt-docker/test-device/memory-usage_brightness/command");
}

#[test]
fn component_details_builders() {
    let d = details("X").has_attributes().add_command("c1".to_string()).add_command("c2".to_string());
    assert!(d.has_attributes);
    assert_eq!(d.command_topics, vec!["c1".to_string(), "c2".to_string()]);
}

#[test]
fn component_json_needs_its_device() {
    let sensor = Component::Sensor(Sensor::new_with_details(details("Uptime"), "s".to_string(), Some("duration".to_string())));
    assert_eq!(sensor.json_for_discovery(None).unwrap_err(), DevicesError::MissingDevice);
    assert_eq!(details("Uptime").to_json(None).unwrap_err(), DevicesError::MissingDevice);
}

#[test]
fn sensor_json_for_discovery() {
    let d = device(vec![]);
    let sensor = Component::Sensor(Sensor::new_with_details(details("Memory Usage").has_attributes(), "MB".to_string(), Some("data_size".to_string())));
    let (id, json) = sensor.json_for_discovery(Some(&d)).unwrap();
    assert_eq!(id, "memory-usage");
    let e = &json.entries;
    assert_eq!(field(e, "unique_id"), Some(&JsonField::Str("test-device_memory-usage".to_string())));
    assert_eq!(field(e, "state_topic"), Some(&JsonField::Str("mqtt-docker/test-device/memory-usage/state".to_string())));
    assert_eq!(field(e, "json_attributes_topic"), Some(&JsonField::Str("mqtt-docker/test-device/memory-usage_attributes/state".to_string())));
    assert_eq!(field(e, "platform"), Some(&JsonField::Str("sensor".to_string())));
    assert_eq!(field(e, "unit_of_measurement"), Some(&JsonField::Str("MB".to_string())));
    assert_eq!(field(e, "device_class"), Some(&JsonField::Str("data_size".to_string())));
}

#[test]
fn switch_and_light_have_command_topics() {
    let switch = Switch::new_with_details(details("Server Mode"), None);
    assert_eq!(switch.command_topic, "mqtt-docker/test-device/server-mode/command");
    let light = Light::new_with_details(details("Living Room Light")).support_brightness(100);
    assert_eq!(light.brightness_command_topic.as_deref(), Some("mqtt-docker/test-device/living-room-light_brightness/command"));
    let d = device(vec![Component::Switch(switch), Component::Light(light)]);
    assert_eq!(
        d.command_topics(),
        vec![
            "mqtt-docker/test-device/server-mode/command".to_string(),
            "mqtt-docker/test-device/living-room-light/command".to_string(),
            "mqtt-docker/test-device/living-room-light_brightness/command".to_string(),
        ]
    );
    let (_, json) = d.components[1].json_for_discovery(Some(&d)).unwrap();
    assert_eq!(field(&json.entries, "brightness_scale"), Some(&JsonField::Int(100)));
    assert_eq!(field(&json.entries, "brightness_state_topic"), Some(&JsonField::Str("mqtt-docker/test-device/living-room-light_brightness/state".to_string())));
}

#[test]
fn device_topics() {
    let d = device(vec![]);
    assert_eq!(d.availability_topic(), "mqtt-docker/test-device/availability");
    assert_eq!(d.discovery_topic("homeassistant"), "homeassistant/device/mqtt-docker/config");
    let doc = d.json_for_discovery().unwrap();
    assert_eq!(doc.availability_topic, "mqtt-docker/test-device/availability");
    assert!(doc.components.is_empty());
}

#[test]
fn device_json_has_each_component_under_its_id() {
    let d = device(vec![
        Component::Sensor(Sensor::new("mqtt-docker".to_string(), "test-device".to_string(), "System Uptime".to_string(), "mdi:clock-outline".to_string(), "s".to_string(), Some("duration".to_string()))),
        Component::Switch(Switch::new("mqtt-docker".to_string(), "test-device".to_string(), "Server Mode".to_string(), "mdi:server".to_string(), None)),
    ]);
    let doc = d.json_for_discovery().unwrap();
    let ids: Vec<&str> = doc.components.iter().map(|(id, _)| id.as_str()).collect();
    assert_eq!(ids, vec!["system-uptime", "server-mode"]);
    assert_eq!(d.components[0].details().name, "System Uptime");
}

#[test]
fn entity_data_compares_topic_and_payload() {
    let a = EntityData { topic: "t".to_string(), payload: "p".to_string() };
    assert_eq!(a.clone(), EntityData { topic: "t".to_string(), payload: "p".to_string() });
}
