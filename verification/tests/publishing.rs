use cmha::device::Device;
use cmha::devices::Devices;
use cmha::entities::{Entity, Switch};
use cmha::publishing::{created_devices_discovery, removal_messages, subscription_topics};
use cmha::test_helpers::{create_device_details, create_device_origin};

fn device(identifier: &str) -> Device {
    let mut details = create_device_details();
    details.identifier = identifier.to_string();
    Device::new(details, create_device_origin(), "dev1/availability".to_string(), "p".to_string())
}

#[test]
fn test_subscribe_to_commands() {
    let mut d = device("dev1");
    d.entities.push(Entity::Switch(Switch::new("dev1", "Test Switch", "mdi:switch", None)));
    let devices = Devices::new_from_single_device(d);
    assert_eq!(
        subscription_topics(&devices, "homeassistant"),
        vec!["homeassistant/status".to_string(), "dev1/test_switch/command".to_string()]
    );
}

#[test]
fn test_remove_entities() {
    let removed = vec![device("a"), device("b")];
    assert_eq!(
        removal_messages(&removed, "homeassistant"),
        vec![
            ("homeassistant/device/a/config".to_string(), String::new()),
            ("homeassistant/device/b/config".to_string(), String::new()),
        ]
    );
}

#[test]
fn test_publish_entities_discovery() {
    let devices = Devices::new_from_many_devices(vec![device("a"), device("b")]);
    let created = created_devices_discovery(&devices, &vec!["b".to_string(), "unknown".to_string()], "homeassistant");
    assert_eq!(created.len(), 1);
    assert_eq!(created[0].0, "homeassistant/device/b/config");
    assert_eq!(created[0].1.device.identifier, "b");
}
