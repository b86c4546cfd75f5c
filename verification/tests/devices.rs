use cmha::device::Device;
use cmha::devices::Devices;
use cmha::entities::{Entity, Sensor};
use cmha::entity_details::EntityDetails;
use cmha::handlers::{ContainerAction, DataHandler, HandlerOutcome};
use cmha::test_helpers::{create_device_details, create_device_origin};

fn create_test_device() -> Device {
    Device::new(create_device_details(), create_device_origin(), "dev1/availability".to_string(), "device_manager_1".to_string())
}

fn make_device_with_identifier(identifier: &str) -> Device {
    let mut details = create_device_details();
    details.identifier = identifier.to_string();
    Device::new(details, create_device_origin(), format!("{identifier}/availability"), "device_manager_1".to_string())
}

fn entity_with_commands(name: &str, commands: &[&str]) -> Entity {
    let mut details = EntityDetails::new("dev1".to_string(), name.to_string(), "mdi:switch".to_string());
    for c in commands {
        details = details.add_command(c.to_string());
    }
    Entity::Sensor(Sensor::new_with_details(details, None, None))
}

fn toggle(state_topic: &str, command_topic: &str) -> DataHandler {
    DataHandler::SampleToggle {
        state_topic: state_topic.to_string(),
        command_topic: command_topic.to_string(),
        is_random: false,
        is_on: false,
    }
}

#[test]
fn test_device_command_topics_without_entities_is_empty() {
    let device = create_test_device();
    let topics = device.command_topics();
    assert_eq!(topics.len(), 0);
}

#[test]
fn test_device_command_topics_has_topic_when_has_entity() {
    let mut device = create_test_device();
    device.entities.push(entity_with_commands("Test Switch", &["dev1/test_switch/command"]));
    let topics = device.command_topics();
    assert_eq!(topics.len(), 1);
    assert_eq!(topics[0], "dev1/test_switch/command");
}

#[test]
fn test_device_command_topics_multiple_entities() {
    let mut device = create_test_device();
    device.entities.push(entity_with_commands("Switch 1", &["dev1/switch1/command"]));
    device
        .entities
        .push(entity_with_commands("Switch 2", &["dev1/switch2/command", "dev1/switch2_brightness/command"]));
    let topics = device.command_topics();
    assert_eq!(topics.len(), 3);
    assert!(topics.contains(&"dev1/switch1/command".to_string()));
    assert!(topics.contains(&"dev1/switch2/command".to_string()));
    assert!(topics.contains(&"dev1/switch2_brightness/command".to_string()));
}

#[test]
fn test_device_availability_topic() {
    let device = create_test_device();
    assert_eq!(device.availability_topic(), "dev1/availability");
}

#[test]
fn test_device_discovery_topic() {
    let device = create_test_device();
    assert_eq!(device.discovery_topic("homeassistant"), "homeassistant/device/test_device/config");
}

#[test]
fn test_device_discovery_topic_different_prefixes() {
    let device = Device::new(create_device_details(), create_device_origin(), "test_device/availability".to_string(), "x".to_string());
    assert_eq!(device.discovery_topic("homeassistant"), "homeassistant/device/test_device/config");
    assert_eq!(device.discovery_topic("custom"), "custom/device/test_device/config");
    assert_eq!(device.discovery_topic(""), "/device/test_device/config");
}

#[test]
fn test_device_handle_command_no_handlers() {
    let mut device = create_test_device();
    let result = device.handle_command("unknown/topic", "payload");
    assert!(matches!(result, HandlerOutcome::NotHandled));
}

#[test]
fn test_device_handle_command_with_handler() {
    let mut device = create_test_device();
    device.data_handlers.push(toggle("test/state", "test/topic"));
    match device.handle_command("test/topic", "ON") {
        HandlerOutcome::Handled(Some(states)) => {
            assert_eq!(states.len(), 1);
            assert_eq!(states.get("test/state"), Some("ON".to_string()));
        }
        _ => panic!("the toggle should have handled the command"),
    }
    assert_eq!(
        device.data_handlers[0],
        DataHandler::SampleToggle {
            state_topic: "test/state".to_string(),
            command_topic: "test/topic".to_string(),
            is_random: false,
            is_on: true,
        }
    );
}

#[test]
fn device_handle_command_goes_to_the_first_handler_of_the_topic() {
    let mut device = create_test_device();
    device.data_handlers.push(toggle("first/state", "shared/command"));
    device.data_handlers.push(toggle("second/state", "shared/command"));
    match device.handle_command("shared/command", "OFF") {
        HandlerOutcome::Handled(Some(states)) => {
            assert_eq!(states.get("first/state"), Some("OFF".to_string()));
            assert_eq!(states.get("second/state"), None);
        }
        _ => panic!("expected the first toggle to handle the command"),
    }
}

#[test]
fn device_logs_button_asks_for_the_logs() {
    let mut device = create_test_device();
    device.data_handlers.push(DataHandler::ContainerLogs {
        state_topic: "c/logs/state".to_string(),
        container_name: "c".to_string(),
        should_get_logs: false,
    });
    device.data_handlers.push(DataHandler::GetLogsButton { command_topic: "c/get_logs/command".to_string() });
    assert!(matches!(device.handle_command("c/get_logs/command", ""), HandlerOutcome::Handled(None)));
    assert!(device.data_handlers[0].take_logs_request());
    assert!(!device.data_handlers[0].take_logs_request());
}

#[test]
fn device_container_button_asks_the_engine() {
    let mut device = create_test_device();
    device.data_handlers.push(DataHandler::ContainerButton {
        command_topic: "c/stop/command".to_string(),
        container_name: "my-container".to_string(),
        action: ContainerAction::Stop,
    });
    match device.handle_command("c/stop/command", "PRESS") {
        HandlerOutcome::Container(action, name) => {
            assert_eq!(action, ContainerAction::Stop);
            assert_eq!(name, "my-container");
        }
        _ => panic!("expected a container action"),
    }
}

#[test]
fn test_new_from_many_devices() {
    let devices = Devices::new_from_many_devices(vec![make_device_with_identifier("device1"), make_device_with_identifier("device2")]);
    assert_eq!(devices.len(), 2);
    assert!(devices.get("device1").is_some());
    assert!(devices.get("device2").is_some());
}

#[test]
fn test_new_from_single_device() {
    let devices = Devices::new_from_single_device(make_device_with_identifier("device1"));
    assert_eq!(devices.len(), 1);
    assert!(devices.get("device1").is_some());
}

#[test]
fn test_identifiers() {
    let devices = Devices::new_from_many_devices(vec![make_device_with_identifier("device1"), make_device_with_identifier("device2")]);
    let identifiers = devices.identifiers();
    assert_eq!(identifiers.len(), 2);
    assert!(identifiers.contains(&"device1".to_string()));
    assert!(identifiers.contains(&"device2".to_string()));
}

#[test]
fn test_into_vec() {
    let devices = Devices::new_from_many_devices(vec![make_device_with_identifier("device1"), make_device_with_identifier("device2")]);
    let vec_devices = devices.into_vec();
    assert_eq!(vec_devices.len(), 2);
    assert!(vec_devices.iter().any(|d| d.details.identifier == "device1"));
    assert!(vec_devices.iter().any(|d| d.details.identifier == "device2"));
}

#[test]
fn test_discovery_topics() {
    let devices = Devices::new_from_single_device(make_device_with_identifier("device1"));
    let topics = devices.discovery_topics("homeassistant");
    assert_eq!(topics.len(), 1);
    assert!(topics[0].contains("device1"));
}

#[test]
fn test_command_topics() {
    let mut device = make_device_with_identifier("device1");
    device.entities.push(entity_with_commands("Test Name", &["dev1/test_name/command"]));
    let devices = Devices::new_from_single_device(device);
    let topics = devices.command_topics();
    assert!(!topics.is_empty());
}

#[test]
fn test_create_discovery_info() {
    let mut device = make_device_with_identifier("device1");
    device.entities.push(entity_with_commands("Test", &[]));
    let devices = Devices::new_from_single_device(device);
    let info = devices.create_discovery_info("homeassistant");
    assert_eq!(info.len(), 1);
    assert_eq!(info[0].0, "homeassistant/device/device1/config");
    assert_eq!(info[0].1.device.identifier, "device1");
    assert_eq!(info[0].1.components.len(), 1);
    assert_eq!(info[0].1.components[0].0, "test");
}

#[test]
fn test_handle_command() {
    let mut device = make_device_with_identifier("device1");
    device.data_handlers.push(toggle("state_topic", "device1/test_name/command"));
    let mut devices = Devices::new_from_single_device(device);
    match devices.handle_command("device1/test_name/command", "ON") {
        HandlerOutcome::Handled(Some(states)) => {
            assert_eq!(states.len(), 1);
            assert_eq!(states.get("state_topic").unwrap(), "ON");
        }
        _ => panic!("expected the command to be handled"),
    }
    assert!(matches!(devices.handle_command("unknown/topic", "ON"), HandlerOutcome::NotHandled));
}

#[test]
fn test_add_devices() {
    let mut devices = Devices::new_from_single_device(make_device_with_identifier("device1"));
    devices.add_devices(vec![make_device_with_identifier("device2")]);
    assert_eq!(devices.len(), 2);
    assert!(devices.get("device1").is_some());
    assert!(devices.get("device2").is_some());
}

#[test]
fn test_remove_devices() {
    let mut devices =
        Devices::new_from_many_devices(vec![make_device_with_identifier("device1"), make_device_with_identifier("device2")]);
    let removed = devices.remove_devices(&vec!["device1".to_string()]);
    assert_eq!(removed.len(), 1);
    assert_eq!(removed[0].details.identifier, "device1");
    assert_eq!(devices.len(), 1);
    assert!(devices.get("device1").is_none());
    assert!(devices.get("device2").is_some());
}

#[test]
fn a_later_device_with_the_same_identifier_replaces_an_earlier_one() {
    let mut first = make_device_with_identifier("same");
    first.details.name = "First".to_string();
    let mut second = make_device_with_identifier("same");
    second.details.name = "Second".to_string();
    let devices = Devices::new_from_many_devices(vec![first, second]);
    assert_eq!(devices.len(), 1);
    assert_eq!(devices.get("same").unwrap().details.name, "Second");
}

#[test]
fn removing_an_unknown_identifier_changes_nothing() {
    let mut devices = Devices::new_from_single_device(make_device_with_identifier("device1"));
    let removed = devices.remove_devices(&vec!["nothing".to_string()]);
    assert!(removed.is_empty());
    assert_eq!(devices.len(), 1);
}
