use cmha::entities::{Button, Light, Number, Sensor, Switch, Text};
use cmha::entity_details::{EntityDetails, EntityDetailsGetter};

fn create_test_entity_details() -> EntityDetails {
    EntityDetails::new("dev1".to_string(), "Test Entity".to_string(), "mdi:test".to_string())
}

#[test]
fn test_entity_details_has_attributes() {
    let details = create_test_entity_details().has_attributes();
    assert!(details.has_attributes);
}

#[test]
fn test_entity_details_add_multiple_commands() {
    let details = create_test_entity_details()
        .add_command("command1".to_string())
        .add_command("command2".to_string());
    assert_eq!(details.command_topics.len(), 2);
    assert_eq!(details.command_topics[0], "command1");
    assert_eq!(details.command_topics[1], "command2");
}

#[test]
fn test_entity_details_get_topic_path() {
    let details = create_test_entity_details();
    assert_eq!(details.get_topic_path(None), "dev1/test_entity");
    assert_eq!(details.get_topic_path(Some("brightness")), "dev1/test_entity_brightness");
}

#[test]
fn test_entity_details_get_topic_for_command() {
    let details = create_test_entity_details();
    assert_eq!(details.get_topic_for_command(None), "dev1/test_entity/command");
    assert_eq!(details.get_topic_for_command(Some("brightness")), "dev1/test_entity_brightness/command");
}

#[test]
fn test_entity_details_add_command() {
    let details = EntityDetails::new("dev1".to_string(), "Test Switch".to_string(), "mdi:switch".to_string())
        .add_command("dev1/test_switch/command".to_string());
    assert_eq!(details.command_topics.len(), 1);
    assert_eq!(details.command_topics[0], "dev1/test_switch/command");
}

#[test]
fn test_entity_details_get_topics_for_state() {
    let details = EntityDetails::new("dev1".to_string(), "Test Sensor".to_string(), "mdi:test".to_string());
    assert_eq!(details.get_topic_for_state(None), "dev1/test_sensor/state");
    assert_eq!(details.get_topic_for_state(Some("brightness")), "dev1/test_sensor_brightness/state");
}

#[test]
fn test_entity_details_with_special_characters() {
    let details = EntityDetails::new(
        "device_with_underscores".to_string(),
        "Entity with Spaces & Special!".to_string(),
        "mdi:special-icon".to_string(),
    );
    assert_eq!(details.device_identifier, "device_with_underscores");
    assert_eq!(details.id, "entity_with_spaces_special");
    assert_eq!(details.name, "Entity with Spaces & Special!");
    assert_eq!(details.icon, Some("mdi:special-icon".to_string()));
}

#[test]
fn macro_test_it_works() {
    let mut details = EntityDetails::new_without_icon("dev1", "Switch 1");
    details.id = "switch_1".to_string();
    let switch = Switch::new_with_details(details, None);
    assert_eq!(switch.details().id, "switch_1".to_string());
}

#[test]
fn entity_details_without_icon_and_set_icon() {
    let details = EntityDetails::new_without_icon("dev1", "Status");
    assert_eq!(details.icon, None);
    assert_eq!(details.id, "status");
    let details = details.set_icon("mdi:x");
    assert_eq!(details.icon, Some("mdi:x".to_string()));
}

#[test]
fn entity_details_availability_topic() {
    let details = create_test_entity_details();
    assert_eq!(details.get_topic_for_availability(None), "dev1/test_entity/availability");
    assert_eq!(details.get_topic_for_availability(Some("x")), "dev1/test_entity_x/availability");
}

#[test]
fn entity_constructors_identify_an_entity_by_the_slug_of_its_name() {
    let button = Button::new("dev1", "Test Button", "mdi:button");
    assert_eq!(button.details.id, "test_button");
    assert_eq!(button.command_topic, "dev1/test_button/command");
    let light = Light::new("dev1", "Dimmable Light", "mdi:lightbulb").support_brightness(200);
    assert_eq!(light.details.id, "dimmable_light");
    assert_eq!(light.brightness_command_topic, Some("dev1/dimmable_light_brightness/command".to_string()));
    assert_eq!(Number::new("dev1", "Some number", "mdi:x").command_topic, "dev1/some_number/command");
    assert_eq!(Text::new("dev1", "Some text", "mdi:x").command_topic, "dev1/some_text/command");
    assert_eq!(Sensor::new("test_device", "Temperature", "mdi:t", "C", "temperature").details.id, "temperature");
    assert_eq!(Sensor::new_simple("d", "Used CPUs", "mdi:chip").details.id, "used_cpus");
    assert_eq!(Switch::new("dev1", "Test Switch", "mdi:switch", None).command_topic, "dev1/test_switch/command");
}
