use cmha::device::Device;
use cmha::entities::{Entity, Sensor};
use cmha::test_helpers::{create_device_details, create_device_origin};
use cmha::topic_map::TopicMap;
use cmha::update_engine::{filter_data, filter_devices_data, forget_topics_with_prefixes, merge_data, TimedUpdateEventProvider, UpdateEvent};

fn map(pairs: &[(&str, &str)]) -> TopicMap {
    TopicMap::from_pairs(pairs.iter().map(|(k, v)| (k.to_string(), v.to_string())).collect())
}

fn sorted(m: &TopicMap) -> Vec<(String, String)> {
    let mut e = m.entries();
    e.sort();
    e
}

fn owned(pairs: &[(&str, &str)]) -> Vec<(String, String)> {
    let mut v: Vec<(String, String)> = pairs.iter().map(|(k, v)| (k.to_string(), v.to_string())).collect();
    v.sort();
    v
}

#[test]
fn update_engine_test_publish_sensor_data_for_all_devices_skips_unchanged_data() {
    let mut last = TopicMap::new();
    let first = filter_devices_data(&vec![map(&[("dev1/test_name/state", "test_state")])], &mut last);
    assert_eq!(sorted(&first), owned(&[("dev1/test_name/state", "test_state")]));
    let second = filter_devices_data(&vec![map(&[("dev1/test_name/state", "test_state")])], &mut last);
    assert!(second.is_empty());
}

#[test]
fn filter_data_publishes_new_and_changed_payloads_only() {
    let mut last = map(&[("a", "1"), ("b", "2")]);
    let data = map(&[("a", "1"), ("b", "3"), ("c", "4")]);
    let published = filter_data(&data, &mut last);
    assert_eq!(sorted(&published), owned(&[("b", "3"), ("c", "4")]));
    assert_eq!(sorted(&last), owned(&[("a", "1"), ("b", "3"), ("c", "4")]));
    let again = filter_data(&data, &mut last);
    assert!(again.is_empty());
}

#[test]
fn merge_data_prefers_later_devices() {
    let merged = merge_data(&vec![map(&[("a", "1"), ("b", "1")]), map(&[("b", "2")])]);
    assert_eq!(sorted(&merged), owned(&[("a", "1"), ("b", "2")]));
}

#[test]
fn test_create_devices_created_and_removed_event_producer_purges_last_messages() {
    let mut device = Device::new(create_device_details(), create_device_origin(), "a".to_string(), "p".to_string());
    device.entities.push(Entity::Sensor(Sensor::new_simple("removed_device", "Test Device", "icon")));
    let mut last = map(&[("removed_device/test_device/state", "some_value"), ("other_device/test_device/state", "other_value")]);
    let events = TimedUpdateEventProvider::devices_change_events(vec![], vec![device], &mut last);
    assert_eq!(events.len(), 1);
    assert!(matches!(&events[0], UpdateEvent::DevicesRemoved(d) if d.len() == 1));
    assert!(last.get("removed_device/test_device/state").is_none());
    assert!(last.get("other_device/test_device/state").is_some());
}

#[test]
fn test_create_devices_created_and_removed_event_producer_adds_devices() {
    let mut last = TopicMap::new();
    let events = TimedUpdateEventProvider::devices_change_events(vec!["new_device".to_string()], vec![], &mut last);
    assert_eq!(events.len(), 1);
    assert!(matches!(&events[0], UpdateEvent::DevicesCreated(ids) if ids == &vec!["new_device".to_string()]));
}

#[test]
fn no_change_gives_no_event() {
    let mut last = map(&[("x", "1")]);
    let events = TimedUpdateEventProvider::devices_change_events(vec![], vec![], &mut last);
    assert!(events.is_empty());
    assert_eq!(last.len(), 1);
}

#[test]
fn forgetting_prefixes_keeps_other_topics() {
    let mut last = map(&[("dev/a/state", "1"), ("dev/b/state", "2"), ("other/a/state", "3")]);
    forget_topics_with_prefixes(&mut last, &vec!["dev/a".to_string()]);
    assert_eq!(sorted(&last), owned(&[("dev/b/state", "2"), ("other/a/state", "3")]));
}
