use cmha::container_data::{
    can_cut_at_bytes, cut_to_bytes, disk_free_data, host_version_data, image_data, logs_data, network_info_data,
    stats_data, stopped_stats_data, usage_attributes, usage_fits, used_memory_text, ContainerDataError, DiskFreeTopics,
    DiskUsage,
};
use cmha::docker::{
    container_identifier, container_status_data, is_active_state, join_lines, missing_device_ids, network_names,
    new_container_indices, tally, to_kib, trim_container_name, usage_report, ContainerStateInfo, ContainerStatusTopics,
    ContainerSummaryState, UsageReport,
};
use serde_json::Value;

fn disk_topics() -> DiskFreeTopics {
    DiskFreeTopics {
        images_state_topic: "images/state".to_string(),
        images_attributes_state_topic: "images_attributes/state".to_string(),
        volumes_state_topic: "volumes/state".to_string(),
        volumes_attributes_state_topic: "volumes_attributes/state".to_string(),
        build_cache_state_topic: "build_cache/state".to_string(),
        build_cache_attributes_state_topic: "build_cache_attributes/state".to_string(),
        number_of_containers_state_topic: "containers/state".to_string(),
        number_of_containers_attributes_state_topic: "containers_attributes/state".to_string(),
    }
}

fn status_topics() -> ContainerStatusTopics {
    ContainerStatusTopics {
        state_topic: "status/state".to_string(),
        health_topic: "health/state".to_string(),
        start_button_availability_topic: "start/avail".to_string(),
        restart_button_availability_topic: "restart/avail".to_string(),
        stop_button_availability_topic: "stop/avail".to_string(),
    }
}

fn parse(text: &str) -> Value {
    serde_json::from_str(text).unwrap()
}

#[test]
fn test_disk_free_get_entity_data_success() {
    let usage = DiskUsage {
        images: vec![Some((1024 * 1024, true)), Some((2048 * 1024, false))],
        volumes: vec![Some((4096 * 1024, true)), Some((8192 * 1024, false))],
        build_caches: vec![Some((16384 * 1024, true)), Some((32768 * 1024, false))],
        containers: vec![
            Some((65536 * 1024, is_active_state(Some(ContainerSummaryState::Running)))),
            Some((131072 * 1024, is_active_state(Some(ContainerSummaryState::Exited)))),
        ],
    };
    let data = disk_free_data(&disk_topics(), &Some(usage));
    assert_eq!(data.len(), 8);
    assert_eq!(data.get("images/state").unwrap(), "2");
    let images_attrs = parse(&data.get("images_attributes/state").unwrap());
    assert_eq!(images_attrs["images_active"], 1);
    assert_eq!(images_attrs["images_size_kib"], 3072 * 1024 / 1024);
    assert_eq!(images_attrs["images_reclaimable_kib"], 2048 * 1024 / 1024);
    assert_eq!(data.get("volumes/state").unwrap(), "2");
    let volumes_attrs = parse(&data.get("volumes_attributes/state").unwrap());
    assert_eq!(volumes_attrs["volumes_active"], 1);
    assert_eq!(volumes_attrs["volumes_size_kib"], 12288 * 1024 / 1024);
    assert_eq!(volumes_attrs["volumes_reclaimable_kib"], 8192 * 1024 / 1024);
    assert_eq!(data.get("build_cache/state").unwrap(), "2");
    let build_cache_attrs = parse(&data.get("build_cache_attributes/state").unwrap());
    assert_eq!(build_cache_attrs["build_caches_active"], 1);
    assert_eq!(build_cache_attrs["build_caches_size_kib"], 49152 * 1024 / 1024);
    assert_eq!(build_cache_attrs["build_caches_reclaimable_kib"], 32768 * 1024 / 1024);
    assert_eq!(data.get("containers/state").unwrap(), "2");
    let containers_attrs = parse(&data.get("containers_attributes/state").unwrap());
    assert_eq!(containers_attrs["containers_active"], 1);
    assert_eq!(containers_attrs["containers_size_kib"], 196608 * 1024 / 1024);
    assert_eq!(containers_attrs["containers_reclaimable_kib"], 131072 * 1024 / 1024);
}

#[test]
fn test_disk_free_get_entity_data_empty() {
    let data = disk_free_data(&disk_topics(), &None);
    assert!(data.is_empty());
}

#[test]
fn volumes_without_usage_data_are_only_counted() {
    let items = vec![None, Some((2048, false)), None];
    let report = usage_report(&items);
    assert_eq!(report, UsageReport { count: 3, active: 0, size_kib: 2, reclaimable_kib: 2 });
}

#[test]
fn usage_attributes_text_is_json_with_keys_in_order() {
    let text = usage_attributes("images", &UsageReport { count: 2, active: 1, size_kib: -3, reclaimable_kib: 7 });
    assert_eq!(text, "{\"images_active\":1,\"images_reclaimable_kib\":7,\"images_size_kib\":-3}");
}

#[test]
fn sizes_in_kib_round_toward_zero() {
    assert_eq!(to_kib(2047), 1);
    assert_eq!(to_kib(-2047), -1);
    assert_eq!(to_kib(0), 0);
    assert_eq!(to_kib(i64::MIN), i64::MIN / 1024);
}

#[test]
fn usage_fits_tells_when_sums_overflow() {
    assert!(usage_fits(&vec![Some((i64::MAX, true)), Some((-1, false))]));
    assert!(!usage_fits(&vec![Some((i64::MAX, true)), Some((1, true))]));
    let t = tally(&vec![Some((5, true)), Some((7, false)), None]);
    assert_eq!((t.count, t.active, t.size, t.reclaimable), (3, 1, 12, 7));
}

#[test]
fn test_container_status_get_entity_data_running() {
    let state = ContainerStateInfo {
        running: Some(true),
        paused: None,
        restarting: None,
        status: Some("running".to_string()),
        health: Some("healthy".to_string()),
    };
    let data = container_status_data(&status_topics(), &Some(state));
    assert_eq!(data.get("status/state").unwrap(), "running");
    assert_eq!(data.get("health/state").unwrap(), "healthy");
    assert_eq!(data.get("start/avail").unwrap(), "offline");
    assert_eq!(data.get("restart/avail").unwrap(), "online");
    assert_eq!(data.get("stop/avail").unwrap(), "online");
}

#[test]
fn test_container_status_get_entity_data_stopped() {
    let state = ContainerStateInfo {
        running: Some(false),
        paused: None,
        restarting: None,
        status: Some("exited".to_string()),
        health: None,
    };
    let data = container_status_data(&status_topics(), &Some(state));
    assert_eq!(data.get("status/state").unwrap(), "exited");
    assert_eq!(data.get("health/state"), None);
    assert_eq!(data.get("start/avail").unwrap(), "online");
    assert_eq!(data.get("restart/avail").unwrap(), "offline");
    assert_eq!(data.get("stop/avail").unwrap(), "offline");
}

#[test]
fn container_without_state_publishes_nothing() {
    assert!(container_status_data(&status_topics(), &None).is_empty());
}

#[test]
fn paused_container_counts_as_running() {
    let state = ContainerStateInfo { running: Some(false), paused: Some(true), restarting: None, status: None, health: None };
    let data = container_status_data(&status_topics(), &Some(state));
    assert_eq!(data.len(), 3);
    assert_eq!(data.get("start/avail").unwrap(), "offline");
}

#[test]
fn test_container_stats_get_entity_data_success_for_memory_cpu_empty() {
    let memory = used_memory_text(Some(1073741824)).unwrap();
    let data = stats_data(&"test_container/used_memory/state".to_string(), &"test_container/used_cpu/state".to_string(), memory, None);
    assert_eq!(data.len(), 2);
    assert_eq!(data.get("test_container/used_memory/state").unwrap(), (1073741824 / 1024).to_string());
    assert_eq!(data.get("test_container/used_cpu/state").unwrap(), "");
}

#[test]
fn test_container_stats_get_entity_data_zero_usage() {
    let memory = used_memory_text(Some(0)).unwrap();
    let data = stats_data(&"test_container/used_memory/state".to_string(), &"test_container/used_cpu/state".to_string(), memory, None);
    assert_eq!(data.len(), 2);
    assert_eq!(data.get("test_container/used_memory/state").unwrap(), "0");
    assert_eq!(data.get("test_container/used_cpu/state").unwrap(), "");
}

#[test]
fn test_container_stats_get_entity_data_no_usage() {
    assert_eq!(used_memory_text(None), Err(ContainerDataError::NoStats));
}

#[test]
fn stopped_container_stats_are_emptied() {
    let data = stopped_stats_data(&"m".to_string(), &"c".to_string());
    assert_eq!(data.get("m").unwrap(), "");
    assert_eq!(data.get("c").unwrap(), "");
}

#[test]
fn stats_keep_the_cpu_text() {
    let data = stats_data(&"m".to_string(), &"c".to_string(), "12".to_string(), Some("26.67".to_string()));
    assert_eq!(data.get("c").unwrap(), "26.67");
}

#[test]
fn test_log_text_get_entity_data_success() {
    let lines = vec![
        "2024-10-31 10:00:00 Starting container".to_string(),
        "2024-10-31 10:00:01 Container ready".to_string(),
        "2024-10-31 10:00:02 Processing request".to_string(),
    ];
    let data = logs_data(&"test_container/log/state".to_string(), &lines);
    assert_eq!(data.len(), 1);
    let log_content = data.get("test_container/log/state").unwrap();
    assert!(log_content.contains("Starting container"));
    assert!(log_content.contains("Container ready"));
    assert!(log_content.contains("Processing request"));
    assert_eq!(log_content, lines.join("\n"));
}

#[test]
fn test_log_text_get_entity_data_empty_logs() {
    let data = logs_data(&"test_container/log/state".to_string(), &vec![]);
    assert_eq!(data.len(), 1);
    assert_eq!(data.get("test_container/log/state").unwrap(), "");
}

#[test]
fn long_logs_are_cut_to_255_bytes() {
    let line = "x".repeat(300);
    let data = logs_data(&"t".to_string(), &vec![line]);
    assert_eq!(data.get("t").unwrap().len(), 255);
}

#[test]
fn cutting_respects_character_boundaries() {
    assert_eq!(cut_to_bytes("aé", 3), "aé");
    assert_eq!(cut_to_bytes("aéb", 3), "aé");
    assert!(can_cut_at_bytes("aéb", 3));
    assert!(!can_cut_at_bytes("aéb", 2));
    assert!(can_cut_at_bytes("short", 255));
}

#[test]
fn join_lines_puts_line_breaks_between_lines() {
    assert_eq!(join_lines(&vec!["a".to_string(), "b".to_string()]), "a\nb");
    assert_eq!(join_lines(&vec!["only".to_string()]), "only");
    assert_eq!(join_lines(&vec![]), "");
}

#[test]
fn test_network_info_get_entity_data_success() {
    let networks = vec![
        (Some("bridge".to_string()), Some("id1".to_string())),
        (None, Some("id2".to_string())),
        (Some("".to_string()), None),
        (None, None),
    ];
    assert_eq!(network_names(&networks), vec!["bridge".to_string(), "id2".to_string()]);
    let data = network_info_data(&"networks/state".to_string(), &"networks_attributes/state".to_string(), &networks);
    assert_eq!(data.get("networks/state").unwrap(), "4");
    assert_eq!(data.get("networks_attributes/state").unwrap(), "{\"networks\":[\"bridge\",\"id2\"]}");
}

#[test]
fn network_names_are_escaped_as_json() {
    let networks = vec![(Some("a\"b".to_string()), None)];
    let data = network_info_data(&"s".to_string(), &"a".to_string(), &networks);
    let attrs = parse(&data.get("a").unwrap());
    assert_eq!(attrs["networks"][0], "a\"b");
}

#[test]
fn test_host_version_get_entity_data_success() {
    let data = host_version_data(&"host/version/state".to_string(), Some("27.3.1".to_string()));
    assert_eq!(data.get("host/version/state").unwrap(), "27.3.1");
    assert!(host_version_data(&"host/version/state".to_string(), None).is_empty());
}

#[test]
fn container_image_is_published() {
    let data = image_data(&"c/image/state".to_string(), &"nginx:latest".to_string());
    assert_eq!(data.get("c/image/state").unwrap(), "nginx:latest");
}

#[test]
fn container_names_lose_their_slash() {
    assert_eq!(trim_container_name("/my-app"), "my-app");
    assert_eq!(trim_container_name("//x"), "x");
    assert_eq!(container_identifier("/My-App 2"), "my_app_2");
}

#[test]
fn missing_devices_leave_the_host_and_existing_containers() {
    let containers = vec!["container1".to_string()];
    let devices = vec![
        ("my_machine".to_string(), true),
        ("container1".to_string(), false),
        ("gone".to_string(), false),
    ];
    assert_eq!(missing_device_ids(&containers, &devices), vec!["gone".to_string()]);
}

#[test]
fn new_containers_are_those_without_a_device() {
    let names = vec![Some("/container1".to_string()), None, Some("/new-one".to_string())];
    let current = vec!["container1".to_string()];
    assert_eq!(new_container_indices(&names, &current), vec![2]);
}
