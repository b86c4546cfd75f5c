use cmha::helpers::{pretty_format, slugify, DurationConvert};

fn std_secs(secs: u64) -> DurationConvert {
    DurationConvert::StdDuration { secs, nanos: 0 }
}

fn chrono_secs(secs: i64) -> DurationConvert {
    DurationConvert::ChronoDuration { secs, nanos: 0 }
}

#[test]
fn test_slugify_comprehensive() {
    // Basic cases
    assert_eq!(slugify("Hello World"), "hello_world");
    assert_eq!(slugify("test"), "test");
    assert_eq!(slugify("TEST"), "test");

    // Special characters
    assert_eq!(slugify("Test@Device#123!"), "test_device_123");
    assert_eq!(slugify("user+name"), "user_name");
    assert_eq!(slugify("file.name.txt"), "file_name_txt");

    // Multiple spaces and dashes
    assert_eq!(slugify("Multiple   Spaces"), "multiple_spaces");
    assert_eq!(slugify("dash-separated-words"), "dash_separated_words");
    assert_eq!(slugify("mixed-dash and_space"), "mixed_dash_and_space");

    // Unicode and special cases
    assert_eq!(slugify("Café"), "cafe");
    assert_eq!(slugify("naïve"), "naive");

    // Edge cases
    assert_eq!(slugify(""), "");
    assert_eq!(slugify("123"), "123");
    assert_eq!(slugify("_leading"), "leading");
    assert_eq!(slugify("trailing_"), "trailing");

    // preserving underscores
    assert_eq!(slugify("already_good_format"), "already_good_format");
    assert_eq!(slugify("has_under_scores"), "has_under_scores");
    assert_eq!(slugify("_leading_underscore"), "leading_underscore");
    assert_eq!(slugify("trailing_underscore_"), "trailing_underscore");

    // replacing dashes with underscores
    assert_eq!(slugify("with-dashes"), "with_dashes");
    assert_eq!(slugify("multiple-dash-case"), "multiple_dash_case");
    assert_eq!(slugify("-leading-dash"), "leading_dash");
}

#[test]
fn test_slugify_mqtt_node_ids() {
    assert_eq!(slugify("mqtt_docker"), "mqtt_docker");
    assert_eq!(slugify("MQTT Docker"), "mqtt_docker");
    assert_eq!(slugify("mqtt-docker-node"), "mqtt_docker_node");
    assert_eq!(slugify("My Home Server"), "my_home_server");
}

#[test]
fn slugify_is_stable_on_its_own_output() {
    for name in ["Hello World", "Test@Device#123!", "-leading-dash", "naïve", ""] {
        let once = slugify(name);
        assert_eq!(slugify(&once), once);
    }
}

#[test]
fn test_pretty_format_std_duration_seconds() {
    assert_eq!(pretty_format(std_secs(45)), "45 seconds");
}

#[test]
fn test_pretty_format_std_duration_minutes() {
    assert_eq!(pretty_format(std_secs(120)), "2 minutes");
}

#[test]
fn test_pretty_format_std_duration_hours() {
    assert_eq!(pretty_format(std_secs(3661)), "1 hour, 1 minute and 1 second");
}

#[test]
fn test_pretty_format_std_duration_days() {
    assert_eq!(pretty_format(std_secs(86400 + 3600 + 60 + 1)), "1 day, 1 hour, 1 minute and 1 second");
}

#[test]
fn test_pretty_format_chrono_duration_seconds() {
    assert_eq!(pretty_format(chrono_secs(30)), "30 seconds");
}

#[test]
fn test_pretty_format_chrono_duration_minutes() {
    assert_eq!(pretty_format(chrono_secs(5 * 60)), "5 minutes");
}

#[test]
fn test_pretty_format_chrono_duration_hours() {
    assert_eq!(pretty_format(chrono_secs(2 * 3600)), "2 hours");
}

#[test]
fn test_pretty_format_chrono_duration_days() {
    assert_eq!(pretty_format(chrono_secs(3 * 86400)), "3 days");
}

#[test]
fn test_pretty_format_chrono_duration_mixed() {
    assert_eq!(pretty_format(chrono_secs(86400 + 2 * 3600 + 30 * 60)), "1 day, 2 hours and 30 minutes");
}

#[test]
fn test_pretty_format_zero_duration() {
    assert_eq!(pretty_format(std_secs(0)), "0 seconds");
}

#[test]
fn slugify_of_an_identifier_is_the_identifier() {
    for name in ["Hello World", "  --test_-_cool", "Café au lait", "user@example.com", "", "already_good_format"] {
        let once = slugify(name);
        assert_eq!(slugify(&once), once);
    }
    assert_eq!(slugify("already_good_format"), "already_good_format");
}
