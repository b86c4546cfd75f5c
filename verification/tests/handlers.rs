use cmha::handlers::{on_off_text, ContainerAction, DataHandler, Debounce, HandlerOutcome};

#[test]
fn debounce_publishes_once_per_window() {
    let mut d = Debounce::new(1000);
    assert!(d.poll_at(5000));
    assert_eq!(d.last_poll_millis, Some(5000));
    assert!(!d.poll_at(5500));
    assert!(!d.poll_at(6000));
    assert!(d.poll_at(6001));
    assert_eq!(d.last_poll_millis, Some(6001));
}

#[test]
fn first_poll_publishes_even_long_ago() {
    let mut d = Debounce::new(3_600_000);
    assert!(d.poll_at(i64::MIN));
}

#[test]
fn handlers_without_commands_take_none() {
    let mut h = DataHandler::HostVersion { state_topic: "x".to_string() };
    assert!(h.command_topics().is_empty());
    assert!(!h.handles("x"));
    assert!(matches!(h.handle_command("x", "ON"), HandlerOutcome::NotHandled));
}

#[test]
fn container_buttons_ask_for_their_action() {
    for action in [ContainerAction::Restart, ContainerAction::Start, ContainerAction::Stop, ContainerAction::Remove] {
        let mut h = DataHandler::ContainerButton { command_topic: "c/b/command".to_string(), container_name: "c".to_string(), action };
        assert_eq!(h.command_topics(), vec!["c/b/command".to_string()]);
        match h.handle_command("c/b/command", "PRESS") {
            HandlerOutcome::Container(a, n) => {
                assert_eq!(a, action);
                assert_eq!(n, "c");
            }
            _ => panic!("expected a container action"),
        }
    }
}

#[test]
fn logs_request_is_taken_once() {
    let mut h = DataHandler::ContainerLogs { state_topic: "s".to_string(), container_name: "c".to_string(), should_get_logs: false };
    assert!(!h.take_logs_request());
    h.request_logs();
    assert!(h.take_logs_request());
    assert!(!h.take_logs_request());
}

#[test]
fn toggles_read_on_and_off() {
    assert_eq!(on_off_text(true), "ON");
    assert_eq!(on_off_text(false), "OFF");
    let mut h = DataHandler::SampleToggle { state_topic: "s".to_string(), command_topic: "c".to_string(), is_random: true, is_on: false };
    match h.handle_command("c", "anything") {
        HandlerOutcome::Handled(Some(states)) => assert_eq!(states.get("s").unwrap(), "OFF"),
        _ => panic!("expected the toggle to answer"),
    }
    assert_eq!(h, DataHandler::SampleToggle { state_topic: "s".to_string(), command_topic: "c".to_string(), is_random: false, is_on: false });
}
