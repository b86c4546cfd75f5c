use cmha::device_manager::{
    availability_payload, availability_topic_for, code_for_connected, connection_from_code, deal_with_event,
    discovery_prefix, event_loop_error_message, is_online, on_channel_message, on_disconnection, route_command,
    status_topic, ChannelMessages, CommandRoute, EventAction, EventHandlingError, MqttEvent, PublishResult,
    PublishState,
};
use cmha::healthcheck::{HealthCheck, HealthCheckStatus};
use cmha::stopped_tasks::{must_cancel_event_loop, stop_wait_is_over, AtomicStoppedTasks, StoppedTasks};

#[test]
fn test_connection_manager_new() {
    let state = PublishState::new();
    assert!(!state.connected);
    assert!(!state.has_task);
}

#[test]
fn test_connection_manager_transition_to_connected() {
    let mut state = PublishState::new();
    let actions = state.deal_with_connection_status_change(true);
    assert!(actions.initialize_and_start);
    assert!(!actions.abort_running_task);
    assert!(state.connected && state.has_task);
}

#[test]
fn test_connection_manager_transition_to_disconnected() {
    let mut state = PublishState::new();
    state.deal_with_connection_status_change(true);
    let actions = state.deal_with_connection_status_change(false);
    assert!(actions.abort_running_task);
    assert!(!actions.initialize_and_start);
    assert!(!state.connected && !state.has_task);
}

#[test]
fn test_connection_manager_already_connected_skips_restart() {
    let mut state = PublishState::new();
    state.deal_with_connection_status_change(true);
    let actions = state.deal_with_connection_status_change(true);
    assert!(!actions.abort_running_task && !actions.initialize_and_start);
}

#[test]
fn channel_messages_drive_the_message_traffic() {
    let mut state = PublishState::new();
    let connected = on_channel_message(&mut state, ChannelMessages::Connected(true));
    assert_eq!(connected.set_healthy, Some(true));
    assert!(connected.connection.initialize_and_start);
    let message = PublishResult { topic: "t".to_string(), payload: "p".to_string() };
    let got = on_channel_message(&mut state, ChannelMessages::Message(message.clone()));
    assert_eq!(got.command, Some(message));
    let stopping = on_channel_message(&mut state, ChannelMessages::Stopping);
    assert!(stopping.exit && stopping.disconnect && stopping.make_unavailable && stopping.stop_publishing);
    assert!(stopping.connection.abort_running_task);
}

#[test]
fn events_are_forwarded_or_end_the_loop() {
    let (action, handled) = deal_with_event(MqttEvent::IncomingPublish { topic: "a".to_string(), payload: "b".to_string() }, false).unwrap();
    assert_eq!(action, EventAction::Forward(ChannelMessages::Message(PublishResult { topic: "a".to_string(), payload: "b".to_string() })));
    assert!(!handled.should_event_loop_pooling_wait);
    assert_eq!(deal_with_event(MqttEvent::IncomingConnAck { session_present: false }, false).unwrap().0, EventAction::Connected);
    assert_eq!(
        deal_with_event(MqttEvent::ConnectionRefused("bad".to_string()), false),
        Err(EventHandlingError::Connection("Connection refused: bad".to_string()))
    );
    assert_eq!(deal_with_event(MqttEvent::Tls("x".to_string()), false), Err(EventHandlingError::Connection("TLS Error".to_string())));
    let (action, handled) = deal_with_event(MqttEvent::Io("reset".to_string()), false).unwrap();
    assert_eq!(
        action,
        EventAction::Disconnected { message: "MQTT I/O connection error (reset), will retry...".to_string(), event: "I/O Error".to_string() }
    );
    assert!(handled.should_event_loop_pooling_wait);
    let (action, handled) = deal_with_event(MqttEvent::MqttState("x".to_string()), true).unwrap();
    assert_eq!(action, EventAction::Nothing);
    assert!(handled.should_stop_event_loop);
    assert_eq!(event_loop_error_message("Boom"), "Boom in the event loop.");
}

#[test]
fn test_disconnect_only_when_connected() {
    assert!(is_online(Some(true)));
    assert!(!is_online(Some(false)));
    assert!(!is_online(None));
    let actions = on_disconnection(Some(true));
    assert!(actions.mark_disconnected && actions.notify);
    let actions = on_disconnection(Some(false));
    assert!(!actions.mark_disconnected && !actions.notify);
    let actions = on_disconnection(None);
    assert!(actions.mark_disconnected && !actions.notify);
}

#[test]
fn connection_codes_round_trip() {
    assert_eq!(connection_from_code(0), None);
    assert_eq!(connection_from_code(code_for_connected(true)), Some(true));
    assert_eq!(connection_from_code(code_for_connected(false)), Some(false));
}

#[test]
fn topics_of_the_manager() {
    assert_eq!(discovery_prefix(), "homeassistant");
    assert_eq!(availability_topic_for("mqtt_cmha"), "mqtt_cmha/availability");
    assert_eq!(status_topic("homeassistant"), "homeassistant/status");
    assert_eq!(availability_payload(true), "online");
    assert_eq!(availability_payload(false), "offline");
}

#[test]
fn commands_on_the_status_topic_are_broker_status() {
    assert_eq!(route_command("homeassistant/status", "online", "homeassistant"), CommandRoute::BrokerOnline);
    assert_eq!(route_command("homeassistant/status", "offline", "homeassistant"), CommandRoute::BrokerOffline);
    assert_eq!(route_command("dev/x/command", "ON", "homeassistant"), CommandRoute::Devices);
}

#[test]
fn health_check_reads_back_what_was_set() {
    let mut check = HealthCheck::new(HealthCheckStatus::default());
    assert!(!check.check_if_healthy());
    check.set_healthy(true);
    assert!(check.check_if_healthy());
    check.set_healthy(false);
    assert!(!check.check_if_healthy());
    assert_eq!(HealthCheck::status_for(true), HealthCheckStatus::Healthy);
}

#[test]
fn stopped_tasks_decide_when_stopping_is_done() {
    let tasks = AtomicStoppedTasks::new();
    assert_eq!(tasks.load().bits(), 0);
    tasks.store(StoppedTasks::event_loop());
    assert!(stop_wait_is_over(tasks.load()));
    assert!(!must_cancel_event_loop(tasks.load()));
    tasks.store(StoppedTasks::event_loop().union(StoppedTasks::message_traffic()));
    assert!(!stop_wait_is_over(tasks.load()));
    assert!(must_cancel_event_loop(tasks.load()));
    assert_eq!(StoppedTasks::from_bits_truncate(0xff).bits(), 3);
}
