//! The decisions of the device manager: what each MQTT event means, when the
//! periodic publishing starts and stops, where a command goes, and what is
//! published about availability.
//!
//! The manager's loops run in the application; at each step they hand the
//! event to these functions and perform the actions they return.

use vstd::prelude::*;
use vstd::string::*;
use crate::strings::{concat2, concat3, str_eq};
use crate::topic_map::TopicMap;

verus! {

/// A message received on a subscribed topic.
#[derive(Debug, Clone, PartialEq)]
pub struct PublishResult {
    pub topic: String,
    pub payload: String,
}

/// What handling a command gave: whether a handler took it, and the states it
/// changed.
pub struct CommandResult {
    pub handled: bool,
    pub state_update_topics: Option<TopicMap>,
}

/// The messages that the event loop sends to the message traffic task.
#[derive(Debug, Clone, PartialEq)]
pub enum ChannelMessages {
    Stopping,
    Connected(bool),
    Message(PublishResult),
}

/// The prefix under which Home Assistant looks for discovery documents.
pub open spec fn discovery_prefix_text() -> Seq<char> {
    "homeassistant"@
}

/// The discovery prefix of the device manager.
pub fn discovery_prefix() -> (r: String)
    ensures
        r@ == discovery_prefix_text(),
{
    "homeassistant".to_owned()
}

/// The topic on which the devices of a device manager are available:
/// `<device manager id>/availability`.
pub fn availability_topic_for(device_manager_id: &str) -> (r: String)
    ensures
        r@ == device_manager_id@ + "/availability"@,
{
    concat2(device_manager_id, "/availability")
}

/// The topic on which Home Assistant tells its status: `<prefix>/status`.
pub fn status_topic(discovery_prefix: &str) -> (r: String)
    ensures
        r@ == discovery_prefix@ + "/status"@,
{
    concat2(discovery_prefix, "/status")
}

/// The payload of availability: "online" or "offline".
pub fn availability_payload(available: bool) -> (r: String)
    ensures
        r@ == (if available { "online"@ } else { "offline"@ }),
{
    if available { "online".to_owned() } else { "offline".to_owned() }
}

// ---------------------------------------------------------------- connection

/// The connection as stored: 0 before the first connection, 1 when
/// disconnected, anything else when connected.
pub open spec fn connection_of_code(code: u8) -> Option<bool> {
    if code == 0 { None } else if code == 1 { Some(false) } else { Some(true) }
}

/// The connection that a stored code stands for.
pub fn connection_from_code(code: u8) -> (r: Option<bool>)
    ensures
        r == connection_of_code(code),
{
    if code == 0 { None } else if code == 1 { Some(false) } else { Some(true) }
}

/// The code stored for a connection.
pub fn code_for_connected(is_connected: bool) -> (r: u8)
    ensures
        r == (if is_connected { 2u8 } else { 1u8 }),
        connection_of_code(r) == Some(is_connected),
{
    if is_connected { 2 } else { 1 }
}

/// Whether the manager may publish availability, sensor data or a disconnect:
/// only while connected.
pub fn is_online(connection: Option<bool>) -> (r: bool)
    ensures
        r == (connection == Some(true)),
{
    match connection {
        Some(true) => true,
        _ => false,
    }
}

/// What a lost connection asks for.
#[derive(Debug, Clone, Copy, PartialEq, Eq, Structural)]
pub struct DisconnectActions {
    /// Record the connection as lost.
    pub mark_disconnected: bool,
    /// Tell the message traffic task that the connection is lost.
    pub notify: bool,
}

/// What to do when the connection is lost, given the connection as it was: a
/// connected manager records it and tells the message traffic task; one that
/// never connected only records it; one already disconnected does nothing.
pub fn on_disconnection(connection: Option<bool>) -> (r: DisconnectActions)
    ensures
        r.mark_disconnected == (connection != Some(false)),
        r.notify == (connection == Some(true)),
{
    match connection {
        Some(true) => DisconnectActions { mark_disconnected: true, notify: true },
        Some(false) => DisconnectActions { mark_disconnected: false, notify: false },
        None => DisconnectActions { mark_disconnected: true, notify: false },
    }
}

// ---------------------------------------------------------------- events

/// An event of the MQTT event loop, with the texts of its errors.
#[derive(Debug, Clone, PartialEq)]
pub enum MqttEvent {
    IncomingPublish { topic: String, payload: String },
    IncomingConnAck { session_present: bool },
    IncomingDisconnect,
    Outgoing,
    OtherIncoming,
    ConnectionRefused(String),
    Io(String),
    Tls(String),
    MqttState(String),
    OtherError(String),
}

/// What an event asks the manager to do.
#[derive(Debug, Clone, PartialEq)]
pub enum EventAction {
    /// Nothing beyond the flags.
    Nothing,
    /// Send the message to the message traffic task.
    Forward(ChannelMessages),
    /// Record the connection and tell the message traffic task.
    Connected,
    /// The connection is lost: handle it with `on_disconnection`.
    Disconnected { message: String, event: String },
}

/// How the event loop goes on after an event.
#[derive(Debug, Clone, Copy, PartialEq, Eq, Structural)]
pub struct EventHandled {
    pub should_event_loop_pooling_wait: bool,
    pub should_stop_event_loop: bool,
}

/// An event the event loop cannot go on after.
#[derive(Debug, Clone, PartialEq)]
pub enum EventHandlingError {
    Connection(String),
}

/// The decision on an event, in spec terms.
pub open spec fn event_decision(event: MqttEvent, should_stop: bool) -> Result<(EventAction, EventHandled), EventHandlingError> {
    let go_on = EventHandled { should_event_loop_pooling_wait: false, should_stop_event_loop: false };
    let wait = EventHandled { should_event_loop_pooling_wait: true, should_stop_event_loop: false };
    match event {
        MqttEvent::IncomingPublish { topic, payload } =>
            Ok((EventAction::Forward(ChannelMessages::Message(PublishResult { topic, payload })), go_on)),
        MqttEvent::IncomingConnAck { .. } => Ok((EventAction::Connected, go_on)),
        MqttEvent::Outgoing => Ok((EventAction::Nothing, go_on)),
        MqttEvent::OtherIncoming => Ok((EventAction::Nothing, go_on)),
        MqttEvent::MqttState(_) =>
            if should_stop {
                Ok((EventAction::Nothing, EventHandled { should_event_loop_pooling_wait: false, should_stop_event_loop: true }))
            } else {
                Ok((EventAction::Nothing, wait))
            },
        _ => Ok((EventAction::Nothing, wait)),
    }
}

/// The texts of the lost connection that an event stands for, if any.
pub open spec fn disconnection_texts(event: MqttEvent, should_stop: bool) -> Option<(Seq<char>, Seq<char>)> {
    match event {
        MqttEvent::IncomingDisconnect => Some(("Unexpected disconnection, will retry..."@, "disconnect"@)),
        MqttEvent::Io(x) => Some(("MQTT I/O connection error ("@ + x@ + "), will retry..."@, "I/O Error"@)),
        MqttEvent::MqttState(_) => if should_stop { None } else { Some(("MQTT state error, retrying in 5 seconds..."@, "I/O Error"@)) },
        MqttEvent::OtherError(e) => Some(("MQTT connection error: "@ + e@ + ", retrying in 5 seconds..."@, "I/O Error"@)),
        _ => None,
    }
}

/// The error that an event ends the event loop with, if any.
pub open spec fn fatal_error_text(event: MqttEvent) -> Option<Seq<char>> {
    match event {
        MqttEvent::ConnectionRefused(e) => Some("Connection refused: "@ + e@),
        MqttEvent::Tls(_) => Some("TLS Error"@),
        _ => None,
    }
}

/// Decides what an event of the MQTT event loop means. A refused connection
/// and a TLS error end the loop with an error; a publish is forwarded; an
/// acknowledged connection is recorded; a lost connection is handled and the
/// loop waits before polling again; a state error after a stop request ends
/// the loop.
pub fn deal_with_event(event: MqttEvent, should_stop: bool) -> (r: Result<(EventAction, EventHandled), EventHandlingError>)
    ensures
        match fatal_error_text(event) {
            Some(t) => r is Err && (r->Err_0 matches EventHandlingError::Connection(m) && m@ == t),
            None => r is Ok && ({
                let (action, handled) = r->Ok_0;
                match disconnection_texts(event, should_stop) {
                    Some((message, name)) => (action matches EventAction::Disconnected { message: m, event: e }
                        && m@ == message && e@ == name)
                        && handled.should_event_loop_pooling_wait && !handled.should_stop_event_loop,
                    None => Ok::<(EventAction, EventHandled), EventHandlingError>((action, handled)) == event_decision(event, should_stop),
                }
            }),
        },
{
    let go_on = EventHandled { should_event_loop_pooling_wait: false, should_stop_event_loop: false };
    let wait = EventHandled { should_event_loop_pooling_wait: true, should_stop_event_loop: false };
    match event {
        MqttEvent::IncomingPublish { topic, payload } =>
            Ok((EventAction::Forward(ChannelMessages::Message(PublishResult { topic, payload })), go_on)),
        MqttEvent::IncomingConnAck { .. } => Ok((EventAction::Connected, go_on)),
        MqttEvent::IncomingDisconnect => Ok((
            EventAction::Disconnected {
                message: "Unexpected disconnection, will retry...".to_owned(),
                event: "disconnect".to_owned(),
            },
            wait,
        )),
        MqttEvent::Outgoing => Ok((EventAction::Nothing, go_on)),
        MqttEvent::OtherIncoming => Ok((EventAction::Nothing, go_on)),
        MqttEvent::ConnectionRefused(e) => Err(EventHandlingError::Connection(concat2("Connection refused: ", e.as_str()))),
        MqttEvent::Io(x) => Ok((
            EventAction::Disconnected {
                message: concat3("MQTT I/O connection error (", x.as_str(), "), will retry..."),
                event: "I/O Error".to_owned(),
            },
            wait,
        )),
        MqttEvent::Tls(_) => Err(EventHandlingError::Connection("TLS Error".to_owned())),
        MqttEvent::MqttState(_) => {
            if should_stop {
                Ok((EventAction::Nothing, EventHandled { should_event_loop_pooling_wait: false, should_stop_event_loop: true }))
            } else {
                Ok((
                    EventAction::Disconnected {
                        message: "MQTT state error, retrying in 5 seconds...".to_owned(),
                        event: "I/O Error".to_owned(),
                    },
                    wait,
                ))
            }
        },
        MqttEvent::OtherError(e) => Ok((
            EventAction::Disconnected {
                message: concat3("MQTT connection error: ", e.as_str(), ", retrying in 5 seconds..."),
                event: "I/O Error".to_owned(),
            },
            wait,
        )),
    }
}

/// An acknowledged connection is recorded and the loop goes on at once,
/// whether or not the broker kept a session: the flag changes nothing of the
/// decision, so publishing starts again after every reconnection.
pub proof fn lemma_connack_connects_whatever_the_session(session_present: bool, should_stop: bool)
    ensures
        fatal_error_text(MqttEvent::IncomingConnAck { session_present }) is None,
        disconnection_texts(MqttEvent::IncomingConnAck { session_present }, should_stop) is None,
        event_decision(MqttEvent::IncomingConnAck { session_present }, should_stop)
            == Ok::<(EventAction, EventHandled), EventHandlingError>((
                EventAction::Connected,
                EventHandled { should_event_loop_pooling_wait: false, should_stop_event_loop: false },
            )),
        event_decision(MqttEvent::IncomingConnAck { session_present: true }, should_stop)
            == event_decision(MqttEvent::IncomingConnAck { session_present: false }, should_stop),
{
}

/// The error that ends the event loop after a connection error.
pub fn event_loop_error_message(message: &str) -> (r: String)
    ensures
        r@ == message@ + " in the event loop."@,
{
    concat2(message, " in the event loop.")
}

// ---------------------------------------------------------------- commands

/// Where a received message goes.
#[derive(Debug, Clone, Copy, PartialEq, Eq, Structural)]
pub enum CommandRoute {
    /// Home Assistant came online: the devices are announced again.
    BrokerOnline,
    /// Home Assistant goes offline: nothing to do.
    BrokerOffline,
    /// A command for the devices.
    Devices,
}

/// Where a message on `topic` goes: the status topic of the discovery prefix
/// speaks of Home Assistant itself, any other topic of the devices.
pub fn route_command(topic: &str, payload: &str, discovery_prefix: &str) -> (r: CommandRoute)
    ensures
        r == (if topic@ == discovery_prefix@ + "/status"@ {
            if payload@ == "online"@ { CommandRoute::BrokerOnline } else { CommandRoute::BrokerOffline }
        } else {
            CommandRoute::Devices
        }),
{
    let status = status_topic(discovery_prefix);
    if str_eq(topic, status.as_str()) {
        if str_eq(payload, "online") { CommandRoute::BrokerOnline } else { CommandRoute::BrokerOffline }
    } else {
        CommandRoute::Devices
    }
}

// ---------------------------------------------------------------- publishing

/// The periodic publishing as the message traffic task sees it: whether the
/// broker is connected, and whether a publishing task runs.
#[derive(Debug, Clone, Copy, PartialEq, Eq, Structural)]
pub struct PublishState {
    pub connected: bool,
    pub has_task: bool,
}

/// What a change of connection asks for, in order.
#[derive(Debug, Clone, Copy, PartialEq, Eq, Structural)]
pub struct ConnectionChangeActions {
    /// Cancel the running publishing task and wait for it.
    pub abort_running_task: bool,
    /// Announce the devices again and start a new publishing task.
    pub initialize_and_start: bool,
}

/// The state and actions that a connection message leads to, in spec terms.
pub open spec fn connection_change(s: PublishState, is_connected_message: bool) -> (PublishState, ConnectionChangeActions) {
    if s.has_task && s.connected == is_connected_message {
        (s, ConnectionChangeActions { abort_running_task: false, initialize_and_start: false })
    } else {
        (
            PublishState { connected: is_connected_message, has_task: is_connected_message },
            ConnectionChangeActions { abort_running_task: s.has_task, initialize_and_start: is_connected_message },
        )
    }
}

impl PublishState {
    /// Not connected, no task.
    pub fn new() -> (r: PublishState)
        ensures
            !r.connected,
            !r.has_task,
    {
        PublishState { connected: false, has_task: false }
    }

    /// Handles a message on the connection: while a task runs, a message that
    /// repeats the connection state is ignored; otherwise a running task is
    /// aborted, and on a connection the devices are announced and a new task
    /// starts.
    pub fn deal_with_connection_status_change(&mut self, is_connected_message: bool) -> (r: ConnectionChangeActions)
        ensures
            (*final(self), r) == connection_change(*old(self), is_connected_message),
    {
        if self.has_task && self.connected == is_connected_message {
            return ConnectionChangeActions { abort_running_task: false, initialize_and_start: false };
        }
        let abort = self.has_task;
        self.connected = is_connected_message;
        self.has_task = is_connected_message;
        ConnectionChangeActions { abort_running_task: abort, initialize_and_start: is_connected_message }
    }
}

/// A connection message repeated right after itself changes nothing and asks
/// for nothing, and the task runs exactly while connected.
pub proof fn lemma_connection_change_is_idempotent(s: PublishState, is_connected_message: bool)
    ensures
        ({
            let (s1, _) = connection_change(s, is_connected_message);
            let (s2, a2) = connection_change(s1, is_connected_message);
            &&& s2 == s1
            &&& !a2.abort_running_task
            &&& !a2.initialize_and_start
            &&& s1.connected == is_connected_message
        }),
{
}

/// What a channel message asks the message traffic task to do, in order.
#[derive(Debug, Clone, PartialEq)]
pub struct TrafficActions {
    /// Record the health of the service.
    pub set_healthy: Option<bool>,
    /// Change the periodic publishing.
    pub connection: ConnectionChangeActions,
    /// Hand the message to the command handling.
    pub command: Option<PublishResult>,
    /// Publish the devices as unavailable.
    pub make_unavailable: bool,
    /// Cancel what is left of the periodic publishing.
    pub stop_publishing: bool,
    /// Disconnect from the broker.
    pub disconnect: bool,
    /// Leave the message traffic loop.
    pub exit: bool,
}

/// Decides what a channel message asks for: a connection message records the
/// health and changes the publishing; a received message is a command; a stop
/// ends the publishing, makes the devices unavailable, disconnects and leaves.
pub fn on_channel_message(state: &mut PublishState, message: ChannelMessages) -> (r: TrafficActions)
    ensures
        match message {
            ChannelMessages::Connected(c) => {
                let (s, a) = connection_change(*old(state), c);
                &&& *final(state) == s
                &&& r == TrafficActions { set_healthy: Some(c), connection: a, command: None,
                        make_unavailable: false, stop_publishing: false, disconnect: false, exit: false }
            },
            ChannelMessages::Message(p) => *final(state) == *old(state)
                && r == TrafficActions { set_healthy: None,
                        connection: ConnectionChangeActions { abort_running_task: false, initialize_and_start: false },
                        command: Some(p), make_unavailable: false, stop_publishing: false, disconnect: false, exit: false },
            ChannelMessages::Stopping => {
                let (s, a) = connection_change(*old(state), false);
                &&& *final(state) == s
                &&& r == TrafficActions { set_healthy: None, connection: a, command: None,
                        make_unavailable: true, stop_publishing: true, disconnect: true, exit: true }
            },
        },
{
    match message {
        ChannelMessages::Connected(c) => {
            let a = state.deal_with_connection_status_change(c);
            TrafficActions { set_healthy: Some(c), connection: a, command: None,
                make_unavailable: false, stop_publishing: false, disconnect: false, exit: false }
        },
        ChannelMessages::Message(p) => TrafficActions { set_healthy: None,
            connection: ConnectionChangeActions { abort_running_task: false, initialize_and_start: false },
            command: Some(p), make_unavailable: false, stop_publishing: false, disconnect: false, exit: false },
        ChannelMessages::Stopping => {
            let a = state.deal_with_connection_status_change(false);
            TrafficActions { set_healthy: None, connection: a, command: None,
                make_unavailable: true, stop_publishing: true, disconnect: true, exit: true }
        },
    }
}

} // verus!
