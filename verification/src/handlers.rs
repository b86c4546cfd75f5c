//! The data handlers of devices: what each one publishes and which commands
//! it takes. A handler that needs the Docker engine says what to ask it; the
//! application asks and hands the answer to the functions that compute the
//! data.

use vstd::prelude::*;
use vstd::string::*;
use crate::container_data::DiskFreeTopics;
use crate::docker::ContainerStatusTopics;
use crate::strings::str_eq;
use crate::topic_map::TopicMap;

verus! {

/// What a container button asks the engine to do with its container.
#[derive(Debug, Clone, Copy, PartialEq, Eq, Structural)]
pub enum ContainerAction {
    Restart,
    Start,
    Stop,
    /// Stop the container, then remove it.
    Remove,
}

/// A time window in which a handler publishes at most once: the length of the
/// window and when the handler last published, in milliseconds since the
/// epoch (`None`: never, which lies before any clock reading).
#[derive(Debug, Clone, Copy, PartialEq, Eq, Structural)]
pub struct Debounce {
    pub duration_millis: i64,
    pub last_poll_millis: Option<i64>,
}

/// A handler may publish again at `now` when its window has passed.
pub open spec fn debounce_due(d: Debounce, now: i64) -> bool {
    match d.last_poll_millis {
        None => true,
        Some(last) => now > last + d.duration_millis,
    }
}

/// `chrono::Utc::now`, in milliseconds since the epoch. What the clock reads
/// is not stated: it may be any value.
#[verifier::external_body]
pub(crate) fn utc_now_millis() -> (r: i64) {
    chrono::Utc::now().timestamp_millis()
}

impl Debounce {
    /// A window of the given length in which nothing was published yet.
    pub fn new(duration_millis: i64) -> (r: Debounce)
        ensures
            r.duration_millis == duration_millis,
            r.last_poll_millis.is_none(),
    {
        Debounce { duration_millis, last_poll_millis: None }
    }

    /// Whether the handler publishes at `now`; if it does, the window starts
    /// again at `now`.
    pub fn poll_at(&mut self, now: i64) -> (r: bool)
        ensures
            r == debounce_due(*old(self), now),
            final(self).duration_millis == old(self).duration_millis,
            final(self).last_poll_millis == (if r { Some(now) } else { old(self).last_poll_millis }),
    {
        let due = match self.last_poll_millis {
            None => true,
            Some(last) => (now as i128) > (last as i128) + (self.duration_millis as i128),
        };
        if due {
            self.last_poll_millis = Some(now);
        }
        due
    }

    /// Whether the handler publishes now, by the clock: as `poll_at` does at
    /// the clock's reading, whatever that reading is.
    pub fn poll(&mut self) -> (r: bool)
        ensures
            final(self).duration_millis == old(self).duration_millis,
            exists|now: i64|
                #[trigger] debounce_due(*old(self), now) == r
                && final(self).last_poll_millis == (if r { Some(now) } else { old(self).last_poll_millis }),
    {
        let now = utc_now_millis();
        let r = self.poll_at(now);
        assert(debounce_due(*old(self), now) == r);
        r
    }
}

/// Once a handler published at `now`, it does not publish again before its
/// window has passed.
pub proof fn lemma_debounce_publishes_once_per_window(d: Debounce, now: i64, later: i64)
    requires
        later <= now + d.duration_millis,
    ensures
        !debounce_due(Debounce { duration_millis: d.duration_millis, last_poll_millis: Some(now) }, later),
{
}

/// A handler that never published publishes at its first poll.
pub proof fn lemma_debounce_first_poll_publishes(duration_millis: i64, now: i64)
    ensures
        debounce_due(Debounce { duration_millis, last_poll_millis: None }, now),
{
}

/// A handler of the data and commands of some entities of a device.
#[allow(inconsistent_fields)]
#[derive(Debug, Clone, PartialEq)]
pub enum DataHandler {
    /// The memory sensor of the sample device.
    SampleMemory { state_topic: String, attributes_topic: String, is_random: bool },
    /// The uptime sensor of the sample device.
    SampleUptime { state_topic: String, is_random: bool },
    /// A text of the sample devices.
    SampleLogText { state_topic: String, is_random: bool },
    /// A switch or light of the sample device, turned on and off by commands.
    SampleToggle { state_topic: String, command_topic: String, is_random: bool, is_on: bool },
    /// The last log lines of a container, fetched once each time they are asked for.
    ContainerLogs { state_topic: String, container_name: String, should_get_logs: bool },
    /// The button that asks for the logs of its container.
    GetLogsButton { command_topic: String },
    /// The memory and CPU use of a container.
    ContainerStats { used_memory_state_topic: String, used_cpu_state_topic: String, container_name: String },
    /// The state and health of a container, and which of its buttons apply.
    ContainerStatus { topics: ContainerStatusTopics, container_name: String },
    /// A button that acts on its container.
    ContainerButton { command_topic: String, container_name: String, action: ContainerAction },
    /// The image of a container.
    ContainerImage { image_topic: String, image: String },
    /// The engine version of the host.
    HostVersion { state_topic: String },
    /// The disk usage of the host, published at most once per window.
    DiskFree { topics: DiskFreeTopics, debounce: Debounce },
    /// The networks of the host, published at most once per window.
    NetworkInfo { state_topic: String, attributes_topic: String, debounce: Debounce },
}

/// The command topics of a handler.
pub open spec fn handler_command_topics(h: DataHandler) -> Seq<String> {
    match h {
        DataHandler::SampleToggle { command_topic, .. } => seq![command_topic],
        DataHandler::GetLogsButton { command_topic } => seq![command_topic],
        DataHandler::ContainerButton { command_topic, .. } => seq![command_topic],
        _ => Seq::empty(),
    }
}

/// A handler takes commands sent to `topic`: one of its command topics.
pub open spec fn handles_topic(h: DataHandler, topic: Seq<char>) -> bool {
    exists|i: int| 0 <= i < handler_command_topics(h).len() && (#[trigger] handler_command_topics(h)[i])@ == topic
}

/// The state text of a toggle.
pub open spec fn on_off(is_on: bool) -> Seq<char> {
    if is_on { "ON"@ } else { "OFF"@ }
}

/// The state text of a toggle.
pub fn on_off_text(is_on: bool) -> (r: String)
    ensures
        r@ == on_off(is_on),
{
    if is_on { "ON".to_owned() } else { "OFF".to_owned() }
}

/// What a handler made of a command.
pub enum HandlerOutcome {
    /// The command is not one of the handler's.
    NotHandled,
    /// The handler took the command; the states it changed, if any.
    Handled(Option<TopicMap>),
    /// The logs of the container are asked for.
    LogsRequested,
    /// The engine is to act on a container; the command is taken once it has.
    Container(ContainerAction, String),
}

impl DataHandler {
    /// The command topics of this handler.
    pub fn command_topics(&self) -> (r: Vec<String>)
        ensures
            r@ == handler_command_topics(*self),
    {
        let mut r: Vec<String> = Vec::new();
        match self {
            DataHandler::SampleToggle { command_topic, .. } => r.push(command_topic.clone()),
            DataHandler::GetLogsButton { command_topic } => r.push(command_topic.clone()),
            DataHandler::ContainerButton { command_topic, .. } => r.push(command_topic.clone()),
            _ => {},
        }
        proof {
            assert(r@ =~= handler_command_topics(*self));
        }
        r
    }

    /// Whether this handler takes commands sent to `topic`.
    pub fn handles(&self, topic: &str) -> (r: bool)
        ensures
            r == handles_topic(*self, topic@),
    {
        let topics = self.command_topics();
        let mut i: usize = 0;
        while i < topics.len()
            invariant
                topics@ == handler_command_topics(*self),
                i <= topics@.len(),
                forall|j: int| 0 <= j < i ==> (#[trigger] topics@[j])@ != topic@,
            decreases topics@.len() - i,
        {
            if str_eq(topics[i].as_str(), topic) {
                return true;
            }
            i += 1;
        }
        false
    }

    /// Handles a command sent to `topic` with `payload`: a handler takes only
    /// its own commands. A toggle stops being random and turns on when the
    /// payload is `ON`, off otherwise, and tells its new state; the logs
    /// button asks for the logs; a container button asks the engine to act.
    pub fn handle_command(&mut self, topic: &str, payload: &str) -> (r: HandlerOutcome)
        ensures
            !handles_topic(*old(self), topic@) ==> r is NotHandled && *final(self) == *old(self),
            handles_topic(*old(self), topic@) ==> match *old(self) {
                DataHandler::SampleToggle { state_topic, command_topic, .. } => {
                    &&& *final(self) == DataHandler::SampleToggle { state_topic, command_topic, is_random: false, is_on: payload@ == "ON"@ }
                    &&& r matches HandlerOutcome::Handled(Some(m)) && m.view() == Map::<Seq<char>, Seq<char>>::empty().insert(state_topic@, on_off(payload@ == "ON"@))
                },
                DataHandler::GetLogsButton { .. } => r is LogsRequested && *final(self) == *old(self),
                DataHandler::ContainerButton { container_name, action, .. } =>
                    r matches HandlerOutcome::Container(a, n) && a == action && n == container_name && *final(self) == *old(self),
                _ => false,
            },
    {
        if !self.handles(topic) {
            return HandlerOutcome::NotHandled;
        }
        match self {
            DataHandler::SampleToggle { state_topic, command_topic, is_random, is_on } => {
                let on = str_eq(payload, "ON");
                *is_random = false;
                *is_on = on;
                let mut m = TopicMap::new();
                m.insert(state_topic.clone(), on_off_text(on));
                HandlerOutcome::Handled(Some(m))
            },
            DataHandler::GetLogsButton { .. } => HandlerOutcome::LogsRequested,
            DataHandler::ContainerButton { container_name, action, .. } =>
                HandlerOutcome::Container(*action, container_name.clone()),
            _ => HandlerOutcome::NotHandled,
        }
    }

    /// Marks the logs of a container as asked for; other handlers stay as
    /// they are.
    pub fn request_logs(&mut self)
        ensures
            match *old(self) {
                DataHandler::ContainerLogs { state_topic, container_name, .. } =>
                    *final(self) == DataHandler::ContainerLogs { state_topic, container_name, should_get_logs: true },
                _ => *final(self) == *old(self),
            },
    {
        match self {
            DataHandler::ContainerLogs { should_get_logs, .. } => {
                *should_get_logs = true;
            },
            _ => {},
        }
    }

    /// Whether the logs of a container are to be fetched now; asking clears
    /// the request. Other handlers fetch no logs.
    pub fn take_logs_request(&mut self) -> (r: bool)
        ensures
            match *old(self) {
                DataHandler::ContainerLogs { state_topic, container_name, should_get_logs } => {
                    &&& r == should_get_logs
                    &&& *final(self) == DataHandler::ContainerLogs { state_topic, container_name, should_get_logs: false }
                },
                _ => !r && *final(self) == *old(self),
            },
    {
        match self {
            DataHandler::ContainerLogs { should_get_logs, .. } => {
                let r = *should_get_logs;
                *should_get_logs = false;
                r
            },
            _ => false,
        }
    }
}

} // verus!
