//! A sample device provider: a device with a light, a switch, a log text and
//! memory and uptime sensors, and a dependent device with a text. Its values
//! are random, or fixed when it is made not random.

use vstd::prelude::*;
use vstd::string::*;
use crate::device::{Device, DeviceDetails, project_device_details, project_origin};
use crate::entities::{Entity, Light, Sensor, Switch, Text, TextMode, entity_named};
use crate::entity_details::{EntityDetails, EntityDetailsGetter, attributes_item};
use crate::handlers::{DataHandler, on_off, on_off_text, utc_now_millis};
use crate::helpers::{slugify, slug_of, dashes_to_underscores};
use crate::strings::{IntoText, decimal, signed_decimal, push_decimal, u64_to_string, i64_to_string};
use crate::topic_map::TopicMap;

verus! {

/// The provider of the sample devices.
#[derive(Debug, Clone, PartialEq)]
pub struct SampleDeviceProvider {
    pub device_id: String,
    pub device_name: String,
    pub dependent_device_id: String,
    pub dependent_device_name: String,
    pub is_random: bool,
}

/// The identifier of a device named `name`.
pub open spec fn device_id_of(name: Seq<char>) -> Seq<char> {
    dashes_to_underscores(slug_of(name))
}

/// The name of the dependent sample device.
pub open spec fn dependent_device_name() -> Seq<char> {
    "Dependent device"@
}

impl SampleDeviceProvider {
    /// A provider of random sample devices; the main one is named `device_name`.
    pub fn new<A: IntoText>(device_name: A) -> (r: Self)
        ensures
            r.device_name@ == device_name.text_view(),
            r.device_id@ == device_id_of(device_name.text_view()),
            r.dependent_device_name@ == dependent_device_name(),
            r.dependent_device_id@ == device_id_of(dependent_device_name()),
            r.is_random,
    {
        let device_name = device_name.into_text();
        let dependent_device_name = "Dependent device".to_owned();
        SampleDeviceProvider {
            device_id: slugify(device_name.as_str()),
            device_name,
            dependent_device_id: slugify(dependent_device_name.as_str()),
            dependent_device_name,
            is_random: true,
        }
    }

    /// This provider, with fixed values.
    pub fn not_random(self) -> (r: Self)
        ensures
            !r.is_random,
            r.device_id == self.device_id,
            r.device_name == self.device_name,
            r.dependent_device_id == self.dependent_device_id,
            r.dependent_device_name == self.dependent_device_name,
    {
        SampleDeviceProvider { is_random: false, ..self }
    }

    /// The identifier of this provider.
    pub fn id(&self) -> (r: String)
        ensures
            r@ == "sample_device_provider"@,
    {
        "sample_device_provider".to_owned()
    }

    /// The sample devices: the main device, then the dependent device, shown
    /// through the main one. The main device has a dimmable light (scale 100),
    /// a log text, a memory sensor with attributes, a switch and an uptime
    /// sensor, each with its data handler on its topics; the dependent device
    /// has a text. Every handler is random when this provider is.
    pub fn get_devices(&self, availability_topic: String) -> (r: Vec<Device>)
        ensures
            r@.len() == 2,
            r@[0].details.name == self.device_name,
            r@[0].details.identifier == self.device_id,
            r@[0].details.via_device is None,
            r@[1].details.name == self.dependent_device_name,
            r@[1].details.identifier == self.dependent_device_id,
            r@[1].details.via_device == Some(self.device_id),
            forall|d: int| 0 <= d < 2 ==> {
                &&& (#[trigger] r@[d]).availability_topic == availability_topic
                &&& r@[d].provider_id@ == "sample_device_provider"@
                &&& r@[d].metadata@.len() == 0
                &&& r@[d].entities@.len() == r@[d].data_handlers@.len()
                &&& forall|i: int| 0 <= i < r@[d].entities@.len() ==>
                    sample_handler_of(#[trigger] r@[d].entities@[i], r@[d].data_handlers@[i], self.is_random)
                &&& forall|i: int| 0 <= i < r@[d].entities@.len() ==>
                    (#[trigger] r@[d].entities@[i]).details_view().device_identifier@ == r@[d].details.identifier@
            },
            r@[0].entities@.len() == 5,
            entity_named(r@[0].entities@[0], "Living Room Light"@, self.device_id@),
            r@[0].entities@[0] matches Entity::Light(l) && l.supports_brightness && l.brightness_scale == 100,
            entity_named(r@[0].entities@[1], "Log text"@, self.device_id@),
            r@[0].entities@[1] matches Entity::Text(t) && t.mode == TextMode::Text,
            entity_named(r@[0].entities@[2], "Memory Usage"@, self.device_id@),
            r@[0].entities@[2] matches Entity::Sensor(s) && s.details.has_attributes
                && (s.unit_of_measurement matches Some(u) && u@ == "MB"@)
                && (s.device_class matches Some(c) && c@ == "data_size"@),
            entity_named(r@[0].entities@[3], "Server Mode"@, self.device_id@),
            r@[0].entities@[3] matches Entity::Switch(s) && s.device_class is None,
            entity_named(r@[0].entities@[4], "System Uptime"@, self.device_id@),
            r@[0].entities@[4] matches Entity::Sensor(s) && !s.details.has_attributes
                && (s.unit_of_measurement matches Some(u) && u@ == "s"@)
                && (s.device_class matches Some(c) && c@ == "duration"@),
            r@[1].entities@.len() == 1,
            entity_named(r@[1].entities@[0], "Some text"@, self.dependent_device_id@),
            r@[1].entities@[0] matches Entity::Text(t) && t.mode == TextMode::Text,
    {
        let main_id = self.device_id.clone();
        let light = Light::new(main_id.clone(), "Living Room Light", "mdi:lightbulb").support_brightness(100);
        let log_text = Text::new(main_id.clone(), "Log text", "mdi:script-text-outline");
        let memory = Sensor::new_with_details(
            EntityDetails::new(main_id.clone(), "Memory Usage", "mdi:memory").has_attributes(),
            Some("MB".to_owned()),
            Some("data_size".to_owned()),
        );
        let switch = Switch::new(main_id.clone(), "Server Mode", "mdi:server", None);
        let uptime = Sensor::new(main_id.clone(), "System Uptime", "mdi:clock-outline", "s", "duration");
        let light_handler = DataHandler::SampleToggle {
            state_topic: light.details.get_topic_for_state(None),
            command_topic: light.command_topic.clone(),
            is_random: self.is_random,
            is_on: false,
        };
        let log_text_handler = DataHandler::SampleLogText {
            state_topic: log_text.details.get_topic_for_state(None),
            is_random: self.is_random,
        };
        let memory_handler = DataHandler::SampleMemory {
            state_topic: memory.details.get_topic_for_state(None),
            attributes_topic: memory.details.get_topic_for_state(Some("attributes")),
            is_random: self.is_random,
        };
        let switch_handler = DataHandler::SampleToggle {
            state_topic: switch.details.get_topic_for_state(None),
            command_topic: switch.command_topic.clone(),
            is_random: self.is_random,
            is_on: false,
        };
        let uptime_handler = DataHandler::SampleUptime {
            state_topic: uptime.details.get_topic_for_state(None),
            is_random: self.is_random,
        };
        proof {
            reveal_strlit("attributes");
            assert("attributes"@ == attributes_item());
        }
        let main_entities = vec![
            Entity::Light(light),
            Entity::Text(log_text),
            Entity::Sensor(memory),
            Entity::Switch(switch),
            Entity::Sensor(uptime),
        ];
        let main_handlers = vec![light_handler, log_text_handler, memory_handler, switch_handler, uptime_handler];
        let main = Device::new_with_entities(
            project_device_details(self.device_name.clone(), main_id.clone(), None),
            project_origin(),
            availability_topic.clone(),
            main_entities,
            main_handlers,
            self.id(),
        );
        let dependent_id = self.dependent_device_id.clone();
        let some_text = Text::new(dependent_id.clone(), "Some text", "mdi:card-text-outline");
        let some_text_handler = DataHandler::SampleLogText {
            state_topic: some_text.details.get_topic_for_state(None),
            is_random: self.is_random,
        };
        let dependent = Device::new_with_entities(
            project_device_details(self.dependent_device_name.clone(), dependent_id, Some(main_id)),
            project_origin(),
            availability_topic,
            vec![Entity::Text(some_text)],
            vec![some_text_handler],
            self.id(),
        );
        let r = vec![main, dependent];
        proof {
            assert(sample_handler_of(r@[0].entities@[0], r@[0].data_handlers@[0], self.is_random));
            assert(sample_handler_of(r@[0].entities@[1], r@[0].data_handlers@[1], self.is_random));
            assert(sample_handler_of(r@[0].entities@[2], r@[0].data_handlers@[2], self.is_random));
            assert(sample_handler_of(r@[0].entities@[3], r@[0].data_handlers@[3], self.is_random));
            assert(sample_handler_of(r@[0].entities@[4], r@[0].data_handlers@[4], self.is_random));
            assert(sample_handler_of(r@[1].entities@[0], r@[1].data_handlers@[0], self.is_random));
            if let Entity::Light(l) = r@[0].entities@[0] {
                assert(l.details.command_topics@ =~= seq![l.command_topic, l.brightness_command_topic->0]);
            }
            if let Entity::Switch(w) = r@[0].entities@[3] {
                assert(w.details.command_topics@ =~= seq![w.command_topic]);
            }
            if let Entity::Text(t) = r@[0].entities@[1] {
                assert(t.details.command_topics@ =~= seq![t.command_topic]);
            }
            if let Entity::Text(t) = r@[1].entities@[0] {
                assert(t.details.command_topics@ =~= seq![t.command_topic]);
            }
        }
        r
    }
}

/// The handler of a sample entity: its topics are the entity's, it is random
/// as the provider is, and a toggle starts off.
pub open spec fn sample_handler_of(e: Entity, h: DataHandler, is_random: bool) -> bool {
    match h {
        DataHandler::SampleToggle { state_topic, command_topic, is_random: r, is_on } => {
            &&& state_topic@ == e.details_view().state_topic(None)
            &&& (match e {
                Entity::Light(l) => command_topic == l.command_topic,
                Entity::Switch(s) => command_topic == s.command_topic,
                _ => false,
            })
            &&& r == is_random
            &&& !is_on
        },
        DataHandler::SampleLogText { state_topic, is_random: r } =>
            e is Text && state_topic@ == e.details_view().state_topic(None) && r == is_random,
        DataHandler::SampleMemory { state_topic, attributes_topic, is_random: r } => {
            &&& e is Sensor
            &&& state_topic@ == e.details_view().state_topic(None)
            &&& attributes_topic@ == e.details_view().state_topic(Some(attributes_item()))
            &&& r == is_random
        },
        DataHandler::SampleUptime { state_topic, is_random: r } =>
            e is Sensor && state_topic@ == e.details_view().state_topic(None) && r == is_random,
        _ => false,
    }
}

// ---------------------------------------------------------------- data

/// `rand::random::<u32>()`: a random number; any value may come.
#[verifier::external_body]
fn random_u32() -> (r: u32) {
    rand::random::<u32>()
}

/// `rand::random::<bool>()`: a random flag; either value may come.
#[verifier::external_body]
fn random_bool() -> (r: bool) {
    rand::random::<bool>()
}

/// An ASCII letter or digit, as `rand::distr::Alphanumeric` draws them.
pub open spec fn is_alphanumeric(c: char) -> bool {
    ('A' <= c && c <= 'Z') || ('a' <= c && c <= 'z') || ('0' <= c && c <= '9')
}

/// `rand::rng().sample_iter(rand::distr::Alphanumeric)`, `len` draws taken as
/// characters: a random text of `len` ASCII letters and digits. Which ones
/// come is not stated.
#[verifier::external_body]
fn random_alphanumeric(len: usize) -> (r: String)
    ensures
        r@.len() == len,
        forall|i: int| 0 <= i < r@.len() ==> is_alphanumeric(#[trigger] r@[i]),
{
    rand::Rng::sample_iter(rand::rng(), rand::distr::Alphanumeric).take(len).map(char::from).collect()
}

/// The text of a flag in JSON.
pub open spec fn json_bool(b: bool) -> Seq<char> {
    if b { "true"@ } else { "false"@ }
}

/// The total memory that the sample device reports.
pub const SAMPLE_TOTAL_MEMORY: u32 = 16384u32;

/// The attributes of the sample memory sensor, keys in order.
pub open spec fn memory_attributes_text(used: nat, is_cached: bool) -> Seq<char> {
    "{\"free\":"@ + decimal((SAMPLE_TOTAL_MEMORY - used) as nat) + ",\"is_cached\":"@ + json_bool(is_cached)
        + ",\"manufacture_date\":\"2024-02-07T08:21:56-03:00\",\"manufacturer\":\"Toshiba\",\"total\":16384,\"used\":"@
        + decimal(used) + "}"@
}

/// The attributes of a memory of 16384 with `free` and `used` parts, keys in
/// order.
pub open spec fn memory_attributes_of_parts(free: nat, used: nat, is_cached: bool) -> Seq<char> {
    "{\"free\":"@ + decimal(free) + ",\"is_cached\":"@ + (if is_cached { "true"@ } else { "false"@ })
        + ",\"manufacture_date\":\"2024-02-07T08:21:56-03:00\",\"manufacturer\":\"Toshiba\",\"total\":16384,\"used\":"@
        + decimal(used) + "}"@
}

/// The sample memory attributes split the total of 16384 into its free and
/// used parts: for every memory use, the free part and the used part add up to
/// the total.
pub proof fn lemma_memory_free_and_used_make_the_total(used: nat, is_cached: bool)
    requires
        used <= 16384,
    ensures
        exists|free: nat| free + used == 16384
            && memory_attributes_text(used, is_cached) == #[trigger] memory_attributes_of_parts(free, used, is_cached),
{
    let free: nat = (16384 - used) as nat;
    assert(memory_attributes_text(used, is_cached) == memory_attributes_of_parts(free, used, is_cached));
}

/// The remainder of a division as Rust's `%` gives it: with the sign of the
/// dividend.
pub open spec fn truncated_rem(a: int, b: int) -> int {
    if a >= 0 { a % b } else { -((-a) % b) }
}

/// Whole seconds since the epoch for a reading in milliseconds (rounded down).
pub open spec fn seconds_of_millis(ms: int) -> int {
    ms / 1000
}

/// The data of the sample memory sensor for a memory use.
pub open spec fn memory_data(state_topic: Seq<char>, attributes_topic: Seq<char>, used: nat, is_cached: bool) -> Map<Seq<char>, Seq<char>> {
    Map::<Seq<char>, Seq<char>>::empty()
        .insert(attributes_topic, memory_attributes_text(used, is_cached))
        .insert(state_topic, decimal(used))
}

/// The data of a state entity with one state text.
pub open spec fn state_data(state_topic: Seq<char>, state: Seq<char>) -> Map<Seq<char>, Seq<char>> {
    Map::<Seq<char>, Seq<char>>::empty().insert(state_topic, state)
}

/// The data that a sample handler publishes: fixed values when it is not
/// random; otherwise a memory use between 1024 and 1535 with free memory the
/// rest of 16384, an uptime of the seconds of the current day, a log text of 1
/// to 50 letters and digits, and a toggle either on or off.
pub open spec fn sample_data_ok(h: DataHandler, m: Map<Seq<char>, Seq<char>>) -> bool {
    match h {
        DataHandler::SampleMemory { state_topic, attributes_topic, is_random } =>
            exists|used: nat, is_cached: bool| {
                &&& (if is_random { 1024 <= used < 1536 } else { used == 4096 && is_cached })
                &&& m == #[trigger] memory_data(state_topic@, attributes_topic@, used, is_cached)
            },
        DataHandler::SampleUptime { state_topic, is_random } =>
            exists|uptime: int| {
                &&& (if is_random { -86400 < uptime < 86400 } else { uptime == 2726 })
                &&& m == state_data(state_topic@, #[trigger] signed_decimal(uptime))
            },
        DataHandler::SampleLogText { state_topic, is_random } => {
            &&& m.dom() == set![state_topic@]
            &&& if is_random {
                1 <= m[state_topic@].len() <= 50 && forall|i: int| 0 <= i < m[state_topic@].len() ==> is_alphanumeric(#[trigger] m[state_topic@][i])
            } else {
                m[state_topic@] == "This is a log text"@
            }
        },
        DataHandler::SampleToggle { state_topic, is_random, is_on, .. } =>
            exists|state: bool| {
                &&& (is_random || state == is_on)
                &&& m == state_data(state_topic@, #[trigger] on_off(state))
            },
        _ => false,
    }
}

/// A handler of the sample devices.
pub open spec fn is_sample_handler(h: DataHandler) -> bool {
    h is SampleMemory || h is SampleUptime || h is SampleLogText || h is SampleToggle
}

fn memory_attributes(used: u32, is_cached: bool) -> (r: String)
    requires
        used <= SAMPLE_TOTAL_MEMORY,
    ensures
        r@ == memory_attributes_text(used as nat, is_cached),
{
    let mut t = "{\"free\":".to_owned();
    push_decimal(&mut t, (SAMPLE_TOTAL_MEMORY - used) as u64);
    t.append(",\"is_cached\":");
    t.append(if is_cached { "true" } else { "false" });
    t.append(",\"manufacture_date\":\"2024-02-07T08:21:56-03:00\",\"manufacturer\":\"Toshiba\",\"total\":16384,\"used\":");
    push_decimal(&mut t, used as u64);
    t.append("}");
    proof {
        assert(t@ =~= memory_attributes_text(used as nat, is_cached));
    }
    t
}

/// The seconds since the epoch, by the clock: the clock's reading in
/// milliseconds, rounded down to whole seconds, whatever that reading is.
fn now_seconds() -> (r: i64)
    ensures
        i64::MIN / 1000 <= r <= i64::MAX / 1000,
        exists|ms: i64| #[trigger] seconds_of_millis(ms as int) == r,
{
    let ms = utc_now_millis();
    let s: i64 = if ms >= 0 { ms / 1000 } else { -((-(ms as i128) + 999) / 1000) as i64 };
    assert(seconds_of_millis(ms as int) == s);
    s
}

/// The data of a sample handler; `None` for a handler of another device.
pub fn sample_entity_data(h: &DataHandler) -> (r: Option<TopicMap>)
    ensures
        is_sample_handler(*h) <==> r is Some,
        r matches Some(m) ==> sample_data_ok(*h, m.view()),
{
    match h {
        DataHandler::SampleMemory { state_topic, attributes_topic, is_random } => {
            let used: u32 = if *is_random { 1024 + random_u32() % 512 } else { 4096 };
            let is_cached = if *is_random { random_bool() } else { true };
            let mut m = TopicMap::new();
            m.insert(attributes_topic.clone(), memory_attributes(used, is_cached));
            m.insert(state_topic.clone(), u64_to_string(used as u64));
            proof {
                assert(m.view() == memory_data(state_topic@, attributes_topic@, used as nat, is_cached));
            }
            Some(m)
        },
        DataHandler::SampleUptime { state_topic, is_random } => {
            let uptime: i64 = if *is_random {
                let secs = now_seconds();
                if secs >= 0 { secs % 86400 } else { -((-secs) % 86400) }
            } else {
                2726
            };
            let mut m = TopicMap::new();
            m.insert(state_topic.clone(), i64_to_string(uptime));
            proof {
                assert(m.view() == state_data(state_topic@, signed_decimal(uptime as int)));
            }
            Some(m)
        },
        DataHandler::SampleLogText { state_topic, is_random } => {
            let text = if *is_random {
                let len: usize = (random_u32() % 50) as usize + 1;
                random_alphanumeric(len)
            } else {
                "This is a log text".to_owned()
            };
            let mut m = TopicMap::new();
            m.insert(state_topic.clone(), text);
            proof {
                assert(m.view().dom() =~= set![state_topic@]);
            }
            Some(m)
        },
        DataHandler::SampleToggle { state_topic, is_random, is_on, .. } => {
            let state = if *is_random { random_bool() } else { *is_on };
            let mut m = TopicMap::new();
            m.insert(state_topic.clone(), on_off_text(state));
            proof {
                assert(m.view() == state_data(state_topic@, on_off(state)));
            }
            Some(m)
        },
        _ => None,
    }
}

/// Once a sample toggle has taken a command, it is no longer random and it
/// publishes the state the command set: on for `ON`, off for anything else.
pub proof fn lemma_toggle_publishes_commanded_state(
    state_topic: String,
    command_topic: String,
    payload: Seq<char>,
    m: Map<Seq<char>, Seq<char>>,
)
    requires
        sample_data_ok(DataHandler::SampleToggle { state_topic, command_topic, is_random: false, is_on: payload == "ON"@ }, m),
    ensures
        m == state_data(state_topic@, on_off(payload == "ON"@)),
{
}

/// A sample handler that is not random publishes the same data every time.
pub proof fn lemma_fixed_sample_data_is_stable(h: DataHandler, m1: Map<Seq<char>, Seq<char>>, m2: Map<Seq<char>, Seq<char>>)
    requires
        is_sample_handler(h),
        !(match h {
            DataHandler::SampleMemory { is_random, .. } => is_random,
            DataHandler::SampleUptime { is_random, .. } => is_random,
            DataHandler::SampleLogText { is_random, .. } => is_random,
            DataHandler::SampleToggle { is_random, .. } => is_random,
            _ => true,
        }),
        sample_data_ok(h, m1),
        sample_data_ok(h, m2),
    ensures
        m1 == m2,
{
    match h {
        DataHandler::SampleLogText { state_topic, .. } => {
            assert(m1 =~= m2);
        },
        _ => {},
    }
}

} // verus!
