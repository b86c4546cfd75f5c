//! A device: the identity Home Assistant shows, its entities, and the topics
//! and discovery document that announce it.

use vstd::prelude::*;
use vstd::string::*;
use crate::entities::Entity;
use crate::entity_details::{EntityDetails, EntityDetailsGetter};
use crate::json::{JsonObject, FieldView};
use crate::strings::str_eq;
use crate::handlers::{DataHandler, HandlerOutcome, handles_topic, on_off};

verus! {

/// The identity of a device in Home Assistant.
#[derive(Debug, PartialEq)]
pub struct DeviceDetails {
    pub name: String,
    pub identifier: String,
    pub manufacturer: String,
    pub sw_version: String,
    pub via_device: Option<String>,
}

/// A copy of an optional string.
pub fn clone_opt_string(o: &Option<String>) -> (r: Option<String>)
    ensures
        r == *o,
{
    match o {
        Some(s) => Some(s.clone()),
        None => None,
    }
}

impl Clone for DeviceDetails {
    fn clone(&self) -> (r: Self)
        ensures
            r == *self,
    {
        DeviceDetails {
            name: self.name.clone(),
            identifier: self.identifier.clone(),
            manufacturer: self.manufacturer.clone(),
            sw_version: self.sw_version.clone(),
            via_device: clone_opt_string(&self.via_device),
        }
    }
}

/// The software that announces a device.
#[derive(Debug, PartialEq)]
pub struct DeviceOrigin {
    pub name: String,
    pub sw: String,
    pub url: String,
}

impl Clone for DeviceOrigin {
    fn clone(&self) -> (r: Self)
        ensures
            r == *self,
    {
        DeviceOrigin { name: self.name.clone(), sw: self.sw.clone(), url: self.url.clone() }
    }
}

/// The version of this software, as devices report it.
pub open spec fn software_version() -> Seq<char> {
    "0.1.0"@
}

/// The maker that devices report.
pub open spec fn manufacturer_name() -> Seq<char> {
    "Giovanni Bassi"@
}

/// The details of a device of this software named `name` with the identifier
/// `identifier`, shown through `via_device` when it has one.
pub fn project_device_details(name: String, identifier: String, via_device: Option<String>) -> (r: DeviceDetails)
    ensures
        r.name == name,
        r.identifier == identifier,
        r.manufacturer@ == manufacturer_name(),
        r.sw_version@ == software_version(),
        r.via_device == via_device,
{
    DeviceDetails {
        name,
        identifier,
        manufacturer: "Giovanni Bassi".to_owned(),
        sw_version: "0.1.0".to_owned(),
        via_device,
    }
}

/// The origin that devices of this software report.
pub fn project_origin() -> (r: DeviceOrigin)
    ensures
        r.name@ == "docker-status-mqtt"@,
        r.sw@ == software_version(),
        r.url@ == "https://github.com/giggio/docker-status-mqtt"@,
{
    DeviceOrigin {
        name: "docker-status-mqtt".to_owned(),
        sw: "0.1.0".to_owned(),
        url: "https://github.com/giggio/docker-status-mqtt".to_owned(),
    }
}

/// A device with its entities.
#[derive(Debug)]
pub struct Device {
    pub details: DeviceDetails,
    pub origin: DeviceOrigin,
    pub entities: Vec<Entity>,
    pub data_handlers: Vec<DataHandler>,
    pub availability_topic: String,
    pub provider_id: String,
    pub metadata: Vec<String>,
}

/// The command topics of a list of entities, entity after entity.
pub open spec fn entities_command_topics(es: Seq<Entity>) -> Seq<String>
    decreases es.len(),
{
    if es.len() == 0 {
        Seq::empty()
    } else {
        entities_command_topics(es.drop_last()) + es.last().details_view().command_topics@
    }
}

/// The components of a discovery document: each entity's document under its
/// id, a later entity replacing an earlier one of the same id.
pub open spec fn components_view(es: Seq<Entity>, device_identifier: Seq<char>, availability_topic: Seq<char>) -> Map<Seq<char>, Map<Seq<char>, FieldView>>
    decreases es.len(),
{
    if es.len() == 0 {
        Map::empty()
    } else {
        components_view(es.drop_last(), device_identifier, availability_topic).insert(
            es.last().details_view().id@,
            es.last().json_view(device_identifier, availability_topic),
        )
    }
}

/// The components that a list of writes leaves.
pub open spec fn component_writes_map(s: Seq<(String, JsonObject)>) -> Map<Seq<char>, Map<Seq<char>, FieldView>>
    decreases s.len(),
{
    if s.len() == 0 {
        Map::empty()
    } else {
        component_writes_map(s.drop_last()).insert(s.last().0@, s.last().1.view())
    }
}

/// The discovery document of a device.
#[derive(Debug)]
pub struct DeviceDiscovery {
    pub device: DeviceDetails,
    pub origin: DeviceOrigin,
    pub availability_topic: String,
    /// The entities' documents under their ids, a later write replacing an earlier one.
    pub components: Vec<(String, JsonObject)>,
}

impl DeviceDiscovery {
    /// The components as a map from entity ids to documents.
    pub open spec fn components_view(&self) -> Map<Seq<char>, Map<Seq<char>, FieldView>> {
        component_writes_map(self.components@)
    }
}

/// `i` is the first handler that takes commands sent to `topic`.
pub open spec fn is_first_handler(hs: Seq<DataHandler>, topic: Seq<char>, i: int) -> bool {
    &&& 0 <= i < hs.len()
    &&& handles_topic(hs[i], topic)
    &&& forall|j: int| 0 <= j < i ==> !handles_topic(#[trigger] hs[j], topic)
}

/// A handler once the logs of the device were asked for.
pub open spec fn with_logs_requested(h: DataHandler) -> DataHandler {
    match h {
        DataHandler::ContainerLogs { state_topic, container_name, .. } =>
            DataHandler::ContainerLogs { state_topic, container_name, should_get_logs: true },
        _ => h,
    }
}

/// What the first handler of a command makes of it, and the handlers after it.
pub open spec fn command_taken(hs: Seq<DataHandler>, i: int, payload: Seq<char>, r: HandlerOutcome, after: Seq<DataHandler>) -> bool {
    match hs[i] {
        DataHandler::SampleToggle { state_topic, command_topic, .. } => {
            &&& after == hs.update(i, DataHandler::SampleToggle { state_topic, command_topic, is_random: false, is_on: payload == "ON"@ })
            &&& r matches HandlerOutcome::Handled(Some(m)) && m.view() == Map::<Seq<char>, Seq<char>>::empty().insert(state_topic@, on_off(payload == "ON"@))
        },
        DataHandler::GetLogsButton { .. } => {
            &&& after == hs.map_values(|h: DataHandler| with_logs_requested(h))
            &&& r matches HandlerOutcome::Handled(None)
        },
        DataHandler::ContainerButton { container_name, action, .. } => {
            &&& after == hs
            &&& r matches HandlerOutcome::Container(a, n) && a == action && n == container_name
        },
        _ => false,
    }
}

/// What handling a command on `topic` with `payload` does to a device `d`,
/// giving `r` and leaving `d2`: only the data handlers may change; when none of
/// them takes commands on `topic` nothing changes, and otherwise the first one
/// that does handles it.
pub open spec fn device_command(d: Device, topic: Seq<char>, payload: Seq<char>, r: HandlerOutcome, d2: Device) -> bool {
    &&& d2.details == d.details
    &&& d2.origin == d.origin
    &&& d2.entities == d.entities
    &&& d2.availability_topic == d.availability_topic
    &&& d2.provider_id == d.provider_id
    &&& d2.metadata == d.metadata
    &&& (r is NotHandled <==> no_handler_for(d, topic))
    &&& r is NotHandled ==> d2.data_handlers == d.data_handlers
    &&& !(r is NotHandled) ==> exists|i: int| is_first_handler(d.data_handlers@, topic, i)
            && command_taken(d.data_handlers@, i, payload, r, d2.data_handlers@)
}

/// No data handler of a device takes commands on `topic`.
pub open spec fn no_handler_for(d: Device, topic: Seq<char>) -> bool {
    forall|j: int| 0 <= j < d.data_handlers@.len() ==> !handles_topic(#[trigger] d.data_handlers@[j], topic)
}

impl Device {
    /// A device without entities or metadata.
    pub fn new(details: DeviceDetails, origin: DeviceOrigin, availability_topic: String, provider_id: String) -> (r: Self)
        ensures
            r.details == details,
            r.origin == origin,
            r.availability_topic == availability_topic,
            r.provider_id == provider_id,
            r.entities@.len() == 0,
            r.data_handlers@.len() == 0,
            r.metadata@.len() == 0,
    {
        Device { details, origin, entities: Vec::new(), data_handlers: Vec::new(), availability_topic, provider_id, metadata: Vec::new() }
    }

    /// A device with the given entities and data handlers, and no metadata.
    pub fn new_with_entities(
        details: DeviceDetails,
        origin: DeviceOrigin,
        availability_topic: String,
        entities: Vec<Entity>,
        data_handlers: Vec<DataHandler>,
        provider_id: String,
    ) -> (r: Self)
        ensures
            r.details == details,
            r.origin == origin,
            r.availability_topic == availability_topic,
            r.provider_id == provider_id,
            r.entities == entities,
            r.data_handlers == data_handlers,
            r.metadata@.len() == 0,
    {
        Device { details, origin, entities, data_handlers, availability_topic, provider_id, metadata: Vec::new() }
    }

    /// This device with the given metadata.
    pub fn with_metadata(self, metadata: Vec<String>) -> (r: Self)
        ensures
            r.metadata == metadata,
            r.details == self.details,
            r.origin == self.origin,
            r.availability_topic == self.availability_topic,
            r.provider_id == self.provider_id,
            r.entities == self.entities,
            r.data_handlers == self.data_handlers,
    {
        let mut s = self;
        s.metadata = metadata;
        s
    }

    /// Whether the metadata of this device holds `item`.
    pub fn has_metadata(&self, item: &str) -> (r: bool)
        ensures
            r == exists|i: int| 0 <= i < self.metadata@.len() && #[trigger] self.metadata@[i]@ == item@,
    {
        let mut i: usize = 0;
        while i < self.metadata.len()
            invariant
                i <= self.metadata@.len(),
                forall|j: int| 0 <= j < i ==> #[trigger] self.metadata@[j]@ != item@,
            decreases self.metadata@.len() - i,
        {
            if str_eq(self.metadata[i].as_str(), item) {
                return true;
            }
            i += 1;
        }
        false
    }

    /// The command topics of all entities, entity after entity.
    pub fn command_topics(&self) -> (r: Vec<String>)
        ensures
            r@ == entities_command_topics(self.entities@),
    {
        let mut all: Vec<String> = Vec::new();
        let mut i: usize = 0;
        while i < self.entities.len()
            invariant
                i <= self.entities@.len(),
                all@ == entities_command_topics(self.entities@.subrange(0, i as int)),
            decreases self.entities@.len() - i,
        {
            let details = self.entities[i].details();
            let ghost before = all@;
            let mut j: usize = 0;
            while j < details.command_topics.len()
                invariant
                    j <= details.command_topics@.len(),
                    all@ == before + details.command_topics@.subrange(0, j as int),
                decreases details.command_topics@.len() - j,
            {
                all.push(details.command_topics[j].clone());
                proof {
                    assert(details.command_topics@.subrange(0, j + 1) =~= details.command_topics@.subrange(0, j as int).push(details.command_topics@[j as int]));
                }
                j += 1;
            }
            proof {
                assert(details.command_topics@.subrange(0, j as int) =~= details.command_topics@);
                assert(self.entities@.subrange(0, i + 1).drop_last() =~= self.entities@.subrange(0, i as int));
            }
            i += 1;
        }
        proof {
            assert(self.entities@.subrange(0, i as int) =~= self.entities@);
        }
        all
    }

    /// The availability topic of this device.
    pub fn availability_topic(&self) -> (r: String)
        ensures
            r == self.availability_topic,
    {
        self.availability_topic.clone()
    }

    /// The discovery topic of this device: `<prefix>/device/<identifier>/config`.
    pub fn discovery_topic(&self, discovery_prefix: &str) -> (r: String)
        ensures
            r@ == discovery_prefix@ + "/device/"@ + self.details.identifier@ + "/config"@,
    {
        let mut r = discovery_prefix.to_owned();
        r.append("/device/");
        r.append(self.details.identifier.as_str());
        r.append("/config");
        r
    }

    /// Handles a command sent to `topic`: the first data handler that takes
    /// commands on `topic` handles it; when none does, nothing changes. The
    /// logs button asks for the logs of the device, and is then done.
    pub fn handle_command(&mut self, topic: &str, payload: &str) -> (r: HandlerOutcome)
        ensures
            device_command(*old(self), topic@, payload@, r, *final(self)),
    {
        let mut i: usize = 0;
        while i < self.data_handlers.len()
            invariant
                i <= self.data_handlers@.len(),
                self.data_handlers == old(self).data_handlers,
                self.details == old(self).details,
                self.origin == old(self).origin,
                self.entities == old(self).entities,
                self.availability_topic == old(self).availability_topic,
                self.provider_id == old(self).provider_id,
                self.metadata == old(self).metadata,
                forall|j: int| 0 <= j < i ==> !handles_topic(#[trigger] self.data_handlers@[j], topic@),
            decreases self.data_handlers@.len() - i,
        {
            if self.data_handlers[i].handles(topic) {
                let ghost hs = self.data_handlers@;
                let outcome = self.data_handlers[i].handle_command(topic, payload);
                match outcome {
                    HandlerOutcome::LogsRequested => {
                        proof {
                            assert(self.data_handlers@ =~= hs);
                        }
                        self.request_logs();
                        let r = HandlerOutcome::Handled(None);
                        proof {
                            assert(is_first_handler(hs, topic@, i as int));
                            assert(command_taken(hs, i as int, payload@, r, self.data_handlers@));
                        }
                        return r;
                    },
                    _ => {
                        proof {
                            assert(is_first_handler(hs, topic@, i as int));
                            assert(self.data_handlers@ =~= hs.update(i as int, self.data_handlers@[i as int]));
                            if hs[i as int] is ContainerButton {
                                assert(self.data_handlers@ =~= hs);
                            }
                            assert(command_taken(hs, i as int, payload@, outcome, self.data_handlers@));
                        }
                        return outcome;
                    },
                }
            }
            i += 1;
        }
        HandlerOutcome::NotHandled
    }

    /// Asks for the logs of this device: every logs handler will fetch them.
    fn request_logs(&mut self)
        ensures
            final(self).data_handlers@ == old(self).data_handlers@.map_values(|h: DataHandler| with_logs_requested(h)),
            final(self).details == old(self).details,
            final(self).origin == old(self).origin,
            final(self).entities == old(self).entities,
            final(self).availability_topic == old(self).availability_topic,
            final(self).provider_id == old(self).provider_id,
            final(self).metadata == old(self).metadata,
    {
        let mut i: usize = 0;
        while i < self.data_handlers.len()
            invariant
                i <= self.data_handlers@.len(),
                self.data_handlers@.len() == old(self).data_handlers@.len(),
                forall|j: int| 0 <= j < i ==> self.data_handlers@[j] == with_logs_requested(#[trigger] old(self).data_handlers@[j]),
                forall|j: int| i <= j < self.data_handlers@.len() ==> self.data_handlers@[j] == #[trigger] old(self).data_handlers@[j],
                self.details == old(self).details,
                self.origin == old(self).origin,
                self.entities == old(self).entities,
                self.availability_topic == old(self).availability_topic,
                self.provider_id == old(self).provider_id,
                self.metadata == old(self).metadata,
            decreases self.data_handlers@.len() - i,
        {
            self.data_handlers[i].request_logs();
            i += 1;
        }
        proof {
            assert(self.data_handlers@ =~= old(self).data_handlers@.map_values(|h: DataHandler| with_logs_requested(h)));
        }
    }

    /// The discovery document of this device: its identity, origin and
    /// availability topic, and each entity's document under the entity's id.
    pub fn json_for_discovery(&self) -> (r: DeviceDiscovery)
        ensures
            r.device == self.details,
            r.origin == self.origin,
            r.availability_topic == self.availability_topic,
            r.components_view() == components_view(self.entities@, self.details.identifier@, self.availability_topic@),
    {
        let mut components: Vec<(String, JsonObject)> = Vec::new();
        let mut i: usize = 0;
        while i < self.entities.len()
            invariant
                i <= self.entities@.len(),
                component_writes_map(components@) == components_view(self.entities@.subrange(0, i as int), self.details.identifier@, self.availability_topic@),
            decreases self.entities@.len() - i,
        {
            let entity = &self.entities[i];
            let json = entity.json_for_discovery(self);
            let id = entity.details().id.clone();
            let ghost before = components@;
            components.push((id, json));
            proof {
                assert(components@.drop_last() =~= before);
                assert(self.entities@.subrange(0, i + 1).drop_last() =~= self.entities@.subrange(0, i as int));
            }
            i += 1;
        }
        proof {
            assert(self.entities@.subrange(0, i as int) =~= self.entities@);
        }
        DeviceDiscovery {
            device: self.details.clone(),
            origin: self.origin.clone(),
            availability_topic: self.availability_topic(),
            components,
        }
    }
}

} // verus!
