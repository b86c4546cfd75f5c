//! The devices of a Docker host: one device for the host, with its version,
//! disk usage and networks, and one device per container, with its logs,
//! memory and CPU use, state, image and the buttons that act on it.

use vstd::prelude::*;
use vstd::string::*;
use crate::container_data::DiskFreeTopics;
use crate::device::{Device, project_device_details, project_origin};
use crate::devices::{Devices, devices_map_of, keys_match};
use crate::docker::{ContainerStatusTopics, container_identifier, container_identifier_of, trim_container_name, trim_start, listed, removable, missing_device_ids, new_container_indices};
use crate::entities::{Button, Entity, Sensor, entity_named};
use crate::entity_details::{EntityDetails, EntityDetailsGetter, attributes_item};
use crate::handlers::{ContainerAction, DataHandler, Debounce};
use crate::helpers::{slugify, slug_of, dashes_to_underscores};
use crate::strings::IntoText;

verus! {

/// What the engine lists about a container that its device is made from.
#[derive(Debug, Clone, PartialEq)]
pub struct ContainerInfo {
    pub id: Option<String>,
    pub names: Option<Vec<String>>,
    pub image: Option<String>,
}

/// The metadata that marks the host device.
pub open spec fn host_device_metadata() -> Seq<char> {
    "host_device"@
}

/// The time window of the disk usage and network entities: one hour.
pub const HOST_DATA_WINDOW_MILLIS: i64 = 3_600_000i64;

/// The first name of a container, when it has one.
pub open spec fn first_name(c: ContainerInfo) -> Option<Seq<char>> {
    match c.names {
        Some(names) => if names@.len() > 0 { Some(names@[0]@) } else { None },
        None => None,
    }
}

/// The image of a container, empty when the engine did not tell it.
pub open spec fn image_of(c: ContainerInfo) -> Seq<char> {
    match c.image {
        Some(i) => i@,
        None => Seq::empty(),
    }
}

/// The containers that have a name, with that name and their image, in order.
pub open spec fn named_containers(cs: Seq<ContainerInfo>) -> Seq<(Seq<char>, Seq<char>)>
    decreases cs.len(),
{
    if cs.len() == 0 {
        Seq::empty()
    } else {
        let rest = named_containers(cs.drop_last());
        match first_name(cs.last()) {
            Some(n) => rest.push((n, image_of(cs.last()))),
            None => rest,
        }
    }
}

/// The command topic of a button entity.
pub open spec fn button_command_topic(e: Entity) -> Option<String> {
    match e {
        Entity::Button(b) => Some(b.command_topic),
        _ => None,
    }
}

/// The entities of a container device: logs, the logs button, used memory and
/// CPUs, status, image, the restart, start, stop and remove buttons, and health.
pub open spec fn container_entities_ok(es: Seq<Entity>, id: Seq<char>) -> bool {
    &&& es.len() == 11
    &&& es[0] is Sensor && entity_named(es[0], "Logs"@, id)
    &&& es[1] is Button && entity_named(es[1], "Get Logs"@, id)
    &&& es[2] is Sensor && entity_named(es[2], "Used Memory"@, id)
    &&& es[3] is Sensor && entity_named(es[3], "Used CPUs"@, id)
    &&& es[4] is Sensor && entity_named(es[4], "Status"@, id)
    &&& es[5] is Sensor && entity_named(es[5], "Image"@, id)
    &&& es[6] matches Entity::Button(b) && entity_named(es[6], "Restart"@, id) && b.can_be_made_unavailable
    &&& es[7] matches Entity::Button(b) && entity_named(es[7], "Start"@, id) && b.can_be_made_unavailable
    &&& es[8] matches Entity::Button(b) && entity_named(es[8], "Stop"@, id) && b.can_be_made_unavailable
    &&& es[9] matches Entity::Button(b) && entity_named(es[9], "Remove"@, id) && !b.can_be_made_unavailable
    &&& es[10] is Sensor && entity_named(es[10], "Health"@, id)
}

/// The button of a container device at `i` acts with `action` on the container.
pub open spec fn action_handler_ok(es: Seq<Entity>, h: DataHandler, i: int, action: ContainerAction, name: Seq<char>) -> bool {
    h matches DataHandler::ContainerButton { command_topic, container_name, action: a }
        && button_command_topic(es[i]) == Some(command_topic) && container_name@ == name && a == action
}

/// The handlers of a container device, on the topics of its entities.
pub open spec fn container_handlers_ok(es: Seq<Entity>, hs: Seq<DataHandler>, name: Seq<char>, image: Seq<char>) -> bool {
    &&& hs.len() == 9
    &&& hs[0] matches DataHandler::ContainerLogs { state_topic, container_name, should_get_logs }
        && state_topic@ == es[0].details_view().state_topic(None) && container_name@ == name && !should_get_logs
    &&& hs[1] matches DataHandler::GetLogsButton { command_topic } && button_command_topic(es[1]) == Some(command_topic)
    &&& hs[2] matches DataHandler::ContainerStats { used_memory_state_topic, used_cpu_state_topic, container_name }
        && used_memory_state_topic@ == es[2].details_view().state_topic(None)
        && used_cpu_state_topic@ == es[3].details_view().state_topic(None)
        && container_name@ == name
    &&& hs[3] matches DataHandler::ContainerStatus { topics, container_name }
        && topics.state_topic@ == es[4].details_view().state_topic(None)
        && topics.health_topic@ == es[10].details_view().state_topic(None)
        && topics.restart_button_availability_topic@ == es[6].details_view().availability_topic(None)
        && topics.start_button_availability_topic@ == es[7].details_view().availability_topic(None)
        && topics.stop_button_availability_topic@ == es[8].details_view().availability_topic(None)
        && container_name@ == name
    &&& action_handler_ok(es, hs[4], 6, ContainerAction::Restart, name)
    &&& action_handler_ok(es, hs[5], 7, ContainerAction::Start, name)
    &&& action_handler_ok(es, hs[6], 8, ContainerAction::Stop, name)
    &&& action_handler_ok(es, hs[7], 9, ContainerAction::Remove, name)
    &&& hs[8] matches DataHandler::ContainerImage { image_topic, image: i }
        && image_topic@ == es[5].details_view().state_topic(None) && i@ == image
}

/// The device of a container named `name` (as the engine gives it) made from
/// `image`, shown through the host device `host_id`.
pub open spec fn container_device_ok(d: Device, name: Seq<char>, image: Seq<char>, host_id: Seq<char>, availability_topic: Seq<char>, provider_id: Seq<char>) -> bool {
    &&& d.details.name@ == trim_start(name, '/')
    &&& d.details.identifier@ == container_identifier_of(name)
    &&& d.details.via_device matches Some(v) && v@ == host_id
    &&& d.availability_topic@ == availability_topic
    &&& d.provider_id@ == provider_id
    &&& d.metadata@.len() == 0
    &&& container_entities_ok(d.entities@, container_identifier_of(name))
    &&& container_handlers_ok(d.entities@, d.data_handlers@, trim_start(name, '/'), image)
}

/// The provider of the devices of a Docker host, named after the host.
#[derive(Debug, Clone, PartialEq)]
pub struct DockerDeviceProvider {
    pub provider_name: String,
}

fn action_button(id: &String, name: &str, icon: &str, can_be_made_unavailable: bool) -> (r: Button)
    ensures
        r.details.name@ == name@,
        r.details.device_identifier@ == id@,
        r.details.id@ == dashes_to_underscores(slug_of(name@)),
        r.can_be_made_unavailable == can_be_made_unavailable,
        r.command_topic@ == r.details.command_topic(None),
        r.details.command_topics@ == seq![r.command_topic],
{
    let b = Button::new(id.clone(), name, icon);
    if can_be_made_unavailable { b.can_be_made_unavailable() } else { b }
}

impl DockerDeviceProvider {
    /// The provider of the host named `provider_name`.
    pub fn new<A: IntoText>(provider_name: A) -> (r: Self)
        ensures
            r.provider_name@ == provider_name.text_view(),
    {
        DockerDeviceProvider { provider_name: provider_name.into_text() }
    }

    /// The identifier of this provider: its name.
    pub fn id(&self) -> (r: String)
        ensures
            r == self.provider_name,
    {
        self.provider_name.clone()
    }

    /// The identifier of the host device.
    pub fn host_identifier(&self) -> (r: String)
        ensures
            r@ == dashes_to_underscores(slug_of(self.provider_name@)),
    {
        slugify(self.provider_name.as_str())
    }

    /// The device of a container named `name` (as the engine gives it, with
    /// its leading `/`) made from `image`.
    pub fn container_device(&self, name: &String, image: String, host_identifier: &String, availability_topic: &String) -> (r: Device)
        ensures
            container_device_ok(r, name@, image@, host_identifier@, availability_topic@, self.provider_name@),
    {
        let container_name = trim_container_name(name.as_str());
        let id = container_identifier(name.as_str());
        let log_text = Sensor::new_simple(id.clone(), "Logs", "mdi:script-text-outline");
        let get_logs_button = Button::new(id.clone(), "Get Logs", "mdi:script-text-play-outline");
        let used_memory = Sensor::new(id.clone(), "Used Memory", "mdi:memory", "KiB", "data_size");
        let used_cpus = Sensor::new_with_details(EntityDetails::new(id.clone(), "Used CPUs", "mdi:chip"), Some("%".to_owned()), None);
        let restart_button = action_button(&id, "Restart", "mdi:restart", true);
        let start_button = action_button(&id, "Start", "mdi:play", true);
        let stop_button = action_button(&id, "Stop", "mdi:stop", true);
        let remove_button = action_button(&id, "Remove", "mdi:delete", false);
        let health = Sensor::new_with_details(EntityDetails::new(id.clone(), "Health", "mdi:medication-outline"), None, None);
        let status = Sensor::new_with_details(EntityDetails::new_without_icon(id.clone(), "Status"), None, None);
        let image_entity = Sensor::new_with_details(EntityDetails::new(id.clone(), "Image", "mdi:oci"), None, None);
        let handlers = vec![
            DataHandler::ContainerLogs {
                state_topic: log_text.details.get_topic_for_state(None),
                container_name: container_name.clone(),
                should_get_logs: false,
            },
            DataHandler::GetLogsButton { command_topic: get_logs_button.command_topic.clone() },
            DataHandler::ContainerStats {
                used_memory_state_topic: used_memory.details.get_topic_for_state(None),
                used_cpu_state_topic: used_cpus.details.get_topic_for_state(None),
                container_name: container_name.clone(),
            },
            DataHandler::ContainerStatus {
                topics: ContainerStatusTopics {
                    state_topic: status.details.get_topic_for_state(None),
                    health_topic: health.details.get_topic_for_state(None),
                    start_button_availability_topic: start_button.details.get_topic_for_availability(None),
                    restart_button_availability_topic: restart_button.details.get_topic_for_availability(None),
                    stop_button_availability_topic: stop_button.details.get_topic_for_availability(None),
                },
                container_name: container_name.clone(),
            },
            DataHandler::ContainerButton {
                command_topic: restart_button.command_topic.clone(),
                container_name: container_name.clone(),
                action: ContainerAction::Restart,
            },
            DataHandler::ContainerButton {
                command_topic: start_button.command_topic.clone(),
                container_name: container_name.clone(),
                action: ContainerAction::Start,
            },
            DataHandler::ContainerButton {
                command_topic: stop_button.command_topic.clone(),
                container_name: container_name.clone(),
                action: ContainerAction::Stop,
            },
            DataHandler::ContainerButton {
                command_topic: remove_button.command_topic.clone(),
                container_name: container_name.clone(),
                action: ContainerAction::Remove,
            },
            DataHandler::ContainerImage { image_topic: image_entity.details.get_topic_for_state(None), image },
        ];
        let entities = vec![
            Entity::Sensor(log_text),
            Entity::Button(get_logs_button),
            Entity::Sensor(used_memory),
            Entity::Sensor(used_cpus),
            Entity::Sensor(status),
            Entity::Sensor(image_entity),
            Entity::Button(restart_button),
            Entity::Button(start_button),
            Entity::Button(stop_button),
            Entity::Button(remove_button),
            Entity::Sensor(health),
        ];
        let d = Device::new_with_entities(
            project_device_details(container_name, id, Some(host_identifier.clone())),
            project_origin(),
            availability_topic.clone(),
            entities,
            handlers,
            self.id(),
        );
        proof {
            let es = d.entities@;
            if let Entity::Button(b) = es[1] {
                assert(b.details.command_topics@ =~= seq![b.command_topic]);
            }
            assert(container_entities_ok(d.entities@, container_identifier_of(name@)));
            assert(container_handlers_ok(d.entities@, d.data_handlers@, trim_start(name@, '/'), image@));
        }
        d
    }

    /// The devices of the containers that have a name, in order, shown
    /// through the host device.
    pub fn create_container_devices(&self, containers: &Vec<ContainerInfo>, host_identifier: &String, availability_topic: &String) -> (r: Vec<Device>)
        ensures
            r@.len() == named_containers(containers@).len(),
            forall|i: int| 0 <= i < r@.len() ==> container_device_ok(#[trigger] r@[i], named_containers(containers@)[i].0,
                named_containers(containers@)[i].1, host_identifier@, availability_topic@, self.provider_name@),
    {
        let mut r: Vec<Device> = Vec::new();
        let mut i: usize = 0;
        while i < containers.len()
            invariant
                i <= containers@.len(),
                r@.len() == named_containers(containers@.subrange(0, i as int)).len(),
                forall|j: int| 0 <= j < r@.len() ==> container_device_ok(#[trigger] r@[j], named_containers(containers@.subrange(0, i as int))[j].0,
                    named_containers(containers@.subrange(0, i as int))[j].1, host_identifier@, availability_topic@, self.provider_name@),
            decreases containers@.len() - i,
        {
            let ghost before = r@;
            let c = &containers[i];
            let name: Option<&String> = match &c.names {
                Some(names) => if names.len() > 0 { Some(&names[0]) } else { None },
                None => None,
            };
            proof {
                assert(containers@.subrange(0, i + 1).drop_last() =~= containers@.subrange(0, i as int));
                assert(containers@.subrange(0, i + 1).last() == containers@[i as int]);
            }
            match name {
                Some(n) => {
                    let image = match &c.image {
                        Some(im) => im.clone(),
                        None => String::new(),
                    };
                    let d = self.container_device(n, image, host_identifier, availability_topic);
                    r.push(d);
                    proof {
                        let named = named_containers(containers@.subrange(0, i + 1));
                        assert forall|j: int| 0 <= j < r@.len() implies container_device_ok(#[trigger] r@[j], named[j].0,
                            named[j].1, host_identifier@, availability_topic@, self.provider_name@) by {
                            if j < before.len() {
                                assert(r@[j] == before[j]);
                            }
                        }
                    }
                },
                None => {},
            }
            i += 1;
        }
        proof {
            assert(containers@.subrange(0, i as int) =~= containers@);
        }
        r
    }

    /// The device of the host: its container count, engine version, images,
    /// volumes, build cache and networks; the disk usage and networks are
    /// published at most once an hour.
    pub fn host_device(&self, availability_topic: &String) -> (r: Device)
        ensures
            host_device_ok(r, self.provider_name@, availability_topic@),
    {
        let host = self.host_identifier();
        let host_version = Sensor::new_simple(host.clone(), "Host version", "mdi:docker");
        let images = Sensor::new_with_details(EntityDetails::new(host.clone(), "Images", "mdi:oci").has_attributes(), None, None);
        let volumes = Sensor::new_with_details(EntityDetails::new(host.clone(), "Volumes", "mdi:harddisk").has_attributes(), None, None);
        let build_cache = Sensor::new_with_details(EntityDetails::new(host.clone(), "Build cache", "mdi:sync-circle").has_attributes(), None, None);
        let containers = Sensor::new_with_details(
            EntityDetails::new(host.clone(), "Total containers", "mdi:truck-cargo-container").has_attributes(), None, None);
        let networks = Sensor::new_with_details(EntityDetails::new(host.clone(), "Networks", "mdi:network").has_attributes(), None, None);
        proof {
            reveal_strlit("attributes");
            assert("attributes"@ == attributes_item());
        }
        let handlers = vec![
            DataHandler::HostVersion { state_topic: host_version.details.get_topic_for_state(None) },
            DataHandler::DiskFree {
                topics: DiskFreeTopics {
                    images_state_topic: images.details.get_topic_for_state(None),
                    images_attributes_state_topic: images.details.get_topic_for_state(Some("attributes")),
                    volumes_state_topic: volumes.details.get_topic_for_state(None),
                    volumes_attributes_state_topic: volumes.details.get_topic_for_state(Some("attributes")),
                    build_cache_state_topic: build_cache.details.get_topic_for_state(None),
                    build_cache_attributes_state_topic: build_cache.details.get_topic_for_state(Some("attributes")),
                    number_of_containers_state_topic: containers.details.get_topic_for_state(None),
                    number_of_containers_attributes_state_topic: containers.details.get_topic_for_state(Some("attributes")),
                },
                debounce: Debounce::new(HOST_DATA_WINDOW_MILLIS),
            },
            DataHandler::NetworkInfo {
                state_topic: networks.details.get_topic_for_state(None),
                attributes_topic: networks.details.get_topic_for_state(Some("attributes")),
                debounce: Debounce::new(HOST_DATA_WINDOW_MILLIS),
            },
        ];
        let entities = vec![
            Entity::Sensor(containers),
            Entity::Sensor(host_version),
            Entity::Sensor(images),
            Entity::Sensor(volumes),
            Entity::Sensor(build_cache),
            Entity::Sensor(networks),
        ];
        let d = Device::new_with_entities(
            project_device_details(self.provider_name.clone(), host, None),
            project_origin(),
            availability_topic.clone(),
            entities,
            handlers,
            self.id(),
        );
        let d = d.with_metadata(vec!["host_device".to_owned()]);
        proof {
            assert(host_device_ok(d, self.provider_name@, availability_topic@));
        }
        d
    }

    /// The devices of the host and its containers: the container devices, then
    /// the host device, by identifier (a later one replacing an earlier one).
    pub fn get_devices(&self, containers: &Vec<ContainerInfo>, availability_topic: &String) -> (r: Devices)
        ensures
            r.wf(),
            exists|ds: Seq<Device>| {
                &&& ds.len() == named_containers(containers@).len() + 1
                &&& forall|i: int| 0 <= i < ds.len() - 1 ==> container_device_ok(#[trigger] ds[i], named_containers(containers@)[i].0,
                    named_containers(containers@)[i].1, dashes_to_underscores(slug_of(self.provider_name@)), availability_topic@, self.provider_name@)
                &&& host_device_ok(ds.last(), self.provider_name@, availability_topic@)
                &&& r.view() == #[trigger] devices_map_of(ds)
            },
    {
        let host = self.host_identifier();
        let mut devices = self.create_container_devices(containers, &host, availability_topic);
        let ghost cds = devices@;
        devices.push(self.host_device(availability_topic));
        let ghost ds = devices@;
        let r = Devices::new_from_many_devices(devices);
        proof {
            assert forall|i: int| 0 <= i < ds.len() - 1 implies container_device_ok(#[trigger] ds[i], named_containers(containers@)[i].0,
                named_containers(containers@)[i].1, dashes_to_underscores(slug_of(self.provider_name@)), availability_topic@, self.provider_name@) by {
                assert(ds[i] == cds[i]);
            }
        }
        r
    }
}

/// The host device of the provider named `provider_name`.
pub open spec fn host_device_ok(d: Device, provider_name: Seq<char>, availability_topic: Seq<char>) -> bool {
    let id = dashes_to_underscores(slug_of(provider_name));
    let es = d.entities@;
    let hs = d.data_handlers@;
    &&& d.details.name@ == provider_name
    &&& d.details.identifier@ == id
    &&& d.details.via_device is None
    &&& d.availability_topic@ == availability_topic
    &&& d.provider_id@ == provider_name
    &&& d.metadata@.len() == 1 && d.metadata@[0]@ == host_device_metadata()
    &&& es.len() == 6
    &&& es[0] is Sensor && entity_named(es[0], "Total containers"@, id) && es[0].details_view().has_attributes
    &&& es[1] is Sensor && entity_named(es[1], "Host version"@, id)
    &&& es[2] is Sensor && entity_named(es[2], "Images"@, id) && es[2].details_view().has_attributes
    &&& es[3] is Sensor && entity_named(es[3], "Volumes"@, id) && es[3].details_view().has_attributes
    &&& es[4] is Sensor && entity_named(es[4], "Build cache"@, id) && es[4].details_view().has_attributes
    &&& es[5] is Sensor && entity_named(es[5], "Networks"@, id) && es[5].details_view().has_attributes
    &&& hs.len() == 3
    &&& hs[0] matches DataHandler::HostVersion { state_topic } && state_topic@ == es[1].details_view().state_topic(None)
    &&& hs[1] matches DataHandler::DiskFree { topics, debounce } && {
        &&& topics.images_state_topic@ == es[2].details_view().state_topic(None)
        &&& topics.images_attributes_state_topic@ == es[2].details_view().state_topic(Some(attributes_item()))
        &&& topics.volumes_state_topic@ == es[3].details_view().state_topic(None)
        &&& topics.volumes_attributes_state_topic@ == es[3].details_view().state_topic(Some(attributes_item()))
        &&& topics.build_cache_state_topic@ == es[4].details_view().state_topic(None)
        &&& topics.build_cache_attributes_state_topic@ == es[4].details_view().state_topic(Some(attributes_item()))
        &&& topics.number_of_containers_state_topic@ == es[0].details_view().state_topic(None)
        &&& topics.number_of_containers_attributes_state_topic@ == es[0].details_view().state_topic(Some(attributes_item()))
        &&& debounce == Debounce { duration_millis: HOST_DATA_WINDOW_MILLIS, last_poll_millis: None }
    }
    &&& hs[2] matches DataHandler::NetworkInfo { state_topic, attributes_topic, debounce }
        && state_topic@ == es[5].details_view().state_topic(None)
        && attributes_topic@ == es[5].details_view().state_topic(Some(attributes_item()))
        && debounce == Debounce { duration_millis: HOST_DATA_WINDOW_MILLIS, last_poll_millis: None }
}

/// The container has a name whose identifier is `k`.
pub open spec fn names_container(c: ContainerInfo, k: Seq<char>) -> bool {
    match first_name(c) {
        Some(n) => container_identifier_of(n) == k,
        None => false,
    }
}

/// Some container of the list has a name whose identifier is `k`.
pub open spec fn container_listed(k: Seq<char>, cs: Seq<ContainerInfo>) -> bool {
    exists|i: int| 0 <= i < cs.len() && #[trigger] names_container(cs[i], k)
}

/// The device is the host device.
pub open spec fn is_host_device(d: Device) -> bool {
    exists|i: int| 0 <= i < d.metadata@.len() && (#[trigger] d.metadata@[i])@ == host_device_metadata()
}

/// The identifiers of the devices that no longer have a container: those that
/// are not the host device and that no listed container has.
pub open spec fn missing_devices(m: Map<Seq<char>, Device>, cs: Seq<ContainerInfo>) -> Set<Seq<char>> {
    Set::new(|k: Seq<char>| m.contains_key(k) && !is_host_device(m[k]) && !container_listed(k, cs))
}

/// The identifiers of the named containers of a list.
fn container_ids(containers: &Vec<ContainerInfo>) -> (r: Vec<String>)
    ensures
        forall|k: Seq<char>| #[trigger] listed(k, r@) <==> container_listed(k, containers@),
{
    let mut r: Vec<String> = Vec::new();
    let mut i: usize = 0;
    while i < containers.len()
        invariant
            i <= containers@.len(),
            forall|k: Seq<char>| #[trigger] listed(k, r@) <==>
                exists|j: int| 0 <= j < i && #[trigger] names_container(containers@[j], k),
        decreases containers@.len() - i,
    {
        let ghost before = r@;
        match &containers[i].names {
            Some(names) => {
                if names.len() > 0 {
                    r.push(container_identifier(names[0].as_str()));
                }
            },
            None => {},
        }
        proof {
            assert forall|k: Seq<char>| #[trigger] listed(k, r@) <==>
                exists|j: int| 0 <= j < i + 1 && #[trigger] names_container(containers@[j], k) by {
                if listed(k, r@) {
                    let w = choose|w: int| 0 <= w < r@.len() && (#[trigger] r@[w])@ == k;
                    if w < before.len() {
                        assert(r@[w] == before[w]);
                        assert(listed(k, before));
                    } else {
                        assert(names_container(containers@[i as int], k));
                    }
                }
                if exists|j: int| 0 <= j < i + 1 && #[trigger] names_container(containers@[j], k) {
                    let j = choose|j: int| 0 <= j < i + 1 && #[trigger] names_container(containers@[j], k);
                    if j < i {
                        assert(listed(k, before));
                        let w = choose|w: int| 0 <= w < before.len() && (#[trigger] before[w])@ == k;
                        assert(r@[w] == before[w]);
                    } else {
                        assert(r@[r@.len() - 1]@ == k);
                    }
                }
            }
        }
        i += 1;
    }
    r
}

impl DockerDeviceProvider {
    /// Takes out the devices whose container is gone (the host device stays),
    /// giving them back.
    pub fn remove_missing_devices(&self, devices: &mut Devices, containers: &Vec<ContainerInfo>) -> (removed: Vec<Device>)
        requires
            old(devices).wf(),
        ensures
            final(devices).wf(),
            final(devices).view() == old(devices).view().remove_keys(missing_devices(old(devices).view(), containers@)),
            forall|i: int| 0 <= i < removed@.len() ==> {
                let d = #[trigger] removed@[i];
                &&& missing_devices(old(devices).view(), containers@).contains(d.details.identifier@)
                &&& old(devices).view()[d.details.identifier@] == d
            },
            forall|k: Seq<char>| #[trigger] missing_devices(old(devices).view(), containers@).contains(k)
                ==> exists|i: int| 0 <= i < removed@.len() && (#[trigger] removed@[i]).details.identifier@ == k,
    {
        let cids = container_ids(containers);
        let keys = devices.identifiers();
        let ghost m = devices.view();
        let mut pairs: Vec<(String, bool)> = Vec::new();
        let mut i: usize = 0;
        while i < keys.len()
            invariant
                i <= keys@.len(),
                keys_match(keys@, m),
                devices.view() == m,
                pairs@.len() == i,
                forall|j: int| 0 <= j < i ==> (#[trigger] pairs@[j]).0 == keys@[j] && pairs@[j].1 == is_host_device(m[keys@[j]@]),
            decreases keys@.len() - i,
        {
            let is_host = match devices.get(keys[i].as_str()) {
                Some(d) => d.has_metadata("host_device"),
                None => false,
            };
            pairs.push((keys[i].clone(), is_host));
            i += 1;
        }
        let missing = missing_device_ids(&cids, &pairs);
        let ghost target = missing_devices(m, containers@);
        let ghost ids = missing@.map_values(|s: String| s@);
        proof {
            assert forall|k: Seq<char>| #[trigger] ids.to_set().contains(k) implies target.contains(k) by {
                let w = choose|w: int| 0 <= w < ids.len() && ids[w] == k;
                assert(removable(missing@[w]@, cids@, pairs@));
            }
            assert forall|k: Seq<char>| #[trigger] target.contains(k) implies ids.contains(k) by {
                let j = choose|j: int| 0 <= j < keys@.len() && (#[trigger] keys@[j])@ == k;
                assert(pairs@[j].0@ == k);
                assert(listed(pairs@[j].0@, missing@));
                let w = choose|w: int| 0 <= w < missing@.len() && (#[trigger] missing@[w])@ == k;
                assert(ids[w] == k);
            }
            assert(m.remove_keys(ids.to_set()) =~= m.remove_keys(target));
        }
        let removed = devices.remove_devices(&missing);
        proof {
            assert forall|k: Seq<char>| #[trigger] target.contains(k)
                implies exists|i: int| 0 <= i < removed@.len() && (#[trigger] removed@[i]).details.identifier@ == k by {
                assert(ids.contains(k));
            }
        }
        removed
    }
}

/// `d` is the device of a listed container that has a name whose identifier
/// no device of `m` has.
pub open spec fn new_container_device(d: Device, cs: Seq<ContainerInfo>, m: Map<Seq<char>, Device>, host_id: Seq<char>, availability_topic: Seq<char>, provider_id: Seq<char>) -> bool {
    exists|j: int| 0 <= j < cs.len() && (#[trigger] first_name(cs[j])) is Some && {
        let n = first_name(cs[j])->0;
        &&& !m.contains_key(container_identifier_of(n))
        &&& container_device_ok(d, n, image_of(cs[j]), host_id, availability_topic, provider_id)
    }
}

impl DockerDeviceProvider {
    /// Adds a device for each listed container with a name that no device has
    /// yet, giving back the identifiers of the added devices.
    pub fn add_discovered_devices(&self, devices: &mut Devices, containers: &Vec<ContainerInfo>, availability_topic: &String) -> (added: Vec<String>)
        requires
            old(devices).wf(),
        ensures
            final(devices).wf(),
            exists|nds: Seq<Device>| {
                &&& #[trigger] final(devices).view() == old(devices).view().union_prefer_right(devices_map_of(nds))
                &&& nds.len() == added@.len()
                &&& forall|i: int| 0 <= i < nds.len() ==> (#[trigger] nds[i]).details.identifier == added@[i]
                    && new_container_device(nds[i], containers@, old(devices).view(),
                        dashes_to_underscores(slug_of(self.provider_name@)), availability_topic@, self.provider_name@)
                &&& forall|j: int| 0 <= j < containers@.len() && (#[trigger] first_name(containers@[j])) is Some
                    && !old(devices).view().contains_key(container_identifier_of(first_name(containers@[j])->0))
                    ==> exists|i: int| 0 <= i < nds.len() && (#[trigger] nds[i]).details.identifier@ == container_identifier_of(first_name(containers@[j])->0)
            },
    {
        let ghost m = devices.view();
        let mut names: Vec<Option<String>> = Vec::new();
        let mut i: usize = 0;
        while i < containers.len()
            invariant
                i <= containers@.len(),
                names@.len() == i,
                forall|j: int| 0 <= j < i ==> match #[trigger] names@[j] {
                    Some(n) => first_name(containers@[j]) == Some(n@),
                    None => first_name(containers@[j]) is None,
                },
            decreases containers@.len() - i,
        {
            let name = match &containers[i].names {
                Some(ns) => if ns.len() > 0 { Some(ns[0].clone()) } else { None },
                None => None,
            };
            names.push(name);
            i += 1;
        }
        let current = devices.identifiers();
        let indices = new_container_indices(&names, &current);
        let host = self.host_identifier();
        let mut nds: Vec<Device> = Vec::new();
        let mut ids: Vec<String> = Vec::new();
        let mut k: usize = 0;
        while k < indices.len()
            invariant
                k <= indices@.len(),
                devices.view() == m,
                keys_match(current@, m),
                names@.len() == containers@.len(),
                forall|j: int| 0 <= j < names@.len() ==> match #[trigger] names@[j] {
                    Some(n) => first_name(containers@[j]) == Some(n@),
                    None => first_name(containers@[j]) is None,
                },
                forall|a: int| 0 <= a < indices@.len() ==> (#[trigger] indices@[a]) < names@.len(),
                forall|a: int, b: int| 0 <= a < b < indices@.len() ==> (#[trigger] indices@[a]) < (#[trigger] indices@[b]),
                forall|j: int| 0 <= j < names@.len() ==>
                    (indices@.contains(j as usize) <==> (#[trigger] names@[j] matches Some(n)
                        && !listed(container_identifier_of(n@), current@))),
                nds@.len() == k,
                ids@.len() == k,
                forall|a: int| 0 <= a < k ==> (#[trigger] nds@[a]).details.identifier == ids@[a]
                    && new_container_device(nds@[a], containers@, m, host@, availability_topic@, self.provider_name@)
                    && nds@[a].details.identifier@ == container_identifier_of(first_name(containers@[indices@[a] as int])->0),
                host@ == dashes_to_underscores(slug_of(self.provider_name@)),
            decreases indices@.len() - k,
        {
            let j = indices[k];
            proof {
                assert(indices@.contains(j));
            }
            match &names[j] {
                Some(n) => {
                    let image = match &containers[j].image {
                        Some(im) => im.clone(),
                        None => String::new(),
                    };
                    let d = self.container_device(n, image, &host, availability_topic);
                    proof {
                        assert(!listed(container_identifier_of(n@), current@));
                        assert(!m.contains_key(container_identifier_of(n@))) by {
                            if m.contains_key(container_identifier_of(n@)) {
                                let w = choose|w: int| 0 <= w < current@.len() && (#[trigger] current@[w])@ == container_identifier_of(n@);
                            }
                        }
                        assert(first_name(containers@[j as int]) is Some);
                        assert(new_container_device(d, containers@, m, host@, availability_topic@, self.provider_name@));
                    }
                    ids.push(d.details.identifier.clone());
                    nds.push(d);
                },
                None => {
                    proof {
                        assert(false);
                    }
                },
            }
            k += 1;
        }
        let ghost nds_view = nds@;
        devices.add_devices(nds);
        proof {
            assert forall|j: int| 0 <= j < containers@.len() && (#[trigger] first_name(containers@[j])) is Some
                && !m.contains_key(container_identifier_of(first_name(containers@[j])->0))
                implies exists|i: int| 0 <= i < nds_view.len() && (#[trigger] nds_view[i]).details.identifier@ == container_identifier_of(first_name(containers@[j])->0) by {
                let n = names@[j];
                assert(n is Some);
                assert(!listed(container_identifier_of(first_name(containers@[j])->0), current@));
                assert(indices@.contains(j as usize));
                let a = choose|a: int| 0 <= a < indices@.len() && indices@[a] == j as usize;
                assert(nds_view[a].details.identifier@ == container_identifier_of(first_name(containers@[j])->0));
            }
        }
        ids
    }
}

} // verus!
