//! What the device manager publishes and subscribes to for a set of devices:
//! the topics it listens on, the discovery documents of new devices and the
//! empty documents that remove devices from Home Assistant.

use vstd::prelude::*;
use vstd::string::*;
use crate::device::{Device, DeviceDiscovery, components_view};
use crate::devices::{Devices, command_topics_in, keys_match};
use crate::device_manager::status_topic;

verus! {

/// The topics the device manager subscribes to: the status topic of Home
/// Assistant, then the command topics of the devices in some order of them.
pub fn subscription_topics(devices: &Devices, discovery_prefix: &str) -> (r: Vec<String>)
    ensures
        r@.len() >= 1,
        r@[0]@ == discovery_prefix@ + "/status"@,
        exists|keys: Seq<String>| keys_match(keys, devices.view())
            && r@.subrange(1, r@.len() as int) == #[trigger] command_topics_in(keys, devices.view()),
{
    let mut r: Vec<String> = Vec::new();
    r.push(status_topic(discovery_prefix));
    let mut topics = devices.command_topics();
    let ghost first = r@;
    let ghost rest = topics@;
    r.append(&mut topics);
    proof {
        assert(r@.subrange(1, r@.len() as int) =~= rest);
    }
    r
}

/// The messages that remove devices from Home Assistant: an empty document on
/// the discovery topic of each removed device, in order.
pub fn removal_messages(removed: &Vec<Device>, discovery_prefix: &str) -> (r: Vec<(String, String)>)
    ensures
        r@.len() == removed@.len(),
        forall|i: int| 0 <= i < r@.len() ==> {
            &&& (#[trigger] r@[i]).0@ == discovery_prefix@ + "/device/"@ + removed@[i].details.identifier@ + "/config"@
            &&& r@[i].1@ == Seq::<char>::empty()
        },
{
    let mut r: Vec<(String, String)> = Vec::new();
    let mut i: usize = 0;
    while i < removed.len()
        invariant
            i <= removed@.len(),
            r@.len() == i,
            forall|j: int| 0 <= j < i ==> {
                &&& (#[trigger] r@[j]).0@ == discovery_prefix@ + "/device/"@ + removed@[j].details.identifier@ + "/config"@
                &&& r@[j].1@ == Seq::<char>::empty()
            },
        decreases removed@.len() - i,
    {
        r.push((removed[i].discovery_topic(discovery_prefix), String::new()));
        i += 1;
    }
    r
}

/// `entry` is the discovery topic and document of the device `k` of `m`.
pub open spec fn is_discovery_of(entry: (String, DeviceDiscovery), m: Map<Seq<char>, Device>, k: Seq<char>, prefix: Seq<char>) -> bool {
    let d = m[k];
    &&& m.contains_key(k)
    &&& entry.0@ == prefix + "/device/"@ + k + "/config"@
    &&& entry.1.device == d.details
    &&& entry.1.origin == d.origin
    &&& entry.1.availability_topic == d.availability_topic
    &&& entry.1.components_view() == components_view(d.entities@, d.details.identifier@, d.availability_topic@)
}

/// The entry is the discovery of one of the listed devices.
pub open spec fn listed_discovery(e: (String, DeviceDiscovery), m: Map<Seq<char>, Device>, ids: Seq<String>, prefix: Seq<char>) -> bool {
    exists|j: int| 0 <= j < ids.len() && #[trigger] is_discovery_of(e, m, ids[j]@, prefix)
}

/// The discovery topic and document of each of the devices with the given
/// identifiers that the collection holds, in the order of the identifiers.
pub fn created_devices_discovery(devices: &Devices, identifiers: &Vec<String>, discovery_prefix: &str) -> (r: Vec<(String, DeviceDiscovery)>)
    requires
        devices.wf(),
    ensures
        r@.len() <= identifiers@.len(),
        forall|i: int| 0 <= i < r@.len() ==> #[trigger] listed_discovery(r@[i], devices.view(), identifiers@, discovery_prefix@),
        forall|j: int| 0 <= j < identifiers@.len() && devices.view().contains_key((#[trigger] identifiers@[j])@)
            ==> exists|i: int| 0 <= i < r@.len() && #[trigger] is_discovery_of(r@[i], devices.view(), identifiers@[j]@, discovery_prefix@),
{
    let mut r: Vec<(String, DeviceDiscovery)> = Vec::new();
    let ghost mut witness: Seq<int> = Seq::empty();
    let mut i: usize = 0;
    while i < identifiers.len()
        invariant
            i <= identifiers@.len(),
            r@.len() <= i,
            devices.wf(),
            witness.len() == r@.len(),
            forall|a: int| 0 <= a < r@.len() ==> 0 <= #[trigger] witness[a] < identifiers@.len()
                && is_discovery_of(r@[a], devices.view(), identifiers@[witness[a]]@, discovery_prefix@),
            forall|j: int| 0 <= j < i && devices.view().contains_key((#[trigger] identifiers@[j])@)
                ==> exists|a: int| 0 <= a < r@.len() && #[trigger] is_discovery_of(r@[a], devices.view(), identifiers@[j]@, discovery_prefix@),
        decreases identifiers@.len() - i,
    {
        let ghost before = r@;
        let ghost wbefore = witness;
        match devices.get(identifiers[i].as_str()) {
            Some(d) => {
                let topic = d.discovery_topic(discovery_prefix);
                let doc = d.json_for_discovery();
                r.push((topic, doc));
                proof {
                    witness = witness.push(i as int);
                    devices.lemma_keyed(identifiers@[i as int]@);
                    assert(is_discovery_of(r@[before.len() as int], devices.view(), identifiers@[i as int]@, discovery_prefix@));
                    assert forall|a: int| 0 <= a < r@.len() implies 0 <= #[trigger] witness[a] < identifiers@.len()
                        && is_discovery_of(r@[a], devices.view(), identifiers@[witness[a]]@, discovery_prefix@) by {
                        if a < before.len() {
                            assert(r@[a] == before[a]);
                            assert(witness[a] == wbefore[a]);
                        }
                    }
                    assert forall|j: int| 0 <= j < i + 1 && devices.view().contains_key((#[trigger] identifiers@[j])@)
                        implies exists|a: int| 0 <= a < r@.len() && #[trigger] is_discovery_of(r@[a], devices.view(), identifiers@[j]@, discovery_prefix@) by {
                        if j < i {
                            let a = choose|a: int| 0 <= a < before.len() && #[trigger] is_discovery_of(before[a], devices.view(), identifiers@[j]@, discovery_prefix@);
                            assert(r@[a] == before[a]);
                        }
                    }
                }
            },
            None => {},
        }
        i += 1;
    }
    proof {
        assert forall|a: int| 0 <= a < r@.len() implies #[trigger] listed_discovery(r@[a], devices.view(), identifiers@, discovery_prefix@) by {
            let j = witness[a];
            assert(is_discovery_of(r@[a], devices.view(), identifiers@[j]@, discovery_prefix@));
        }
    }
    r
}

} // verus!
