//! The devices of a device manager, by identifier: a device added with the
//! identifier of another one replaces it.

use vstd::prelude::*;
use vstd::string::*;
use crate::device::{Device, DeviceDiscovery, device_command, no_handler_for, entities_command_topics, components_view};
use crate::handlers::HandlerOutcome;

verus! {

/// A map from device identifiers to devices.
#[verifier::external_body]
pub struct DeviceMap {
    inner: hashbrown::HashMap<String, Device>,
}

/// The devices that a map holds, by identifier.
pub uninterp spec fn device_map_contents(m: DeviceMap) -> Map<Seq<char>, Device>;

/// The map without devices.
pub open spec fn no_devices() -> Map<Seq<char>, Device> {
    Map::empty()
}

/// A list of keys holds each key of a map exactly once.
pub open spec fn keys_match(s: Seq<String>, m: Map<Seq<char>, Device>) -> bool {
    &&& forall|i: int, j: int| 0 <= i < j < s.len() ==> (#[trigger] s[i])@ != (#[trigger] s[j])@
    &&& forall|i: int| 0 <= i < s.len() ==> m.contains_key((#[trigger] s[i])@)
    &&& forall|k: Seq<char>| m.contains_key(k) ==> exists|i: int| 0 <= i < s.len() && (#[trigger] s[i])@ == k
}

/// `hashbrown::HashMap::new`: an empty map.
#[verifier::external_body]
fn devicemap_new() -> (m: DeviceMap)
    ensures
        device_map_contents(m) == no_devices(),
{
    DeviceMap { inner: hashbrown::HashMap::new() }
}

/// `hashbrown::HashMap::insert`: sets `key` to `device`, giving back the device
/// that `key` had.
#[verifier::external_body]
fn devicemap_insert(m: &mut DeviceMap, key: String, device: Device) -> (r: Option<Device>)
    ensures
        device_map_contents(*final(m)) == device_map_contents(*old(m)).insert(key@, device),
        match r {
            Some(d) => device_map_contents(*old(m)).contains_key(key@) && d == device_map_contents(*old(m))[key@],
            None => !device_map_contents(*old(m)).contains_key(key@),
        },
{
    m.inner.insert(key, device)
}

/// `hashbrown::HashMap::remove`: takes `key` out, giving back its device.
#[verifier::external_body]
fn devicemap_remove(m: &mut DeviceMap, key: &str) -> (r: Option<Device>)
    ensures
        device_map_contents(*final(m)) == device_map_contents(*old(m)).remove(key@),
        match r {
            Some(d) => device_map_contents(*old(m)).contains_key(key@) && d == device_map_contents(*old(m))[key@],
            None => !device_map_contents(*old(m)).contains_key(key@),
        },
{
    m.inner.remove(key)
}

/// `hashbrown::HashMap::get`: the device of `key`.
#[verifier::external_body]
fn devicemap_get<'a>(m: &'a DeviceMap, key: &str) -> (r: Option<&'a Device>)
    ensures
        match r {
            Some(d) => device_map_contents(*m).contains_key(key@) && *d == device_map_contents(*m)[key@],
            None => !device_map_contents(*m).contains_key(key@),
        },
{
    m.inner.get(key)
}

/// `hashbrown::HashMap::len`: the number of keys.
#[verifier::external_body]
fn devicemap_len(m: &DeviceMap) -> (r: usize)
    ensures
        r == device_map_contents(*m).len(),
{
    m.inner.len()
}

/// `hashbrown::HashMap::keys`, each key copied: every key once, in an order
/// that the map decides.
#[verifier::external_body]
fn devicemap_keys(m: &DeviceMap) -> (r: Vec<String>)
    ensures
        keys_match(r@, device_map_contents(*m)),
{
    m.inner.keys().cloned().collect()
}

/// Every device of a map is under its own identifier.
pub open spec fn keyed_by_identifier(m: Map<Seq<char>, Device>) -> bool {
    forall|k: Seq<char>| #[trigger] m.contains_key(k) ==> m[k].details.identifier@ == k
}

/// The map that a list of devices gives, a later device replacing an earlier
/// one with the same identifier.
pub open spec fn devices_map_of(s: Seq<Device>) -> Map<Seq<char>, Device>
    decreases s.len(),
{
    if s.len() == 0 {
        Map::empty()
    } else {
        devices_map_of(s.drop_last()).insert(s.last().details.identifier@, s.last())
    }
}

proof fn lemma_devices_map_keyed(s: Seq<Device>)
    ensures
        keyed_by_identifier(devices_map_of(s)),
    decreases s.len(),
{
    if s.len() > 0 {
        lemma_devices_map_keyed(s.drop_last());
    }
}

/// The devices of a device manager.
pub struct Devices {
    map: DeviceMap,
}

/// The concatenation of the command topics of the devices of `keys`, in order.
pub open spec fn command_topics_in(keys: Seq<String>, m: Map<Seq<char>, Device>) -> Seq<String>
    decreases keys.len(),
{
    if keys.len() == 0 {
        Seq::empty()
    } else {
        command_topics_in(keys.drop_last(), m) + entities_command_topics(m[keys.last()@].entities@)
    }
}

impl Devices {
    /// The devices, by identifier.
    pub closed spec fn view(&self) -> Map<Seq<char>, Device> {
        device_map_contents(self.map)
    }

    /// Every device is under its identifier.
    pub closed spec fn wf(&self) -> bool {
        keyed_by_identifier(self.view())
    }

    /// No devices.
    pub fn new() -> (r: Devices)
        ensures
            r.wf(),
            r.view() == no_devices(),
    {
        Devices { map: devicemap_new() }
    }

    /// The given devices, by identifier; of two with the same identifier the
    /// later one stays.
    pub fn new_from_many_devices(devices: Vec<Device>) -> (r: Devices)
        ensures
            r.wf(),
            r.view() == devices_map_of(devices@),
    {
        let mut r = Devices::new();
        r.add_devices(devices);
        proof {
            assert(no_devices().union_prefer_right(devices_map_of(devices@)) =~= devices_map_of(devices@));
        }
        r
    }

    /// A collection of one device.
    pub fn new_from_single_device(device: Device) -> (r: Devices)
        ensures
            r.wf(),
            r.view() == no_devices().insert(device.details.identifier@, device),
    {
        let mut r = Devices::new();
        let id = device.details.identifier.clone();
        let _ = devicemap_insert(&mut r.map, id, device);
        r
    }

    /// Adds devices; one with the identifier of a device already here, or of a
    /// later one in the list, replaces it.
    pub fn add_devices(&mut self, new_devices: Vec<Device>)
        requires
            old(self).wf(),
        ensures
            final(self).wf(),
            final(self).view() == old(self).view().union_prefer_right(devices_map_of(new_devices@)),
    {
        let ghost all = new_devices@;
        let ghost start = self.view();
        let mut rest = new_devices;
        let n = rest.len();
        let mut i: usize = 0;
        proof {
            assert(all.subrange(0, 0) =~= Seq::<Device>::empty());
            assert(start.union_prefer_right(devices_map_of(Seq::<Device>::empty())) =~= start);
            assert(all.subrange(0, n as int) =~= all);
        }
        while i < n
            invariant
                n == all.len(),
                i <= n,
                rest@ == all.subrange(i as int, n as int),
                self.view() == start.union_prefer_right(devices_map_of(all.subrange(0, i as int))),
                keyed_by_identifier(self.view()),
            decreases n - i,
        {
            let device = rest.remove(0);
            let id = device.details.identifier.clone();
            let _ = devicemap_insert(&mut self.map, id, device);
            proof {
                assert(all.subrange(0, i + 1).drop_last() =~= all.subrange(0, i as int));
                assert(all.subrange(0, i + 1).last() == all[i as int]);
                assert(self.view() =~= start.union_prefer_right(devices_map_of(all.subrange(0, i + 1))));
                assert(rest@ =~= all.subrange(i + 1, n as int));
            }
            i += 1;
        }
        proof {
            assert(all.subrange(0, n as int) =~= all);
        }
    }

    /// Takes out the devices with the given identifiers, giving them back.
    pub fn remove_devices(&mut self, identifiers: &Vec<String>) -> (removed: Vec<Device>)
        requires
            old(self).wf(),
        ensures
            final(self).wf(),
            final(self).view() == old(self).view().remove_keys(identifiers@.map_values(|s: String| s@).to_set()),
            forall|i: int| 0 <= i < removed@.len() ==> {
                let d = #[trigger] removed@[i];
                &&& old(self).view().contains_key(d.details.identifier@)
                &&& old(self).view()[d.details.identifier@] == d
                &&& identifiers@.map_values(|s: String| s@).contains(d.details.identifier@)
            },
            forall|i: int, j: int| 0 <= i < j < removed@.len() ==>
                (#[trigger] removed@[i]).details.identifier@ != (#[trigger] removed@[j]).details.identifier@,
            forall|k: Seq<char>| old(self).view().contains_key(k) && identifiers@.map_values(|s: String| s@).contains(k)
                ==> exists|i: int| 0 <= i < removed@.len() && (#[trigger] removed@[i]).details.identifier@ == k,
    {
        let ghost ids = identifiers@.map_values(|s: String| s@);
        let ghost start = self.view();
        let mut removed: Vec<Device> = Vec::new();
        let mut i: usize = 0;
        while i < identifiers.len()
            invariant
                i <= identifiers@.len(),
                ids == identifiers@.map_values(|s: String| s@),
                keyed_by_identifier(start),
                self.view() == start.remove_keys(ids.subrange(0, i as int).to_set()),
                keyed_by_identifier(self.view()),
                forall|j: int| 0 <= j < removed@.len() ==> {
                    let d = #[trigger] removed@[j];
                    &&& start.contains_key(d.details.identifier@)
                    &&& start[d.details.identifier@] == d
                    &&& ids.subrange(0, i as int).contains(d.details.identifier@)
                },
                forall|a: int, b: int| 0 <= a < b < removed@.len() ==>
                    (#[trigger] removed@[a]).details.identifier@ != (#[trigger] removed@[b]).details.identifier@,
                forall|k: Seq<char>| start.contains_key(k) && ids.subrange(0, i as int).contains(k)
                    ==> exists|j: int| 0 <= j < removed@.len() && (#[trigger] removed@[j]).details.identifier@ == k,
            decreases identifiers@.len() - i,
        {
            let ghost before = removed@;
            let ghost k = identifiers@[i as int]@;
            let ghost prev = ids.subrange(0, i as int);
            let ghost next = ids.subrange(0, i + 1);
            let r = devicemap_remove(&mut self.map, identifiers[i].as_str());
            proof {
                assert(next =~= prev.push(k));
                assert forall|x: Seq<char>| next.contains(x) <==> (prev.contains(x) || x == k) by {
                    if next.contains(x) {
                        let w = choose|w: int| 0 <= w < next.len() && next[w] == x;
                        if w < i {
                            assert(prev[w] == x);
                        }
                    }
                    if prev.contains(x) {
                        let w = choose|w: int| 0 <= w < prev.len() && prev[w] == x;
                        assert(next[w] == x);
                    }
                    if x == k {
                        assert(next[i as int] == x);
                    }
                }
                assert(next.to_set() =~= prev.to_set().insert(k));
                assert(self.view() =~= start.remove_keys(next.to_set()));
            }
            match r {
                Some(d) => {
                    removed.push(d);
                    proof {
                        assert(!prev.contains(k));
                        assert forall|j: int| 0 <= j < removed@.len() implies {
                            let d = #[trigger] removed@[j];
                            &&& start.contains_key(d.details.identifier@)
                            &&& start[d.details.identifier@] == d
                            &&& next.contains(d.details.identifier@)
                        } by {
                            if j < before.len() {
                                assert(removed@[j] == before[j]);
                                let w = choose|w: int| 0 <= w < i && prev[w] == before[j].details.identifier@;
                                assert(next[w] == before[j].details.identifier@);
                            } else {
                                assert(next[i as int] == k);
                            }
                        }
                        assert forall|a: int, b: int| 0 <= a < b < removed@.len() implies
                            (#[trigger] removed@[a]).details.identifier@ != (#[trigger] removed@[b]).details.identifier@ by {
                            if b == before.len() {
                                assert(removed@[a] == before[a]);
                            } else {
                                assert(removed@[a] == before[a]);
                                assert(removed@[b] == before[b]);
                            }
                        }
                        assert forall|key: Seq<char>| start.contains_key(key) && next.contains(key)
                            implies exists|j: int| 0 <= j < removed@.len() && (#[trigger] removed@[j]).details.identifier@ == key by {
                            if key == k {
                                assert(removed@[before.len() as int].details.identifier@ == key);
                            } else {
                                let w = choose|w: int| 0 <= w < i + 1 && next[w] == key;
                                assert(prev[w] == key);
                                let j = choose|j: int| 0 <= j < before.len() && (#[trigger] before[j]).details.identifier@ == key;
                                assert(removed@[j] == before[j]);
                            }
                        }
                    }
                },
                None => {
                    proof {
                        assert forall|j: int| 0 <= j < removed@.len() implies
                            next.contains((#[trigger] removed@[j]).details.identifier@) by {
                            let w = choose|w: int| 0 <= w < i && prev[w] == removed@[j].details.identifier@;
                            assert(next[w] == removed@[j].details.identifier@);
                        }
                        assert forall|key: Seq<char>| start.contains_key(key) && next.contains(key)
                            implies exists|j: int| 0 <= j < removed@.len() && (#[trigger] removed@[j]).details.identifier@ == key by {
                            if key == k {
                                assert(prev.contains(k));
                            } else {
                                let w = choose|w: int| 0 <= w < i + 1 && next[w] == key;
                                assert(prev[w] == key);
                            }
                        }
                    }
                },
            }
            i += 1;
        }
        proof {
            assert(ids.subrange(0, i as int) =~= ids);
        }
        removed
    }

    /// A device of a well-formed collection is under its own identifier.
    pub proof fn lemma_keyed(&self, k: Seq<char>)
        requires
            self.wf(),
            self.view().contains_key(k),
        ensures
            self.view()[k].details.identifier@ == k,
    {
    }

    /// The number of devices.
    pub fn len(&self) -> (r: usize)
        ensures
            r == self.view().len(),
    {
        devicemap_len(&self.map)
    }

    /// The device with the given identifier.
    pub fn get(&self, identifier: &str) -> (r: Option<&Device>)
        ensures
            match r {
                Some(d) => self.view().contains_key(identifier@) && *d == self.view()[identifier@],
                None => !self.view().contains_key(identifier@),
            },
    {
        devicemap_get(&self.map, identifier)
    }

    /// The identifiers of the devices, each once.
    pub fn identifiers(&self) -> (r: Vec<String>)
        ensures
            keys_match(r@, self.view()),
    {
        devicemap_keys(&self.map)
    }

    /// The command topics of all devices, device after device in some order
    /// of the devices.
    pub fn command_topics(&self) -> (r: Vec<String>)
        ensures
            exists|keys: Seq<String>| keys_match(keys, self.view()) && r@ == #[trigger] command_topics_in(keys, self.view()),
    {
        let keys = devicemap_keys(&self.map);
        let mut r: Vec<String> = Vec::new();
        let mut i: usize = 0;
        while i < keys.len()
            invariant
                i <= keys@.len(),
                keys_match(keys@, self.view()),
                r@ == command_topics_in(keys@.subrange(0, i as int), self.view()),
            decreases keys@.len() - i,
        {
            let device = devicemap_get(&self.map, keys[i].as_str());
            match device {
                Some(d) => {
                    let mut topics = d.command_topics();
                    r.append(&mut topics);
                },
                None => {},
            }
            proof {
                assert(keys@.subrange(0, i + 1).drop_last() =~= keys@.subrange(0, i as int));
            }
            i += 1;
        }
        proof {
            assert(keys@.subrange(0, i as int) =~= keys@);
        }
        r
    }

    /// Handles a command: the first device, in some order of the devices, that
    /// has a handler for `topic` handles it; when none has, nothing changes.
    pub fn handle_command(&mut self, topic: &str, payload: &str) -> (r: HandlerOutcome)
        requires
            old(self).wf(),
        ensures
            final(self).wf(),
            r is NotHandled <==> forall|k: Seq<char>| #[trigger] old(self).view().contains_key(k) ==> no_handler_for(old(self).view()[k], topic@),
            r is NotHandled ==> final(self).view() == old(self).view(),
            !(r is NotHandled) ==> exists|k: Seq<char>, d2: Device| {
                &&& old(self).view().contains_key(k)
                &&& #[trigger] device_command(old(self).view()[k], topic@, payload@, r, d2)
                &&& final(self).view() == old(self).view().insert(k, d2)
            },
    {
        let keys = devicemap_keys(&self.map);
        let ghost start = self.view();
        let mut i: usize = 0;
        while i < keys.len()
            invariant
                i <= keys@.len(),
                keys_match(keys@, start),
                self.view() == start,
                start == old(self).view(),
                keyed_by_identifier(start),
                forall|j: int| 0 <= j < i ==> no_handler_for(start[(#[trigger] keys@[j])@], topic@),
            decreases keys@.len() - i,
        {
            let taken = devicemap_remove(&mut self.map, keys[i].as_str());
            match taken {
                Some(mut device) => {
                    let ghost d1 = device;
                    let outcome = device.handle_command(topic, payload);
                    let ghost d2 = device;
                    let _ = devicemap_insert(&mut self.map, keys[i].clone(), device);
                    match outcome {
                        HandlerOutcome::NotHandled => {
                            proof {
                                assert(d2.data_handlers == d1.data_handlers);
                                assert(self.view() =~= start);
                            }
                        },
                        _ => {
                            proof {
                                let k = keys@[i as int]@;
                                assert(start.contains_key(k));
                                assert(d1 == start[k]);
                                assert(!no_handler_for(start[k], topic@));
                                assert(device_command(start[k], topic@, payload@, outcome, d2));
                                assert(self.view() =~= start.insert(k, d2));
                                assert forall|kk: Seq<char>| #[trigger] self.view().contains_key(kk) implies self.view()[kk].details.identifier@ == kk by {
                                }
                            }
                            return outcome;
                        },
                    }
                },
                None => {},
            }
            i += 1;
        }
        proof {
            assert forall|k: Seq<char>| #[trigger] start.contains_key(k) implies no_handler_for(start[k], topic@) by {
                let j = choose|j: int| 0 <= j < keys@.len() && (#[trigger] keys@[j])@ == k;
            }
        }
        HandlerOutcome::NotHandled
    }

    /// The discovery topic of each device, in some order of the devices.
    pub fn discovery_topics(&self, discovery_prefix: &str) -> (r: Vec<String>)
        requires
            self.wf(),
        ensures
            exists|keys: Seq<String>| #[trigger] keys_match(keys, self.view()) && r@.len() == keys.len()
                && forall|i: int| 0 <= i < keys.len() ==>
                    (#[trigger] r@[i])@ == discovery_prefix@ + "/device/"@ + keys[i]@ + "/config"@,
    {
        let keys = devicemap_keys(&self.map);
        let mut r: Vec<String> = Vec::new();
        let mut i: usize = 0;
        while i < keys.len()
            invariant
                i <= keys@.len(),
                keys_match(keys@, self.view()),
                keyed_by_identifier(self.view()),
                r@.len() == i,
                forall|j: int| 0 <= j < i ==> (#[trigger] r@[j])@ == discovery_prefix@ + "/device/"@ + keys@[j]@ + "/config"@,
            decreases keys@.len() - i,
        {
            let device = devicemap_get(&self.map, keys[i].as_str());
            let topic = match device {
                Some(d) => d.discovery_topic(discovery_prefix),
                None => String::new(),
            };
            r.push(topic);
            i += 1;
        }
        r
    }

    /// The discovery topic and document of each device, in some order of the
    /// devices.
    pub fn create_discovery_info(&self, discovery_prefix: &str) -> (r: Vec<(String, DeviceDiscovery)>)
        requires
            self.wf(),
        ensures
            exists|keys: Seq<String>| #[trigger] keys_match(keys, self.view()) && r@.len() == keys.len()
                && forall|i: int| 0 <= i < keys.len() ==> {
                    let d = self.view()[keys[i]@];
                    &&& (#[trigger] r@[i]).0@ == discovery_prefix@ + "/device/"@ + keys[i]@ + "/config"@
                    &&& r@[i].1.device == d.details
                    &&& r@[i].1.origin == d.origin
                    &&& r@[i].1.availability_topic == d.availability_topic
                    &&& r@[i].1.components_view() == components_view(d.entities@, d.details.identifier@, d.availability_topic@)
                },
    {
        let keys = devicemap_keys(&self.map);
        let mut r: Vec<(String, DeviceDiscovery)> = Vec::new();
        let mut i: usize = 0;
        while i < keys.len()
            invariant
                i <= keys@.len(),
                keys_match(keys@, self.view()),
                keyed_by_identifier(self.view()),
                r@.len() == i,
                forall|j: int| 0 <= j < i ==> {
                    let d = self.view()[keys@[j]@];
                    &&& (#[trigger] r@[j]).0@ == discovery_prefix@ + "/device/"@ + keys@[j]@ + "/config"@
                    &&& r@[j].1.device == d.details
                    &&& r@[j].1.origin == d.origin
                    &&& r@[j].1.availability_topic == d.availability_topic
                    &&& r@[j].1.components_view() == components_view(d.entities@, d.details.identifier@, d.availability_topic@)
                },
            decreases keys@.len() - i,
        {
            let device = devicemap_get(&self.map, keys[i].as_str());
            match device {
                Some(d) => {
                    r.push((d.discovery_topic(discovery_prefix), d.json_for_discovery()));
                },
                None => {},
            }
            i += 1;
        }
        r
    }

    /// The devices, each once, in some order.
    pub fn into_vec(self) -> (r: Vec<Device>)
        ensures
            exists|keys: Seq<String>| #[trigger] keys_match(keys, self.view()) && r@.len() == keys.len()
                && forall|i: int| 0 <= i < keys.len() ==> #[trigger] r@[i] == self.view()[keys[i]@],
    {
        let keys = devicemap_keys(&self.map);
        let ghost start = self.view();
        let mut map = self.map;
        let mut r: Vec<Device> = Vec::new();
        let mut i: usize = 0;
        while i < keys.len()
            invariant
                i <= keys@.len(),
                keys_match(keys@, start),
                r@.len() == i,
                forall|j: int| 0 <= j < i ==> #[trigger] r@[j] == start[keys@[j]@],
                forall|j: int| i <= j < keys@.len() ==> #[trigger] device_map_contents(map).contains_key(keys@[j]@)
                    && device_map_contents(map)[keys@[j]@] == start[keys@[j]@],
            decreases keys@.len() - i,
        {
            let taken = devicemap_remove(&mut map, keys[i].as_str());
            match taken {
                Some(d) => {
                    r.push(d);
                },
                None => {},
            }
            proof {
                assert forall|j: int| i + 1 <= j < keys@.len() implies #[trigger] device_map_contents(map).contains_key(keys@[j]@)
                    && device_map_contents(map)[keys@[j]@] == start[keys@[j]@] by {
                    assert(keys@[j]@ != keys@[i as int]@);
                }
            }
            i += 1;
        }
        r
    }
}

/// A device added to the collection is found under its identifier, as the last
/// of the added devices with that identifier; devices with other identifiers
/// stay as they were.
pub proof fn lemma_added_device_is_found(before: Map<Seq<char>, Device>, added: Seq<Device>, k: Seq<char>)
    ensures
        devices_map_of(added).contains_key(k) ==> before.union_prefer_right(devices_map_of(added))[k] == devices_map_of(added)[k],
        !devices_map_of(added).contains_key(k) ==> (before.union_prefer_right(devices_map_of(added)).contains_key(k) <==> before.contains_key(k)),
        !devices_map_of(added).contains_key(k) && before.contains_key(k) ==> before.union_prefer_right(devices_map_of(added))[k] == before[k],
{
}

} // verus!
