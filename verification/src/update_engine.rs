//! The rules of periodic publishing: only new or changed payloads are
//! published, and the payloads of removed devices are forgotten.

use vstd::prelude::*;
use vstd::string::*;
use crate::topic_map::{TopicMap, changed_entries, entries_match, has_prefix_in, clone_pair};
use crate::strings::{starts_with, str_eq};
use crate::device::Device;
use crate::entity_details::EntityDetailsGetter;

verus! {

/// Some pair among the first `i` of a list has the key `k`.
pub open spec fn seen(s: Seq<(String, String)>, i: int, k: Seq<char>) -> bool {
    exists|j: int| 0 <= j < i && (#[trigger] s[j]).0@ == k
}

/// The payloads to publish out of `data`: those that are new or changed since
/// the last published payloads. Every payload of `data` becomes the last
/// published one of its topic.
pub fn filter_data(data: &TopicMap, last_messages: &mut TopicMap) -> (r: TopicMap)
    ensures
        r.view() == changed_entries(data.view(), old(last_messages).view()),
        final(last_messages).view() == old(last_messages).view().union_prefer_right(data.view()),
{
    let entries = data.entries();
    let ghost start = last_messages.view();
    let ghost d = data.view();
    let mut published = TopicMap::new();
    let mut i: usize = 0;
    while i < entries.len()
        invariant
            i <= entries@.len(),
            entries_match(entries@, d),
            d == data.view(),
            forall|k: Seq<char>| #[trigger] last_messages.view().contains_key(k) <==> (start.contains_key(k) || seen(entries@, i as int, k)),
            forall|k: Seq<char>| #[trigger] last_messages.view().contains_key(k) ==> last_messages.view()[k] == (if seen(entries@, i as int, k) { d[k] } else { start[k] }),
            forall|k: Seq<char>| #[trigger] published.view().contains_key(k) <==> (seen(entries@, i as int, k) && !(start.contains_key(k) && start[k] == d[k])),
            forall|k: Seq<char>| #[trigger] published.view().contains_key(k) ==> published.view()[k] == d[k],
        decreases entries@.len() - i,
    {
        let (topic, payload) = clone_pair(&entries[i]);
        let ghost key = topic@;
        proof {
            assert(!seen(entries@, i as int, key)) by {
                if seen(entries@, i as int, key) {
                    let j = choose|j: int| 0 <= j < i && (#[trigger] entries@[j]).0@ == key;
                    assert(entries@[j].0@ != entries@[i as int].0@);
                }
            }
            assert(d.contains_key(key) && d[key] == payload@);
        }
        let previous = last_messages.get(topic.as_str());
        let unchanged = match &previous {
            Some(p) => str_eq(p.as_str(), payload.as_str()),
            None => false,
        };
        if !unchanged {
            published.insert(topic.clone(), payload.clone());
            last_messages.insert(topic, payload);
        }
        proof {
            assert(unchanged == (start.contains_key(key) && start[key] == d[key]));
            assert forall|k: Seq<char>| #[trigger] last_messages.view().contains_key(k) <==> (start.contains_key(k) || seen(entries@, i + 1, k)) by {
                if k == key {
                    assert(seen(entries@, i + 1, k));
                } else if seen(entries@, i + 1, k) {
                    let j = choose|j: int| 0 <= j < i + 1 && (#[trigger] entries@[j]).0@ == k;
                    assert(seen(entries@, i as int, k));
                }
            }
            assert forall|k: Seq<char>| #[trigger] last_messages.view().contains_key(k) implies last_messages.view()[k] == (if seen(entries@, i + 1, k) { d[k] } else { start[k] }) by {
                if k == key {
                    assert(seen(entries@, i + 1, k));
                } else if seen(entries@, i + 1, k) {
                    let j = choose|j: int| 0 <= j < i + 1 && (#[trigger] entries@[j]).0@ == k;
                    assert(seen(entries@, i as int, k));
                }
            }
            assert forall|k: Seq<char>| #[trigger] published.view().contains_key(k) <==> (seen(entries@, i + 1, k) && !(start.contains_key(k) && start[k] == d[k])) by {
                if k == key {
                    assert(seen(entries@, i + 1, k));
                } else if seen(entries@, i + 1, k) {
                    let j = choose|j: int| 0 <= j < i + 1 && (#[trigger] entries@[j]).0@ == k;
                    assert(seen(entries@, i as int, k));
                }
            }
        }
        i += 1;
    }
    proof {
        assert forall|k: Seq<char>| d.contains_key(k) implies seen(entries@, i as int, k) by {
            let j = choose|j: int| 0 <= j < entries@.len() && (#[trigger] entries@[j]).0@ == k;
        }
        assert forall|k: Seq<char>| seen(entries@, i as int, k) implies d.contains_key(k) by {
            let j = choose|j: int| 0 <= j < i && (#[trigger] entries@[j]).0@ == k;
        }
        assert(published.view() =~= changed_entries(d, start));
        assert(last_messages.view() =~= start.union_prefer_right(d));
    }
    published
}

/// Filtering the same data twice publishes nothing the second time.
pub proof fn lemma_filter_is_idempotent(data: Map<Seq<char>, Seq<char>>, last: Map<Seq<char>, Seq<char>>)
    ensures
        changed_entries(data, last.union_prefer_right(data)) == Map::<Seq<char>, Seq<char>>::empty(),
{
    assert(changed_entries(data, last.union_prefer_right(data)) =~= Map::<Seq<char>, Seq<char>>::empty());
}

/// What is published is part of the data, and every topic of the data that is
/// not published already had the same payload as last time.
pub proof fn lemma_filter_publishes_exactly_the_changes(data: Map<Seq<char>, Seq<char>>, last: Map<Seq<char>, Seq<char>>)
    ensures
        changed_entries(data, last).submap_of(data),
        forall|k: Seq<char>| #[trigger] data.contains_key(k) && !changed_entries(data, last).contains_key(k)
            ==> last.contains_key(k) && last[k] == data[k],
{
}

/// The last payloads without the topics under any of the prefixes.
pub open spec fn without_prefixes(last: Map<Seq<char>, Seq<char>>, prefixes: Seq<Seq<char>>) -> Map<Seq<char>, Seq<char>> {
    Map::new(|k: Seq<char>| last.contains_key(k) && !has_prefix_in(k, prefixes), |k: Seq<char>| last[k])
}

/// The characters of each string of a list.
pub open spec fn string_views(s: Seq<String>) -> Seq<Seq<char>> {
    s.map_values(|p: String| p@)
}

/// Whether `topic` lies under one of the first `n` prefixes.
fn under_any_prefix(topic: &str, prefixes: &Vec<String>) -> (r: bool)
    ensures
        r == has_prefix_in(topic@, string_views(prefixes@)),
{
    let ghost pv = string_views(prefixes@);
    let mut i: usize = 0;
    while i < prefixes.len()
        invariant
            i <= prefixes@.len(),
            pv == string_views(prefixes@),
            forall|j: int| 0 <= j < i ==> !(#[trigger] pv[j].len() <= topic@.len() && topic@.subrange(0, pv[j].len() as int) == pv[j]),
        decreases prefixes@.len() - i,
    {
        if starts_with(topic, prefixes[i].as_str()) {
            proof {
                assert(pv[i as int] == prefixes@[i as int]@);
            }
            return true;
        }
        i += 1;
    }
    false
}

/// Forgets the last payloads of every topic under one of the prefixes (the
/// topic paths of the entities of removed devices).
pub fn forget_topics_with_prefixes(last_messages: &mut TopicMap, prefixes: &Vec<String>)
    ensures
        final(last_messages).view() == without_prefixes(old(last_messages).view(), string_views(prefixes@)),
{
    let ghost start = last_messages.view();
    let ghost pv = string_views(prefixes@);
    let entries = last_messages.entries();
    let mut i: usize = 0;
    while i < entries.len()
        invariant
            i <= entries@.len(),
            entries_match(entries@, start),
            pv == string_views(prefixes@),
            forall|k: Seq<char>| #[trigger] last_messages.view().contains_key(k) <==> (start.contains_key(k) && !(seen(entries@, i as int, k) && has_prefix_in(k, pv))),
            forall|k: Seq<char>| #[trigger] last_messages.view().contains_key(k) ==> last_messages.view()[k] == start[k],
        decreases entries@.len() - i,
    {
        let topic = &entries[i].0;
        let ghost key = topic@;
        assert(key == entries@[i as int].0@);
        let under = under_any_prefix(topic.as_str(), prefixes);
        let ghost before = last_messages.view();
        if under {
            last_messages.remove(topic.as_str());
        }
        proof {
            assert(!seen(entries@, i as int, key)) by {
                if seen(entries@, i as int, key) {
                    let j = choose|j: int| 0 <= j < i && (#[trigger] entries@[j]).0@ == key;
                    assert(entries@[j].0@ != entries@[i as int].0@);
                }
            }
            assert(under == has_prefix_in(key, pv));
            assert(seen(entries@, i + 1, key));
            assert forall|k: Seq<char>| #[trigger] last_messages.view().contains_key(k) <==> (start.contains_key(k) && !(seen(entries@, i + 1, k) && has_prefix_in(k, pv))) by {
                if k == key {
                    assert(seen(entries@, i + 1, k));
                    if under {
                        assert(!last_messages.view().contains_key(k));
                    } else {
                        assert(last_messages.view() == before);
                        assert(before.contains_key(k) == start.contains_key(k));
                    }
                } else if seen(entries@, i + 1, k) {
                    let j = choose|j: int| 0 <= j < i + 1 && (#[trigger] entries@[j]).0@ == k;
                    assert(seen(entries@, i as int, k));
                }
            }
        }
        i += 1;
    }
    proof {
        assert forall|k: Seq<char>| start.contains_key(k) implies seen(entries@, i as int, k) by {
            let j = choose|j: int| 0 <= j < entries@.len() && (#[trigger] entries@[j]).0@ == k;
        }
        assert(last_messages.view() =~= without_prefixes(start, pv));
    }
}

/// The data of several devices put together, a later device's payload
/// replacing an earlier one's for the same topic.
pub open spec fn merged(datas: Seq<TopicMap>) -> Map<Seq<char>, Seq<char>>
    decreases datas.len(),
{
    if datas.len() == 0 {
        Map::empty()
    } else {
        merged(datas.drop_last()).union_prefer_right(datas.last().view())
    }
}

/// Puts the data of several devices together.
pub fn merge_data(datas: &Vec<TopicMap>) -> (r: TopicMap)
    ensures
        r.view() == merged(datas@),
{
    let mut all = TopicMap::new();
    let mut i: usize = 0;
    while i < datas.len()
        invariant
            i <= datas@.len(),
            all.view() == merged(datas@.subrange(0, i as int)),
        decreases datas@.len() - i,
    {
        all.extend(&datas[i]);
        proof {
            assert(datas@.subrange(0, i + 1).drop_last() =~= datas@.subrange(0, i as int));
        }
        i += 1;
    }
    proof {
        assert(datas@.subrange(0, i as int) =~= datas@);
    }
    all
}

/// What filtering the data of each device in turn publishes: each device's
/// changes against the last payloads as they stand after the devices before it.
pub open spec fn published_in_turn(datas: Seq<TopicMap>, last: Map<Seq<char>, Seq<char>>) -> Map<Seq<char>, Seq<char>>
    decreases datas.len(),
{
    if datas.len() == 0 {
        Map::empty()
    } else {
        published_in_turn(datas.drop_last(), last).union_prefer_right(
            changed_entries(datas.last().view(), last.union_prefer_right(merged(datas.drop_last()))),
        )
    }
}

/// Filters the data of each device in turn against the last published
/// payloads, and puts together what is to be published.
pub fn filter_devices_data(datas: &Vec<TopicMap>, last_messages: &mut TopicMap) -> (r: TopicMap)
    ensures
        r.view() == published_in_turn(datas@, old(last_messages).view()),
        final(last_messages).view() == old(last_messages).view().union_prefer_right(merged(datas@)),
{
    let ghost start = last_messages.view();
    let mut published = TopicMap::new();
    let mut i: usize = 0;
    while i < datas.len()
        invariant
            i <= datas@.len(),
            last_messages.view() == start.union_prefer_right(merged(datas@.subrange(0, i as int))),
            published.view() == published_in_turn(datas@.subrange(0, i as int), start),
        decreases datas@.len() - i,
    {
        let changes = filter_data(&datas[i], last_messages);
        published.extend(&changes);
        proof {
            assert(datas@.subrange(0, i + 1).drop_last() =~= datas@.subrange(0, i as int));
            assert(last_messages.view() =~= start.union_prefer_right(merged(datas@.subrange(0, i + 1))));
        }
        i += 1;
    }
    proof {
        assert(datas@.subrange(0, i as int) =~= datas@);
    }
    published
}

/// What the periodic publishing hands to the device manager.
pub enum UpdateEvent {
    /// Payloads to publish, by topic.
    Data(TopicMap),
    /// Devices that were removed.
    DevicesRemoved(Vec<Device>),
    /// The identifiers of devices that were added.
    DevicesCreated(Vec<String>),
}

/// The topic path of each entity of a list.
pub open spec fn entity_paths(es: Seq<crate::entities::Entity>) -> Seq<Seq<char>> {
    es.map_values(|e: crate::entities::Entity| e.details_view().path(None))
}

/// The topic path of every entity of the removed devices, device after device.
pub open spec fn removed_prefixes_of(removed: Seq<Device>) -> Seq<Seq<char>>
    decreases removed.len(),
{
    if removed.len() == 0 {
        Seq::empty()
    } else {
        removed_prefixes_of(removed.drop_last()) + entity_paths(removed.last().entities@)
    }
}

/// The producer of the periodic update events.
pub struct TimedUpdateEventProvider;

impl TimedUpdateEventProvider {
    /// The topic paths of the entities of the removed devices.
    pub fn removed_topic_prefixes(removed: &Vec<Device>) -> (r: Vec<String>)
        ensures
            string_views(r@) == removed_prefixes_of(removed@),
    {
        let mut r: Vec<String> = Vec::new();
        let mut i: usize = 0;
        while i < removed.len()
            invariant
                i <= removed@.len(),
                string_views(r@) == removed_prefixes_of(removed@.subrange(0, i as int)),
            decreases removed@.len() - i,
        {
            let ghost before = r@;
            let entities = &removed[i].entities;
            let mut j: usize = 0;
            while j < entities.len()
                invariant
                    j <= entities@.len(),
                    string_views(r@) == string_views(before) + entity_paths(entities@.subrange(0, j as int)),
                decreases entities@.len() - j,
            {
                let ghost rb = r@;
                r.push(entities[j].details().get_topic_path(None));
                proof {
                    assert(string_views(r@) =~= string_views(rb).push(r@[r@.len() - 1]@));
                    assert(entity_paths(entities@.subrange(0, j + 1)) =~= entity_paths(entities@.subrange(0, j as int)).push(entities@[j as int].details_view().path(None)));
                    assert(string_views(r@) =~= string_views(before) + entity_paths(entities@.subrange(0, j + 1)));
                }
                j += 1;
            }
            proof {
                assert(entities@.subrange(0, j as int) =~= entities@);
                assert(removed@.subrange(0, i + 1).drop_last() =~= removed@.subrange(0, i as int));
            }
            i += 1;
        }
        proof {
            assert(removed@.subrange(0, i as int) =~= removed@);
        }
        r
    }

    /// The events of a round of device discovery: the last payloads of the
    /// removed devices' topics are forgotten, and the added and removed devices
    /// are announced, each only when there are some.
    pub fn devices_change_events(added: Vec<String>, removed: Vec<Device>, last_messages: &mut TopicMap) -> (r: Vec<UpdateEvent>)
        ensures
            final(last_messages).view() == without_prefixes(old(last_messages).view(), removed_prefixes_of(removed@)),
            r@.len() == (if added@.len() > 0 { 1int } else { 0int }) + (if removed@.len() > 0 { 1int } else { 0int }),
            added@.len() > 0 ==> (r@[0] matches UpdateEvent::DevicesCreated(a) && a == added),
            removed@.len() > 0 ==> (r@[r@.len() - 1] matches UpdateEvent::DevicesRemoved(d) && d == removed),
    {
        let prefixes = Self::removed_topic_prefixes(&removed);
        forget_topics_with_prefixes(last_messages, &prefixes);
        let mut events: Vec<UpdateEvent> = Vec::new();
        if added.len() > 0 {
            events.push(UpdateEvent::DevicesCreated(added));
        }
        if removed.len() > 0 {
            events.push(UpdateEvent::DevicesRemoved(removed));
        }
        events
    }
}

} // verus!
