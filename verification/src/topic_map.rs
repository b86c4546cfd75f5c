//! Maps from MQTT topics to payloads, and the rule that publishes only what
//! changed.

use vstd::prelude::*;
use vstd::string::*;
use crate::strings::starts_with;

verus! {

/// A map from topics to payloads.
#[verifier::external_body]
pub struct TopicMap {
    inner: hashbrown::HashMap<String, String>,
}

/// The topics and payloads that a map holds.
pub uninterp spec fn topic_map_contents(m: TopicMap) -> Map<Seq<char>, Seq<char>>;

/// `hashbrown::HashMap::new`: an empty map.
#[verifier::external_body]
fn hashmap_new() -> (map: TopicMap)
    ensures
        topic_map_contents(map) == no_topics(),
{
    TopicMap { inner: hashbrown::HashMap::new() }
}

/// `hashbrown::HashMap::insert`: sets `key` to `value` and gives back the value
/// that `key` had.
#[verifier::external_body]
fn hashmap_insert(m: &mut TopicMap, key: String, value: String) -> (r: Option<String>)
    ensures
        topic_map_contents(*final(m)) == topic_map_contents(*old(m)).insert(key@, value@),
        match r {
            Some(v) => topic_map_contents(*old(m)).contains_key(key@) && v@ == topic_map_contents(*old(m))[key@],
            None => !topic_map_contents(*old(m)).contains_key(key@),
        },
{
    m.inner.insert(key, value)
}

/// `hashbrown::HashMap::get`: the value of `key`, copied.
#[verifier::external_body]
fn hashmap_get(m: &TopicMap, key: &str) -> (r: Option<String>)
    ensures
        match r {
            Some(v) => topic_map_contents(*m).contains_key(key@) && v@ == topic_map_contents(*m)[key@],
            None => !topic_map_contents(*m).contains_key(key@),
        },
{
    m.inner.get(key).cloned()
}

/// `hashbrown::HashMap::remove`: takes `key` out and gives back its value.
#[verifier::external_body]
fn hashmap_remove(m: &mut TopicMap, key: &str) -> (r: Option<String>)
    ensures
        topic_map_contents(*final(m)) == topic_map_contents(*old(m)).remove(key@),
        match r {
            Some(v) => topic_map_contents(*old(m)).contains_key(key@) && v@ == topic_map_contents(*old(m))[key@],
            None => !topic_map_contents(*old(m)).contains_key(key@),
        },
{
    m.inner.remove(key)
}

/// `hashbrown::HashMap::len`: the number of keys.
#[verifier::external_body]
fn hashmap_len(m: &TopicMap) -> (r: usize)
    ensures
        r == topic_map_contents(*m).len(),
        r == 0 ==> topic_map_contents(*m) == no_topics(),
{
    m.inner.len()
}

/// `hashbrown::HashMap::iter`, each pair copied: every key once, with its
/// value, in an order that the map decides.
#[verifier::external_body]
fn hashmap_entries(m: &TopicMap) -> (r: Vec<(String, String)>)
    ensures
        entries_match(r@, topic_map_contents(*m)),
{
    m.inner.iter().map(|(k, v)| (k.clone(), v.clone())).collect()
}

/// The map without topics.
pub open spec fn no_topics() -> Map<Seq<char>, Seq<char>> {
    Map::empty()
}

/// A list of pairs holds each key of a map exactly once, with its value.
pub open spec fn entries_match(s: Seq<(String, String)>, m: Map<Seq<char>, Seq<char>>) -> bool {
    &&& forall|i: int, j: int| 0 <= i < j < s.len() ==> (#[trigger] s[i]).0@ != (#[trigger] s[j]).0@
    &&& forall|i: int| 0 <= i < s.len() ==> m.contains_key((#[trigger] s[i]).0@) && m[s[i].0@] == s[i].1@
    &&& forall|k: Seq<char>| m.contains_key(k) ==> exists|i: int| 0 <= i < s.len() && (#[trigger] s[i]).0@ == k
}

/// The map that a list of pairs gives, a later pair replacing an earlier one.
pub open spec fn pairs_map(s: Seq<(String, String)>) -> Map<Seq<char>, Seq<char>>
    decreases s.len(),
{
    if s.len() == 0 {
        Map::empty()
    } else {
        pairs_map(s.drop_last()).insert(s.last().0@, s.last().1@)
    }
}

/// The pairs of `data` that are not already in `last`: new topics, and topics
/// whose payload changed.
pub open spec fn changed_entries(data: Map<Seq<char>, Seq<char>>, last: Map<Seq<char>, Seq<char>>) -> Map<Seq<char>, Seq<char>> {
    Map::new(
        |k: Seq<char>| data.contains_key(k) && !(last.contains_key(k) && last[k] == data[k]),
        |k: Seq<char>| data[k],
    )
}

/// A topic lies under one of the prefixes.
pub open spec fn has_prefix_in(topic: Seq<char>, prefixes: Seq<Seq<char>>) -> bool {
    exists|i: int| 0 <= i < prefixes.len() && #[trigger] prefixes[i].len() <= topic.len() && topic.subrange(0, prefixes[i].len() as int) == prefixes[i]
}

impl TopicMap {
    /// The topics and payloads of this map.
    pub open spec fn view(&self) -> Map<Seq<char>, Seq<char>> {
        topic_map_contents(*self)
    }

    /// An empty map.
    pub fn new() -> (r: TopicMap)
        ensures
            r.view() == Map::<Seq<char>, Seq<char>>::empty(),
    {
        hashmap_new()
    }

    /// Sets `topic` to `payload`.
    pub fn insert(&mut self, topic: String, payload: String)
        ensures
            final(self).view() == old(self).view().insert(topic@, payload@),
    {
        let _ = hashmap_insert(self, topic, payload);
    }

    /// The payload of `topic`.
    pub fn get(&self, topic: &str) -> (r: Option<String>)
        ensures
            match r {
                Some(v) => self.view().contains_key(topic@) && v@ == self.view()[topic@],
                None => !self.view().contains_key(topic@),
            },
    {
        hashmap_get(self, topic)
    }

    /// Takes `topic` out of the map.
    pub fn remove(&mut self, topic: &str)
        ensures
            final(self).view() == old(self).view().remove(topic@),
    {
        let _ = hashmap_remove(self, topic);
    }

    /// The number of topics.
    pub fn len(&self) -> (r: usize)
        ensures
            r == self.view().len(),
    {
        hashmap_len(self)
    }

    /// Whether the map holds no topic.
    pub fn is_empty(&self) -> (r: bool)
        ensures
            r == (self.view() == no_topics()),
    {
        let n = hashmap_len(self);
        if n == 0 {
            true
        } else {
            proof {
                if self.view() == no_topics() {
                    assert(self.view().dom() =~= Set::<Seq<char>>::empty());
                }
            }
            false
        }
    }

    /// Every topic with its payload, each once, in an order the map decides.
    pub fn entries(&self) -> (r: Vec<(String, String)>)
        ensures
            entries_match(r@, self.view()),
    {
        hashmap_entries(self)
    }

    /// A map of the given pairs, a later pair replacing an earlier one.
    pub fn from_pairs(pairs: Vec<(String, String)>) -> (r: TopicMap)
        ensures
            r.view() == pairs_map(pairs@),
    {
        let mut m = TopicMap::new();
        let mut pairs = pairs;
        let ghost all = pairs@;
        let mut i: usize = 0;
        let n = pairs.len();
        let mut rest: Vec<(String, String)> = Vec::new();
        while i < n
            invariant
                n == all.len(),
                i <= n,
                pairs@ == all,
                m.view() == pairs_map(all.subrange(0, i as int)),
            decreases n - i,
        {
            let (k, v) = clone_pair(&pairs[i]);
            m.insert(k, v);
            proof {
                assert(all.subrange(0, i + 1).drop_last() =~= all.subrange(0, i as int));
            }
            i += 1;
        }
        proof {
            assert(all.subrange(0, n as int) =~= all);
        }
        m
    }

    /// Sets every topic of `other` to its payload there.
    pub fn extend(&mut self, other: &TopicMap)
        ensures
            final(self).view() == old(self).view().union_prefer_right(other.view()),
    {
        let entries = other.entries();
        let ghost start = self.view();
        let mut i: usize = 0;
        while i < entries.len()
            invariant
                i <= entries@.len(),
                entries_match(entries@, other.view()),
                forall|k: Seq<char>| #[trigger] self.view().contains_key(k) <==> (start.contains_key(k) || exists|j: int| 0 <= j < i && entries@[j].0@ == k),
                forall|k: Seq<char>| #[trigger] self.view().contains_key(k) ==> self.view()[k] == (if exists|j: int| 0 <= j < i && entries@[j].0@ == k { other.view()[k] } else { start[k] }),
            decreases entries@.len() - i,
        {
            let (k, v) = clone_pair(&entries[i]);
            self.insert(k, v);
            proof {
                assert forall|key: Seq<char>| #[trigger] self.view().contains_key(key) implies self.view()[key] == (if exists|j: int| 0 <= j < i + 1 && entries@[j].0@ == key { other.view()[key] } else { start[key] }) by {
                    if key == entries@[i as int].0@ {
                        assert(exists|j: int| 0 <= j < i + 1 && entries@[j].0@ == key);
                    } else {
                        if exists|j: int| 0 <= j < i + 1 && entries@[j].0@ == key {
                            let j = choose|j: int| 0 <= j < i + 1 && entries@[j].0@ == key;
                            assert(j != i);
                        }
                    }
                }
                assert forall|key: Seq<char>| #[trigger] self.view().contains_key(key) <==> (start.contains_key(key) || exists|j: int| 0 <= j < i + 1 && entries@[j].0@ == key) by {
                    if exists|j: int| 0 <= j < i + 1 && entries@[j].0@ == key {
                        let j = choose|j: int| 0 <= j < i + 1 && entries@[j].0@ == key;
                        if j < i {
                            assert(exists|j2: int| 0 <= j2 < i && entries@[j2].0@ == key);
                        }
                    }
                }
            }
            i += 1;
        }
        proof {
            let want = start.union_prefer_right(other.view());
            assert forall|k: Seq<char>| #[trigger] self.view().contains_key(k) <==> want.contains_key(k) by {
                if other.view().contains_key(k) {
                    let j = choose|j: int| 0 <= j < entries@.len() && (#[trigger] entries@[j]).0@ == k;
                    assert(exists|j2: int| 0 <= j2 < i && entries@[j2].0@ == k);
                }
            }
            assert forall|k: Seq<char>| self.view().contains_key(k) implies #[trigger] self.view()[k] == want[k] by {
                if exists|j: int| 0 <= j < i && entries@[j].0@ == k {
                    let j = choose|j: int| 0 <= j < i && entries@[j].0@ == k;
                    assert(other.view().contains_key(k));
                } else {
                    if other.view().contains_key(k) {
                        let j = choose|j: int| 0 <= j < entries@.len() && (#[trigger] entries@[j]).0@ == k;
                        assert(exists|j2: int| 0 <= j2 < i && entries@[j2].0@ == k);
                    }
                }
            }
            assert(self.view() =~= want);
        }
    }
}

/// A pair of strings, copied.
pub fn clone_pair(p: &(String, String)) -> (r: (String, String))
    ensures
        r == *p,
{
    (p.0.clone(), p.1.clone())
}

} // verus!
