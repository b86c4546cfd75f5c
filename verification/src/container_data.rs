//! The data that the container and host entities publish, computed from what
//! the Docker engine answered: disk usage, networks, version, logs, memory.

use vstd::prelude::*;
use vstd::string::*;
use crate::docker::{UsageReport, usage_report, tally_of, tally_fits, kib_of, network_names, network_names_of, joined_lines, join_lines};
use crate::update_engine::string_views;
use crate::strings::{decimal, signed_decimal, push_decimal, u64_to_string, i64_to_string, push_char};
use crate::topic_map::TopicMap;

verus! {

// ---------------------------------------------------------------- disk usage

/// The JSON text of the attributes of a kind of disk object: how many are in
/// use, and their reclaimable and total sizes in kibibytes, keys in order.
pub open spec fn usage_attributes_text(prefix: Seq<char>, r: UsageReport) -> Seq<char> {
    "{\""@ + prefix + "_active\":"@ + decimal(r.active as nat)
        + ",\""@ + prefix + "_reclaimable_kib\":"@ + signed_decimal(r.reclaimable_kib as int)
        + ",\""@ + prefix + "_size_kib\":"@ + signed_decimal(r.size_kib as int) + "}"@
}

fn push_signed(s: &mut String, n: i64)
    ensures
        final(s)@ == old(s)@ + signed_decimal(n as int),
{
    let t = i64_to_string(n);
    s.append(t.as_str());
}

/// Renders the attributes of a kind of disk object.
pub fn usage_attributes(prefix: &str, r: &UsageReport) -> (t: String)
    ensures
        t@ == usage_attributes_text(prefix@, *r),
{
    let mut t = String::new();
    t.append("{\"");
    t.append(prefix);
    t.append("_active\":");
    push_decimal(&mut t, r.active);
    t.append(",\"");
    t.append(prefix);
    t.append("_reclaimable_kib\":");
    push_signed(&mut t, r.reclaimable_kib);
    t.append(",\"");
    t.append(prefix);
    t.append("_size_kib\":");
    push_signed(&mut t, r.size_kib);
    t.append("}");
    proof {
        assert(t@ =~= usage_attributes_text(prefix@, *r));
    }
    t
}

/// Whether the running totals of a list of disk objects stay within 64-bit
/// integers, as the sums need.
pub fn usage_fits(items: &Vec<Option<(i64, bool)>>) -> (r: bool)
    ensures
        r == tally_fits(items@),
{
    let mut size: i128 = 0;
    let mut reclaimable: i128 = 0;
    let mut i: usize = 0;
    proof {
        assert(items@.subrange(0, 0) =~= Seq::<Option<(i64, bool)>>::empty());
    }
    while i < items.len()
        invariant
            i <= items@.len(),
            size as int == tally_of(items@.subrange(0, i as int)).2,
            reclaimable as int == tally_of(items@.subrange(0, i as int)).3,
            forall|j: int| 0 <= j <= i ==> {
                let t = #[trigger] tally_of(items@.subrange(0, j));
                i64::MIN <= t.2 <= i64::MAX && i64::MIN <= t.3 <= i64::MAX
            },
        decreases items@.len() - i,
    {
        let ghost after = items@.subrange(0, i + 1);
        proof {
            assert(after.drop_last() =~= items@.subrange(0, i as int));
        }
        match items[i] {
            None => {},
            Some((s, in_use)) => {
                size = size + s as i128;
                if !in_use {
                    reclaimable = reclaimable + s as i128;
                }
            },
        }
        if size < i64::MIN as i128 || size > i64::MAX as i128 || reclaimable < i64::MIN as i128 || reclaimable > i64::MAX as i128 {
            proof {
                let t = tally_of(items@.subrange(0, i + 1));
                assert(!(i64::MIN <= t.2 <= i64::MAX && i64::MIN <= t.3 <= i64::MAX));
            }
            return false;
        }
        i += 1;
    }
    proof {
        assert(items@.subrange(0, i as int) =~= items@);
        assert forall|j: int| 0 <= j <= items@.len() implies {
            let t = #[trigger] tally_of(items@.subrange(0, j));
            i64::MIN <= t.2 <= i64::MAX && i64::MIN <= t.3 <= i64::MAX
        } by {
            assert(items@.subrange(0, j) == items@.subrange(0, i as int).subrange(0, j));
        }
    }
    true
}

/// The disk usage lists of the four kinds of objects, each object by its size
/// and whether it is in use (`None`: a volume without usage data).
#[derive(Debug, Clone)]
pub struct DiskUsage {
    pub images: Vec<Option<(i64, bool)>>,
    pub volumes: Vec<Option<(i64, bool)>>,
    pub build_caches: Vec<Option<(i64, bool)>>,
    pub containers: Vec<Option<(i64, bool)>>,
}

/// The topics of the disk usage entities of the host device.
#[derive(Debug, Clone, PartialEq)]
pub struct DiskFreeTopics {
    pub images_state_topic: String,
    pub images_attributes_state_topic: String,
    pub volumes_state_topic: String,
    pub volumes_attributes_state_topic: String,
    pub build_cache_state_topic: String,
    pub build_cache_attributes_state_topic: String,
    pub number_of_containers_state_topic: String,
    pub number_of_containers_attributes_state_topic: String,
}

/// The report of a list of disk objects, from its tally.
pub open spec fn report_of(items: Seq<Option<(i64, bool)>>) -> UsageReport {
    let t = tally_of(items);
    UsageReport {
        count: t.0 as u64,
        active: t.1 as u64,
        size_kib: kib_of(t.2) as i64,
        reclaimable_kib: kib_of(t.3) as i64,
    }
}

/// Every list of a disk usage answer sums within 64-bit integers.
pub open spec fn disk_usage_fits(u: DiskUsage) -> bool {
    tally_fits(u.images@) && tally_fits(u.volumes@) && tally_fits(u.build_caches@) && tally_fits(u.containers@)
}

/// What is published about disk usage: for each kind, its count on its state
/// topic and its attributes on its attributes topic; nothing when the engine
/// left a kind out.
pub open spec fn disk_free_view(t: DiskFreeTopics, usage: Option<DiskUsage>) -> Map<Seq<char>, Seq<char>> {
    match usage {
        None => Map::empty(),
        Some(u) => Map::<Seq<char>, Seq<char>>::empty()
            .insert(t.images_state_topic@, decimal(tally_of(u.images@).0 as nat))
            .insert(t.images_attributes_state_topic@, usage_attributes_text("images"@, report_of(u.images@)))
            .insert(t.volumes_state_topic@, decimal(tally_of(u.volumes@).0 as nat))
            .insert(t.volumes_attributes_state_topic@, usage_attributes_text("volumes"@, report_of(u.volumes@)))
            .insert(t.build_cache_state_topic@, decimal(tally_of(u.build_caches@).0 as nat))
            .insert(t.build_cache_attributes_state_topic@, usage_attributes_text("build_caches"@, report_of(u.build_caches@)))
            .insert(t.number_of_containers_state_topic@, decimal(tally_of(u.containers@).0 as nat))
            .insert(t.number_of_containers_attributes_state_topic@, usage_attributes_text("containers"@, report_of(u.containers@))),
    }
}

fn report_for(items: &Vec<Option<(i64, bool)>>) -> (r: UsageReport)
    requires
        tally_fits(items@),
    ensures
        r == report_of(items@),
        r.count as int == tally_of(items@).0,
{
    let r = usage_report(items);
    r
}

/// The data of the disk usage entities.
pub fn disk_free_data(topics: &DiskFreeTopics, usage: &Option<DiskUsage>) -> (r: TopicMap)
    requires
        *usage matches Some(u) ==> disk_usage_fits(u),
    ensures
        r.view() == disk_free_view(*topics, *usage),
{
    let mut map = TopicMap::new();
    match usage {
        None => map,
        Some(u) => {
            let images = report_for(&u.images);
            let volumes = report_for(&u.volumes);
            let build_caches = report_for(&u.build_caches);
            let containers = report_for(&u.containers);
            map.insert(topics.images_state_topic.clone(), u64_to_string(images.count));
            map.insert(topics.images_attributes_state_topic.clone(), usage_attributes("images", &images));
            map.insert(topics.volumes_state_topic.clone(), u64_to_string(volumes.count));
            map.insert(topics.volumes_attributes_state_topic.clone(), usage_attributes("volumes", &volumes));
            map.insert(topics.build_cache_state_topic.clone(), u64_to_string(build_caches.count));
            map.insert(topics.build_cache_attributes_state_topic.clone(), usage_attributes("build_caches", &build_caches));
            map.insert(topics.number_of_containers_state_topic.clone(), u64_to_string(containers.count));
            map.insert(topics.number_of_containers_attributes_state_topic.clone(), usage_attributes("containers", &containers));
            map
        },
    }
}

// ---------------------------------------------------------------- networks

/// The JSON text of a list of strings, as serde_json writes it.
pub uninterp spec fn json_string_list(items: Seq<Seq<char>>) -> Seq<char>;

/// `serde_json::to_string` on a list of strings: its JSON text, which depends
/// on the strings alone. Serialising strings does not fail, so the `unwrap`
/// does not panic.
#[verifier::external_body]
fn json_text_of_strings(items: &Vec<String>) -> (r: String)
    ensures
        r@ == json_string_list(string_views(items@)),
{
    serde_json::to_string(items).unwrap()
}

/// What is published about the networks: their number, and the list of their
/// names (name, else id, empty ones left out) as the attributes.
pub open spec fn network_info_view(state_topic: Seq<char>, attributes_topic: Seq<char>, networks: Seq<(Option<String>, Option<String>)>) -> Map<Seq<char>, Seq<char>> {
    Map::<Seq<char>, Seq<char>>::empty()
        .insert(state_topic, decimal(networks.len()))
        .insert(attributes_topic, "{\"networks\":"@ + json_string_list(network_names_of(networks)) + "}"@)
}

/// The data of the networks entity; each network is given as its name and id.
pub fn network_info_data(state_topic: &String, attributes_topic: &String, networks: &Vec<(Option<String>, Option<String>)>) -> (r: TopicMap)
    ensures
        r.view() == network_info_view(state_topic@, attributes_topic@, networks@),
{
    let names = network_names(networks);
    proof {
        assert(string_views(names@) =~= names@.map_values(|s: String| s@));
    }
    let list = json_text_of_strings(&names);
    let mut attributes = String::new();
    attributes.append("{\"networks\":");
    attributes.append(list.as_str());
    attributes.append("}");
    let count = u64_to_string(networks.len() as u64);
    let mut map = TopicMap::new();
    map.insert(state_topic.clone(), count);
    map.insert(attributes_topic.clone(), attributes);
    proof {
        assert(attributes@ =~= "{\"networks\":"@ + json_string_list(network_names_of(networks@)) + "}"@);
    }
    map
}

// ---------------------------------------------------------------- host version, image

/// The data of the host version entity: the engine's version, when it tells it.
pub fn host_version_data(state_topic: &String, server_version: Option<String>) -> (r: TopicMap)
    ensures
        r.view() == match server_version {
            Some(v) => Map::<Seq<char>, Seq<char>>::empty().insert(state_topic@, v@),
            None => Map::<Seq<char>, Seq<char>>::empty(),
        },
{
    let mut map = TopicMap::new();
    match server_version {
        Some(v) => {
            map.insert(state_topic.clone(), v);
        },
        None => {},
    }
    map
}

/// The data of the image entity of a container: the image it was made from.
pub fn image_data(image_topic: &String, image: &String) -> (r: TopicMap)
    ensures
        r.view() == Map::<Seq<char>, Seq<char>>::empty().insert(image_topic@, image@),
{
    let mut map = TopicMap::new();
    map.insert(image_topic.clone(), image.clone());
    map
}

// ---------------------------------------------------------------- stats

/// What goes wrong when reading the statistics of a container.
#[derive(Debug, Clone, Copy, PartialEq, Eq, Structural)]
pub enum ContainerDataError {
    /// The engine gave no statistics, or statistics without the usage.
    NoStats,
}

/// The used memory of a container in kibibytes, as text.
pub fn used_memory_text(usage: Option<u64>) -> (r: Result<String, ContainerDataError>)
    ensures
        match usage {
            Some(u) => r matches Ok(t) && t@ == decimal((u / 1024) as nat),
            None => r == Err::<String, ContainerDataError>(ContainerDataError::NoStats),
        },
{
    match usage {
        Some(u) => Ok(u64_to_string(u / 1024)),
        None => Err(ContainerDataError::NoStats),
    }
}

/// The data of the memory and CPU entities of a running container; a CPU use
/// that cannot be told yet is published as an empty text.
pub fn stats_data(memory_topic: &String, cpu_topic: &String, memory_text: String, cpu_text: Option<String>) -> (r: TopicMap)
    ensures
        r.view() == Map::<Seq<char>, Seq<char>>::empty()
            .insert(memory_topic@, memory_text@)
            .insert(cpu_topic@, match cpu_text { Some(c) => c@, None => Seq::<char>::empty() }),
{
    let mut map = TopicMap::new();
    map.insert(memory_topic.clone(), memory_text);
    let cpu = match cpu_text {
        Some(c) => c,
        None => String::new(),
    };
    map.insert(cpu_topic.clone(), cpu);
    map
}

/// The data of the memory and CPU entities of a container that does not run:
/// both emptied.
pub fn stopped_stats_data(memory_topic: &String, cpu_topic: &String) -> (r: TopicMap)
    ensures
        r.view() == Map::<Seq<char>, Seq<char>>::empty()
            .insert(memory_topic@, Seq::<char>::empty())
            .insert(cpu_topic@, Seq::<char>::empty()),
{
    let mut map = TopicMap::new();
    map.insert(memory_topic.clone(), String::new());
    map.insert(cpu_topic.clone(), String::new());
    map
}

// ---------------------------------------------------------------- logs

/// The number of bytes of a character in UTF-8.
pub open spec fn utf8_len(c: char) -> nat {
    if (c as u32) < 0x80 { 1 } else if (c as u32) < 0x800 { 2 } else if (c as u32) < 0x10000 { 3 } else { 4 }
}

/// The number of bytes of a text in UTF-8.
pub open spec fn utf8_size(s: Seq<char>) -> nat
    decreases s.len(),
{
    if s.len() == 0 { 0 } else { utf8_size(s.drop_last()) + utf8_len(s.last()) }
}

/// Cutting a text to `max` bytes cuts it between two characters (or does not
/// cut it at all).
pub open spec fn can_cut_at(s: Seq<char>, max: nat) -> bool {
    utf8_size(s) <= max || exists|k: int| 0 <= k <= s.len() && #[trigger] utf8_size(s.subrange(0, k)) == max
}

/// `r` is what is left of `s` cut to `max` bytes: its longest beginning that
/// takes at most `max` bytes.
pub open spec fn is_cut_to(r: Seq<char>, s: Seq<char>, max: nat) -> bool {
    &&& r.len() <= s.len()
    &&& r == s.subrange(0, r.len() as int)
    &&& utf8_size(r) <= max
    &&& r.len() < s.len() ==> utf8_size(r) + utf8_len(s[r.len() as int]) > max
}

fn char_utf8_len(c: char) -> (n: usize)
    ensures
        n == utf8_len(c),
{
    let v = c as u32;
    if v < 0x80 { 1 } else if v < 0x800 { 2 } else if v < 0x10000 { 3 } else { 4 }
}

proof fn lemma_size_step(s: Seq<char>, k: int)
    requires
        0 <= k < s.len(),
    ensures
        utf8_size(s.subrange(0, k + 1)) == utf8_size(s.subrange(0, k)) + utf8_len(s[k]),
{
    assert(s.subrange(0, k + 1).drop_last() =~= s.subrange(0, k));
}

proof fn lemma_size_grows(s: Seq<char>, j: int, k: int)
    requires
        0 <= j <= k <= s.len(),
    ensures
        utf8_size(s.subrange(0, j)) < utf8_size(s.subrange(0, k)) || j == k,
    decreases k - j,
{
    if j < k {
        lemma_size_step(s, k - 1);
        lemma_size_grows(s, j, k - 1);
    }
}

/// The text cut to `max` bytes, as `String::truncate` cuts it.
pub fn cut_to_bytes(text: &str, max: usize) -> (r: String)
    requires
        can_cut_at(text@, max as nat),
    ensures
        is_cut_to(r@, text@, max as nat),
{
    let n = text.unicode_len();
    let mut size: usize = 0;
    let mut r = String::new();
    let mut i: usize = 0;
    proof {
        assert(text@.subrange(0, 0) =~= Seq::<char>::empty());
    }
    while i < n
        invariant
            n == text@.len(),
            i <= n,
            r@ == text@.subrange(0, i as int),
            size == utf8_size(r@),
            size <= max,
        ensures
            i <= n,
            r@ == text@.subrange(0, i as int),
            size == utf8_size(r@),
            size <= max,
            i < n ==> size + utf8_len(text@[i as int]) > max,
        decreases n - i,
    {
        let c = text.get_char(i);
        let w = char_utf8_len(c);
        if w > max - size {
            break;
        }
        proof {
            lemma_size_step(text@, i as int);
        }
        push_char(&mut r, c);
        size = size + w;
        proof {
            assert(text@.subrange(0, i + 1) =~= text@.subrange(0, i as int).push(c));
        }
        i += 1;
    }
    r
}

/// Whether a text can be cut to `max` bytes without cutting a character.
pub fn can_cut_at_bytes(text: &str, max: usize) -> (r: bool)
    ensures
        r == can_cut_at(text@, max as nat),
{
    let n = text.unicode_len();
    let mut size: usize = 0;
    let mut i: usize = 0;
    proof {
        assert(text@.subrange(0, 0) =~= Seq::<char>::empty());
    }
    while i < n
        invariant
            n == text@.len(),
            i <= n,
            size == utf8_size(text@.subrange(0, i as int)),
            size <= max,
        decreases n - i,
    {
        if size == max {
            return true;
        }
        let w = char_utf8_len(text.get_char(i));
        proof {
            lemma_size_step(text@, i as int);
        }
        if w > max - size {
            proof {
                assert forall|k: int| 0 <= k <= text@.len() implies #[trigger] utf8_size(text@.subrange(0, k)) != max by {
                    if k <= i {
                        lemma_size_grows(text@, k, i as int);
                    } else {
                        lemma_size_grows(text@, i + 1, k);
                    }
                }
                lemma_size_grows(text@, i + 1, text@.len() as int);
                assert(text@.subrange(0, text@.len() as int) =~= text@);
            }
            return false;
        }
        size = size + w;
        i += 1;
    }
    proof {
        assert(text@.subrange(0, n as int) =~= text@);
    }
    true
}

/// The largest size in bytes of the published log text.
pub const LOG_TEXT_MAX_BYTES: usize = 255usize;

/// What is published as the logs of a container: its last lines joined by
/// line breaks, cut to the published size.
pub open spec fn is_log_data(m: Map<Seq<char>, Seq<char>>, state_topic: Seq<char>, lines: Seq<String>) -> bool {
    &&& m.dom() == set![state_topic]
    &&& is_cut_to(m[state_topic], joined_lines(string_views(lines)), LOG_TEXT_MAX_BYTES as nat)
}

/// The data of the logs entity of a container from its last log lines.
pub fn logs_data(state_topic: &String, lines: &Vec<String>) -> (r: TopicMap)
    requires
        can_cut_at(joined_lines(string_views(lines@)), LOG_TEXT_MAX_BYTES as nat),
    ensures
        is_log_data(r.view(), state_topic@, lines@),
{
    let joined = join_lines(lines);
    proof {
        assert(string_views(lines@) =~= lines@.map_values(|l: String| l@));
    }
    let text = cut_to_bytes(joined.as_str(), LOG_TEXT_MAX_BYTES);
    let mut map = TopicMap::new();
    map.insert(state_topic.clone(), text);
    proof {
        assert(map.view().dom() =~= set![state_topic@]);
    }
    map
}

} // verus!
