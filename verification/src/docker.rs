//! What the container devices compute out of the Docker engine's answers: disk
//! usage tallies, container status, memory use, and which devices come and go.

use vstd::prelude::*;
use vstd::string::*;
use crate::helpers::{slugify, slug_of, dashes_to_underscores};
use crate::strings::{push_char, str_eq};
use crate::topic_map::TopicMap;

verus! {

// ---------------------------------------------------------------- names

/// A text without its leading `c` characters.
pub open spec fn trim_start(s: Seq<char>, c: char) -> Seq<char>
    decreases s.len(),
{
    if s.len() > 0 && s[0] == c {
        trim_start(s.subrange(1, s.len() as int), c)
    } else {
        s
    }
}

/// The identifier of the device of a container: the slug of its name, without
/// the leading `/` that Docker puts before names.
pub open spec fn container_identifier_of(name: Seq<char>) -> Seq<char> {
    dashes_to_underscores(slug_of(trim_start(name, '/')))
}

/// A container name as Docker gives it, without its leading `/`.
pub fn trim_container_name(name: &str) -> (r: String)
    ensures
        r@ == trim_start(name@, '/'),
{
    let n = name.unicode_len();
    let mut start: usize = 0;
    proof {
        assert(name@.subrange(0, n as int) =~= name@);
    }
    while start < n && name.get_char(start) == '/'
        invariant
            n == name@.len(),
            start <= n,
            trim_start(name@, '/') == trim_start(name@.subrange(start as int, n as int), '/'),
        decreases n - start,
    {
        proof {
            let rest = name@.subrange(start as int, n as int);
            assert(rest.subrange(1, rest.len() as int) =~= name@.subrange(start + 1, n as int));
        }
        start += 1;
    }
    let mut r = String::new();
    let mut i = start;
    while i < n
        invariant
            n == name@.len(),
            start <= i <= n,
            r@ == name@.subrange(start as int, i as int),
        decreases n - i,
    {
        push_char(&mut r, name.get_char(i));
        proof {
            assert(name@.subrange(start as int, i + 1) =~= name@.subrange(start as int, i as int).push(name@[i as int]));
        }
        i += 1;
    }
    proof {
        let rest = name@.subrange(start as int, n as int);
        if start < n {
            assert(rest[0] != '/');
        }
        assert(trim_start(rest, '/') == rest);
    }
    r
}

/// The identifier of the device of a container named `name`.
pub fn container_identifier(name: &str) -> (r: String)
    ensures
        r@ == container_identifier_of(name@),
{
    let trimmed = trim_container_name(name);
    slugify(trimmed.as_str())
}

// ---------------------------------------------------------------- disk usage

/// The tally of a kind of disk object: how many there are, how many are in use,
/// their total size, and the size of those not in use.
#[derive(Debug, Clone, Copy, PartialEq, Eq, Structural)]
pub struct UsageTally {
    pub count: u64,
    pub active: u64,
    pub size: i64,
    pub reclaimable: i64,
}

/// The tally of a list of objects, each with its size and whether it is in use
/// (an object without usage data is counted and nothing more), as integers.
pub open spec fn tally_of(items: Seq<Option<(i64, bool)>>) -> (int, int, int, int)
    decreases items.len(),
{
    if items.len() == 0 {
        (0, 0, 0, 0)
    } else {
        let (count, active, size, reclaimable) = tally_of(items.drop_last());
        match items.last() {
            None => (count + 1, active, size, reclaimable),
            Some((s, in_use)) => if in_use {
                (count + 1, active + 1, size + s, reclaimable)
            } else {
                (count + 1, active, size + s, reclaimable + s)
            },
        }
    }
}

/// Every running total of a tally stays within 64-bit signed integers.
pub open spec fn tally_fits(items: Seq<Option<(i64, bool)>>) -> bool {
    forall|i: int| 0 <= i <= items.len() ==> {
        let t = #[trigger] tally_of(items.subrange(0, i));
        i64::MIN <= t.2 <= i64::MAX && i64::MIN <= t.3 <= i64::MAX
    }
}

proof fn lemma_tally_counts_bounded(items: Seq<Option<(i64, bool)>>)
    ensures
        0 <= tally_of(items).1 <= tally_of(items).0 == items.len(),
    decreases items.len(),
{
    if items.len() > 0 {
        lemma_tally_counts_bounded(items.drop_last());
    }
}

/// Tallies a list of disk objects.
pub fn tally(items: &Vec<Option<(i64, bool)>>) -> (r: UsageTally)
    requires
        tally_fits(items@),
    ensures
        r.count as int == tally_of(items@).0,
        r.active as int == tally_of(items@).1,
        r.size as int == tally_of(items@).2,
        r.reclaimable as int == tally_of(items@).3,
{
    let mut t = UsageTally { count: 0, active: 0, size: 0, reclaimable: 0 };
    let mut i: usize = 0;
    while i < items.len()
        invariant
            i <= items@.len(),
            tally_fits(items@),
            (t.count as int, t.active as int, t.size as int, t.reclaimable as int) == tally_of(items@.subrange(0, i as int)),
        decreases items@.len() - i,
    {
        let ghost before = items@.subrange(0, i as int);
        let ghost after = items@.subrange(0, i + 1);
        proof {
            assert(after.drop_last() =~= before);
            assert(after.last() == items@[i as int]);
            let t1 = tally_of(after);
            assert(i64::MIN <= t1.2 <= i64::MAX && i64::MIN <= t1.3 <= i64::MAX);
            lemma_tally_counts_bounded(after);
        }
        match items[i] {
            None => {
                t.count = t.count + 1;
            },
            Some((size, in_use)) => {
                t.count = t.count + 1;
                t.size = t.size + size;
                if in_use {
                    t.active = t.active + 1;
                } else {
                    t.reclaimable = t.reclaimable + size;
                }
            },
        }
        i += 1;
    }
    proof {
        assert(items@.subrange(0, i as int) =~= items@);
    }
    t
}

/// A size in kibibytes: divided by 1024, rounded toward zero.
pub open spec fn kib_of(bytes: int) -> int {
    if bytes >= 0 { bytes / 1024 } else { -((-bytes) / 1024) }
}

/// A size in kibibytes, as integer division by 1024 gives it.
pub fn to_kib(bytes: i64) -> (r: i64)
    ensures
        r as int == kib_of(bytes as int),
{
    if bytes >= 0 {
        bytes / 1024
    } else if bytes == i64::MIN {
        -9007199254740992i64
    } else {
        let positive: i64 = -bytes;
        -(positive / 1024)
    }
}

/// The usage of a kind of disk object as it is published.
#[derive(Debug, Clone, Copy, PartialEq, Eq, Structural)]
pub struct UsageReport {
    pub count: u64,
    pub active: u64,
    pub size_kib: i64,
    pub reclaimable_kib: i64,
}

/// The published usage of a list of disk objects: their number, how many are
/// in use, and their total and reclaimable sizes in kibibytes.
pub fn usage_report(items: &Vec<Option<(i64, bool)>>) -> (r: UsageReport)
    requires
        tally_fits(items@),
    ensures
        r.count as int == tally_of(items@).0,
        r.active as int == tally_of(items@).1,
        r.size_kib as int == kib_of(tally_of(items@).2),
        r.reclaimable_kib as int == kib_of(tally_of(items@).3),
{
    let t = tally(items);
    UsageReport { count: t.count, active: t.active, size_kib: to_kib(t.size), reclaimable_kib: to_kib(t.reclaimable) }
}

/// The states of a container, as the Docker engine lists them.
#[derive(Debug, Clone, Copy, PartialEq, Eq, Structural)]
pub enum ContainerSummaryState {
    Empty,
    Created,
    Running,
    Paused,
    Restarting,
    Exited,
    Removing,
    Dead,
}

/// A container counts as in use when it runs, is paused or restarts.
pub fn is_active_state(state: Option<ContainerSummaryState>) -> (r: bool)
    ensures
        r == (state == Some(ContainerSummaryState::Running)
            || state == Some(ContainerSummaryState::Paused)
            || state == Some(ContainerSummaryState::Restarting)),
{
    match state {
        Some(ContainerSummaryState::Running) => true,
        Some(ContainerSummaryState::Paused) => true,
        Some(ContainerSummaryState::Restarting) => true,
        _ => false,
    }
}

// ---------------------------------------------------------------- status

/// The state of a container as its inspection tells it; the status and health
/// are their texts, and a health that Docker reports as empty is absent.
#[derive(Debug, Clone, PartialEq)]
pub struct ContainerStateInfo {
    pub running: Option<bool>,
    pub paused: Option<bool>,
    pub restarting: Option<bool>,
    pub status: Option<String>,
    pub health: Option<String>,
}

/// The topics that the status of a container is published on.
#[derive(Debug, Clone, PartialEq)]
pub struct ContainerStatusTopics {
    pub state_topic: String,
    pub health_topic: String,
    pub start_button_availability_topic: String,
    pub restart_button_availability_topic: String,
    pub stop_button_availability_topic: String,
}

/// A container runs when it runs, is paused or restarts.
pub open spec fn is_running_info(s: ContainerStateInfo) -> bool {
    s.running == Some(true) || s.paused == Some(true) || s.restarting == Some(true)
}

/// The availability text of a button that acts when `wanted` holds.
pub open spec fn online_when(wanted: bool) -> Seq<char> {
    if wanted { "online"@ } else { "offline"@ }
}

/// What is published about the status of a container: nothing without state;
/// otherwise the start button is available when the container does not run,
/// the restart and stop buttons when it runs, and the status and health are
/// published when they are known.
pub open spec fn container_status_view(topics: ContainerStatusTopics, state: Option<ContainerStateInfo>) -> Map<Seq<char>, Seq<char>> {
    match state {
        None => Map::empty(),
        Some(s) => {
            let running = is_running_info(s);
            let base = Map::<Seq<char>, Seq<char>>::empty()
                .insert(topics.start_button_availability_topic@, online_when(!running))
                .insert(topics.restart_button_availability_topic@, online_when(running))
                .insert(topics.stop_button_availability_topic@, online_when(running));
            let with_status = match s.status {
                Some(st) => base.insert(topics.state_topic@, st@),
                None => base,
            };
            match s.health {
                Some(h) => with_status.insert(topics.health_topic@, h@),
                None => with_status,
            }
        },
    }
}

/// Of a container's start and stop buttons, exactly one is offered: start
/// when the container does not run, stop (and restart) when it runs.
pub proof fn lemma_start_and_stop_buttons_alternate(topics: ContainerStatusTopics, s: ContainerStateInfo)
    requires
        topics.start_button_availability_topic@ != topics.restart_button_availability_topic@,
        topics.start_button_availability_topic@ != topics.stop_button_availability_topic@,
        topics.restart_button_availability_topic@ != topics.stop_button_availability_topic@,
        topics.state_topic@ != topics.start_button_availability_topic@,
        topics.state_topic@ != topics.stop_button_availability_topic@,
        topics.state_topic@ != topics.restart_button_availability_topic@,
        topics.health_topic@ != topics.start_button_availability_topic@,
        topics.health_topic@ != topics.stop_button_availability_topic@,
        topics.health_topic@ != topics.restart_button_availability_topic@,
    ensures
        ({
            let m = container_status_view(topics, Some(s));
            &&& m[topics.start_button_availability_topic@] == online_when(!is_running_info(s))
            &&& m[topics.stop_button_availability_topic@] == online_when(is_running_info(s))
            &&& m[topics.restart_button_availability_topic@] == m[topics.stop_button_availability_topic@]
            &&& (m[topics.start_button_availability_topic@] == "online"@) != (m[topics.stop_button_availability_topic@] == "online"@)
        }),
{
    reveal_strlit("online");
    reveal_strlit("offline");
}

fn online_text(wanted: bool) -> (r: String)
    ensures
        r@ == online_when(wanted),
{
    if wanted { "online".to_owned() } else { "offline".to_owned() }
}

/// The data published about the status of a container.
pub fn container_status_data(topics: &ContainerStatusTopics, state: &Option<ContainerStateInfo>) -> (r: TopicMap)
    ensures
        r.view() == container_status_view(*topics, *state),
{
    let mut map = TopicMap::new();
    match state {
        None => map,
        Some(s) => {
            let running = s.running == Some(true) || s.paused == Some(true) || s.restarting == Some(true);
            map.insert(topics.start_button_availability_topic.clone(), online_text(!running));
            map.insert(topics.restart_button_availability_topic.clone(), online_text(running));
            map.insert(topics.stop_button_availability_topic.clone(), online_text(running));
            match &s.status {
                Some(st) => map.insert(topics.state_topic.clone(), st.clone()),
                None => {},
            }
            match &s.health {
                Some(h) => map.insert(topics.health_topic.clone(), h.clone()),
                None => {},
            }
            map
        },
    }
}

// ---------------------------------------------------------------- logs

/// The lines of a log, joined by line breaks.
pub open spec fn joined_lines(lines: Seq<Seq<char>>) -> Seq<char>
    decreases lines.len(),
{
    if lines.len() == 0 {
        Seq::empty()
    } else if lines.len() == 1 {
        lines[0]
    } else {
        joined_lines(lines.drop_last()) + seq!['\n'] + lines.last()
    }
}

/// Joins the lines of a log by line breaks.
pub fn join_lines(lines: &Vec<String>) -> (r: String)
    ensures
        r@ == joined_lines(lines@.map_values(|l: String| l@)),
{
    let ghost views = lines@.map_values(|l: String| l@);
    let mut r = String::new();
    let mut i: usize = 0;
    while i < lines.len()
        invariant
            i <= lines@.len(),
            views == lines@.map_values(|l: String| l@),
            r@ == joined_lines(views.subrange(0, i as int)),
        decreases lines@.len() - i,
    {
        if i > 0 {
            push_char(&mut r, '\n');
        }
        r.append(lines[i].as_str());
        proof {
            assert(views.subrange(0, i + 1).drop_last() =~= views.subrange(0, i as int));
            if i == 0 {
                assert(r@ =~= views.subrange(0, 1)[0]);
            } else {
                assert(r@ =~= joined_lines(views.subrange(0, i as int)) + seq!['\n'] + views[i as int]);
            }
        }
        i += 1;
    }
    proof {
        assert(views.subrange(0, i as int) =~= views);
    }
    r
}

// ---------------------------------------------------------------- networks

/// The name shown for a network: its name, else its id, else nothing.
pub open spec fn network_label(name: Option<String>, id: Option<String>) -> Seq<char> {
    match name {
        Some(n) => n@,
        None => match id {
            Some(i) => i@,
            None => Seq::empty(),
        },
    }
}

/// The names of the networks that have one, in order.
pub open spec fn network_names_of(networks: Seq<(Option<String>, Option<String>)>) -> Seq<Seq<char>>
    decreases networks.len(),
{
    if networks.len() == 0 {
        Seq::empty()
    } else {
        let rest = network_names_of(networks.drop_last());
        let label = network_label(networks.last().0, networks.last().1);
        if label.len() == 0 { rest } else { rest.push(label) }
    }
}

/// The names of the networks (name, else id), leaving out empty ones.
pub fn network_names(networks: &Vec<(Option<String>, Option<String>)>) -> (r: Vec<String>)
    ensures
        r@.map_values(|s: String| s@) == network_names_of(networks@),
{
    let mut r: Vec<String> = Vec::new();
    let mut i: usize = 0;
    while i < networks.len()
        invariant
            i <= networks@.len(),
            r@.map_values(|s: String| s@) == network_names_of(networks@.subrange(0, i as int)),
        decreases networks@.len() - i,
    {
        let (name, id) = &networks[i];
        let label = match name {
            Some(n) => n.clone(),
            None => match id {
                Some(x) => x.clone(),
                None => String::new(),
            },
        };
        proof {
            assert(networks@.subrange(0, i + 1).drop_last() =~= networks@.subrange(0, i as int));
            assert(label@ == network_label(networks@[i as int].0, networks@[i as int].1));
        }
        if label.as_str().unicode_len() > 0 {
            r.push(label);
        }
        proof {
            assert(r@.map_values(|s: String| s@) =~= network_names_of(networks@.subrange(0, i + 1)));
        }
        i += 1;
    }
    proof {
        assert(networks@.subrange(0, i as int) =~= networks@);
    }
    r
}

// ---------------------------------------------------------------- devices

/// A text is one of a list.
pub open spec fn listed(s: Seq<char>, list: Seq<String>) -> bool {
    exists|i: int| 0 <= i < list.len() && (#[trigger] list[i])@ == s
}

fn is_listed(s: &str, list: &Vec<String>) -> (r: bool)
    ensures
        r == listed(s@, list@),
{
    let mut i: usize = 0;
    while i < list.len()
        invariant
            i <= list@.len(),
            forall|j: int| 0 <= j < i ==> (#[trigger] list@[j])@ != s@,
        decreases list@.len() - i,
    {
        if str_eq(list[i].as_str(), s) {
            return true;
        }
        i += 1;
    }
    false
}

/// A device identifier may go: it is the identifier of a device that is not
/// the host device and that no listed container has.
pub open spec fn removable(id: Seq<char>, container_ids: Seq<String>, devices: Seq<(String, bool)>) -> bool {
    exists|j: int| 0 <= j < devices.len() && (#[trigger] devices[j]).0@ == id && !devices[j].1
        && !listed(id, container_ids)
}

/// The devices to remove: those that are not the host device and whose
/// identifier is not the identifier of a container that still exists. Each
/// device is given as its identifier and whether it is the host device.
pub fn missing_device_ids(container_ids: &Vec<String>, devices: &Vec<(String, bool)>) -> (r: Vec<String>)
    ensures
        forall|i: int| 0 <= i < r@.len() ==> removable((#[trigger] r@[i])@, container_ids@, devices@),
        forall|j: int| 0 <= j < devices@.len() && !(#[trigger] devices@[j]).1 && !listed(devices@[j].0@, container_ids@)
            ==> listed(devices@[j].0@, r@),
{
    let mut r: Vec<String> = Vec::new();
    let mut i: usize = 0;
    while i < devices.len()
        invariant
            i <= devices@.len(),
            forall|k: int| 0 <= k < r@.len() ==> removable((#[trigger] r@[k])@, container_ids@, devices@),
            forall|j: int| 0 <= j < i && !(#[trigger] devices@[j]).1 && !listed(devices@[j].0@, container_ids@)
                ==> listed(devices@[j].0@, r@),
        decreases devices@.len() - i,
    {
        let (id, is_host) = &devices[i];
        if !*is_host && !is_listed(id.as_str(), container_ids) {
            let ghost before = r@;
            r.push(id.clone());
            proof {
                assert(r@[r@.len() - 1] == devices@[i as int].0);
                assert(removable(devices@[i as int].0@, container_ids@, devices@));
                assert forall|k: int| 0 <= k < r@.len() implies removable((#[trigger] r@[k])@, container_ids@, devices@) by {
                    if k < before.len() {
                        assert(r@[k] == before[k]);
                    }
                }
                assert forall|j: int| 0 <= j < i + 1 && !(#[trigger] devices@[j]).1 && !listed(devices@[j].0@, container_ids@)
                    implies listed(devices@[j].0@, r@) by {
                    if j < i {
                        let k = choose|k: int| 0 <= k < before.len() && (#[trigger] before[k])@ == devices@[j].0@;
                        assert(r@[k] == before[k]);
                    } else {
                        assert(r@[r@.len() - 1]@ == devices@[j].0@);
                    }
                }
            }
        }
        i += 1;
    }
    r
}

/// The containers that have no device yet: those with a name whose identifier
/// is not among the current device identifiers, by their index in the list.
pub fn new_container_indices(container_names: &Vec<Option<String>>, current_ids: &Vec<String>) -> (r: Vec<usize>)
    ensures
        forall|k: int| 0 <= k < r@.len() ==> (#[trigger] r@[k]) < container_names@.len(),
        forall|k: int, l: int| 0 <= k < l < r@.len() ==> (#[trigger] r@[k]) < (#[trigger] r@[l]),
        forall|i: int| 0 <= i < container_names@.len() ==>
            (r@.contains(i as usize) <==> (#[trigger] container_names@[i] matches Some(n)
                && !listed(container_identifier_of(n@), current_ids@))),
{
    let mut r: Vec<usize> = Vec::new();
    let mut i: usize = 0;
    while i < container_names.len()
        invariant
            i <= container_names@.len(),
            forall|k: int| 0 <= k < r@.len() ==> (#[trigger] r@[k]) < i,
            forall|k: int, l: int| 0 <= k < l < r@.len() ==> (#[trigger] r@[k]) < (#[trigger] r@[l]),
            forall|j: int| 0 <= j < i ==>
                (r@.contains(j as usize) <==> (#[trigger] container_names@[j] matches Some(n)
                    && !listed(container_identifier_of(n@), current_ids@))),
        decreases container_names@.len() - i,
    {
        let ghost before = r@;
        match &container_names[i] {
            Some(name) => {
                let id = container_identifier(name.as_str());
                if !is_listed(id.as_str(), current_ids) {
                    r.push(i);
                }
            },
            None => {},
        }
        proof {
            assert forall|j: int| 0 <= j < i + 1 implies
                (r@.contains(j as usize) <==> (#[trigger] container_names@[j] matches Some(n)
                    && !listed(container_identifier_of(n@), current_ids@))) by {
                if j < i {
                    if r@.contains(j as usize) {
                        let k = choose|k: int| 0 <= k < r@.len() && r@[k] == j as usize;
                        if k < before.len() {
                            assert(before[k] == j as usize);
                            assert(before.contains(j as usize));
                        }
                    }
                    if before.contains(j as usize) {
                        let k = choose|k: int| 0 <= k < before.len() && before[k] == j as usize;
                        assert(r@[k] == j as usize);
                    }
                } else {
                    if before.contains(j as usize) {
                        let k = choose|k: int| 0 <= k < before.len() && before[k] == j as usize;
                        assert(before[k] < i);
                    }
                    if r@.len() > before.len() {
                        assert(r@[before.len() as int] == i);
                    }
                }
            }
        }
        i += 1;
    }
    r
}

} // verus!
