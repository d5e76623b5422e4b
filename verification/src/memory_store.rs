//! What was learned from past sessions, and how it is kept.

use crate::order::filter_of_prefix;
use crate::text::opt_text;
use crate::time::{
    days_in_nanos, hours_in_nanos, nanos_between, nanos_of_days, nanos_of_hours, rfc3339_instant,
    Timestamp, MAX_DAYS, MAX_HOURS,
};
use vstd::prelude::*;

verus! {

broadcast use vstd::seq_lib::group_seq_properties;

/// A path: a base, and the parts that are joined to it one after the other.
#[derive(Debug, PartialEq, Eq)]
pub struct JoinedPath {
    pub base: String,
    pub parts: Vec<&'static str>,
}

/// The directory below the home directory that holds the memories.
pub const MEMORIES_DIR: &'static str = "memories";

/// The summary that is shown to a model.
pub const MEMORY_SUMMARY_FILENAME: &'static str = "memory_summary.md";

/// The memories in full.
pub const MEMORY_FILENAME: &'static str = "MEMORY.md";

/// The directory below the memories that holds their state.
pub const STATE_DIR: &'static str = ".state";

/// What was learned, session by session.
pub const STAGE1_OUTPUTS_FILENAME: &'static str = "stage1_outputs.json";

/// What went into the last summary.
pub const PHASE2_STATE_FILENAME: &'static str = "phase2_state.json";

/// The base and the parts of a path.
pub open spec fn is_path(p: JoinedPath, base: Seq<char>, parts: Seq<Seq<char>>) -> bool {
    p.base@ == base && p.parts@.map_values(|s: &'static str| s@) == parts
}

/// The directory of the memories.
pub fn memory_root(code_home: &str) -> (p: JoinedPath)
    ensures
        is_path(p, code_home@, seq![MEMORIES_DIR@]),
{
    let p = JoinedPath { base: code_home.to_string(), parts: vec![MEMORIES_DIR] };
    assert(p.parts@.map_values(|s: &'static str| s@) =~= seq![MEMORIES_DIR@]);
    p
}

/// The path with one more part.
fn joined_to(path: JoinedPath, part: &'static str) -> (p: JoinedPath)
    ensures
        forall|base: Seq<char>, parts: Seq<Seq<char>>|
            is_path(path, base, parts) ==> #[trigger] is_path(p, base, parts.push(part@)),
{
    let mut p = path;
    p.parts.push(part);
    assert forall|base: Seq<char>, parts: Seq<Seq<char>>| is_path(path, base, parts) implies #[trigger] is_path(
        p,
        base,
        parts.push(part@),
    ) by {
        assert(p.parts@.map_values(|s: &'static str| s@) =~= parts.push(part@));
    }
    p
}

/// The directory of their state.
pub fn state_dir(code_home: &str) -> (p: JoinedPath)
    ensures
        is_path(p, code_home@, seq![MEMORIES_DIR@, STATE_DIR@]),
{
    let root = memory_root(code_home);
    assert(seq![MEMORIES_DIR@].push(STATE_DIR@) =~= seq![MEMORIES_DIR@, STATE_DIR@]);
    joined_to(root, STATE_DIR)
}

/// The file of what was learned, session by session.
pub fn stage1_outputs_path(code_home: &str) -> (p: JoinedPath)
    ensures
        is_path(p, code_home@, seq![MEMORIES_DIR@, STATE_DIR@, STAGE1_OUTPUTS_FILENAME@]),
{
    let dir = state_dir(code_home);
    assert(seq![MEMORIES_DIR@, STATE_DIR@].push(STAGE1_OUTPUTS_FILENAME@) =~= seq![
        MEMORIES_DIR@,
        STATE_DIR@,
        STAGE1_OUTPUTS_FILENAME@,
    ]);
    joined_to(dir, STAGE1_OUTPUTS_FILENAME)
}

/// The file of what went into the last summary.
pub fn phase2_state_path(code_home: &str) -> (p: JoinedPath)
    ensures
        is_path(p, code_home@, seq![MEMORIES_DIR@, STATE_DIR@, PHASE2_STATE_FILENAME@]),
{
    let dir = state_dir(code_home);
    assert(seq![MEMORIES_DIR@, STATE_DIR@].push(PHASE2_STATE_FILENAME@) =~= seq![
        MEMORIES_DIR@,
        STATE_DIR@,
        PHASE2_STATE_FILENAME@,
    ]);
    joined_to(dir, PHASE2_STATE_FILENAME)
}

/// The file of the summary.
pub fn memory_summary_path(code_home: &str) -> (p: JoinedPath)
    ensures
        is_path(p, code_home@, seq![MEMORIES_DIR@, MEMORY_SUMMARY_FILENAME@]),
{
    let root = memory_root(code_home);
    assert(seq![MEMORIES_DIR@].push(MEMORY_SUMMARY_FILENAME@) =~= seq![
        MEMORIES_DIR@,
        MEMORY_SUMMARY_FILENAME@,
    ]);
    joined_to(root, MEMORY_SUMMARY_FILENAME)
}

/// The file of the memories in full.
pub fn memory_md_path(code_home: &str) -> (p: JoinedPath)
    ensures
        is_path(p, code_home@, seq![MEMORIES_DIR@, MEMORY_FILENAME@]),
{
    let root = memory_root(code_home);
    assert(seq![MEMORIES_DIR@].push(MEMORY_FILENAME@) =~= seq![MEMORIES_DIR@, MEMORY_FILENAME@]);
    joined_to(root, MEMORY_FILENAME)
}

/// How long a refresh keeps the next one away, in nanoseconds.
pub const REFRESH_INTERVAL_NANOS: u128 = 300_000_000_000;

/// When the memories were last refreshed, in nanoseconds by a clock that never goes back.
#[derive(Debug, PartialEq, Eq, Clone, Copy, Structural)]
pub struct RefreshClock {
    pub last_nanos: Option<u128>,
}

impl RefreshClock {
    /// Whether a refresh is due; the clock then starts anew. The first one is
    /// always due.
    pub fn should_refresh_now(&mut self, now_nanos: u128) -> (r: bool)
        ensures
            r == match old(self).last_nanos {
                Some(last) => now_nanos >= last + REFRESH_INTERVAL_NANOS,
                None => true,
            },
            final(self).last_nanos == if r {
                Some(now_nanos)
            } else {
                old(self).last_nanos
            },
    {
        let due = match self.last_nanos {
            Some(last) => now_nanos >= last && now_nanos - last >= REFRESH_INTERVAL_NANOS,
            None => true,
        };
        if due {
            self.last_nanos = Some(now_nanos);
        }
        due
    }
}

/// What was learned from one session.
#[derive(Debug, PartialEq, Eq)]
pub struct Stage1Output {
    pub session_id: u128,
    pub rollout_path: String,
    pub cwd: String,
    pub git_branch: Option<String>,
    pub source_updated_at: Timestamp,
    pub generated_at: Timestamp,
    pub raw_memory: String,
    pub rollout_summary: String,
    pub rollout_slug: Option<String>,
    pub usage_count: u64,
    pub last_usage: Option<Timestamp>,
}

/// Names what was learned from one session at one time.
#[derive(Debug, PartialEq, Eq)]
pub struct Stage1OutputRef {
    pub session_id: u128,
    pub source_updated_at: Timestamp,
    pub rollout_slug: Option<String>,
}

/// What a name of this kind says.
pub struct RefView {
    pub session_id: u128,
    pub source_updated_at: Timestamp,
    pub rollout_slug: Option<Seq<char>>,
}

fn clone_text(t: &Option<String>) -> (r: Option<String>)
    ensures
        r == *t,
{
    match t {
        Some(s) => Some(s.clone()),
        None => None,
    }
}

impl Clone for Stage1Output {
    fn clone(&self) -> (r: Self)
        ensures
            r == *self,
    {
        Stage1Output {
            session_id: self.session_id,
            rollout_path: self.rollout_path.clone(),
            cwd: self.cwd.clone(),
            git_branch: clone_text(&self.git_branch),
            source_updated_at: self.source_updated_at,
            generated_at: self.generated_at,
            raw_memory: self.raw_memory.clone(),
            rollout_summary: self.rollout_summary.clone(),
            rollout_slug: clone_text(&self.rollout_slug),
            usage_count: self.usage_count,
            last_usage: self.last_usage,
        }
    }
}

impl Clone for Stage1OutputRef {
    fn clone(&self) -> (r: Self)
        ensures
            r == *self,
    {
        Stage1OutputRef {
            session_id: self.session_id,
            source_updated_at: self.source_updated_at,
            rollout_slug: clone_text(&self.rollout_slug),
        }
    }
}

impl Stage1OutputRef {
    /// What the name says.
    pub open spec fn view(&self) -> RefView {
        RefView {
            session_id: self.session_id,
            source_updated_at: self.source_updated_at,
            rollout_slug: opt_text(self.rollout_slug),
        }
    }

    /// Whether two names say the same.
    pub fn same(&self, other: &Stage1OutputRef) -> (r: bool)
        ensures
            r == (self.view() == other.view()),
    {
        self.session_id == other.session_id && self.source_updated_at == other.source_updated_at
            && match (&self.rollout_slug, &other.rollout_slug) {
            (Some(a), Some(b)) => *a == *b,
            (None, None) => true,
            _ => false,
        }
    }
}

impl Stage1Output {
    /// The name of this.
    pub open spec fn ref_view(&self) -> RefView {
        RefView {
            session_id: self.session_id,
            source_updated_at: self.source_updated_at,
            rollout_slug: opt_text(self.rollout_slug),
        }
    }

    /// The name of this.
    pub fn to_ref(&self) -> (r: Stage1OutputRef)
        ensures
            r.view() == self.ref_view(),
    {
        Stage1OutputRef {
            session_id: self.session_id,
            source_updated_at: self.source_updated_at,
            rollout_slug: clone_text(&self.rollout_slug),
        }
    }
}

/// One more use at the given time; the count stops at its largest value.
pub open spec fn used_once_more(o: Stage1Output, now: Timestamp) -> Stage1Output {
    Stage1Output {
        usage_count: if o.usage_count < u64::MAX {
            (o.usage_count + 1) as u64
        } else {
            u64::MAX
        },
        last_usage: Some(now),
        ..o
    }
}

/// What was learned, with one more use of what came from the given sessions.
pub open spec fn usage_noted(
    outputs: Seq<Stage1Output>,
    ids: Seq<u128>,
    now: Timestamp,
) -> Seq<Stage1Output> {
    outputs.map_values(
        |o: Stage1Output|
            if ids.contains(o.session_id) {
                used_once_more(o, now)
            } else {
                o
            },
    )
}

fn has_id(ids: &[u128], id: u128) -> (r: bool)
    ensures
        r == ids@.contains(id),
{
    let mut i: usize = 0;
    while i < ids.len()
        invariant
            i <= ids@.len(),
            forall|j: int| 0 <= j < i ==> ids@[j] != id,
        decreases ids@.len() - i,
    {
        if ids[i] == id {
            return true;
        }
        i = i + 1;
    }
    false
}

/// Notes that what came from the given sessions was used, however often a
/// session is named. Says whether anything changed.
pub fn note_memory_usage(
    outputs: &mut Vec<Stage1Output>,
    rollout_ids: &[u128],
    now: Timestamp,
) -> (changed: bool)
    ensures
        final(outputs)@ == usage_noted(old(outputs)@, rollout_ids@, now),
        changed == exists|i: int|
            0 <= i < old(outputs)@.len() && rollout_ids@.contains(
                (#[trigger] old(outputs)@[i]).session_id,
            ),
{
    let ghost before = outputs@;
    let ghost want = usage_noted(before, rollout_ids@, now);
    let mut changed = false;
    let mut i: usize = 0;
    let n: usize = outputs.len();
    while i < n
        invariant
            i <= n,
            n == outputs@.len(),
            n == before.len(),
            want == usage_noted(before, rollout_ids@, now),
            forall|j: int| 0 <= j < i ==> #[trigger] outputs@[j] == want[j],
            forall|j: int| i <= j < n ==> #[trigger] outputs@[j] == before[j],
            changed == exists|j: int|
                0 <= j < i && rollout_ids@.contains((#[trigger] before[j]).session_id),
        decreases n - i,
    {
        let ghost was = changed;
        if has_id(rollout_ids, outputs[i].session_id) {
            let o = &mut outputs[i];
            o.usage_count = o.usage_count.saturating_add(1);
            o.last_usage = Some(now);
            changed = true;
            assert(rollout_ids@.contains(before[i as int].session_id));
        }
        proof {
            assert(outputs@[i as int] == want[i as int]);
            if was {
                let j = choose|j: int|
                    0 <= j < i && rollout_ids@.contains((#[trigger] before[j]).session_id);
                assert(0 <= j < i + 1 && rollout_ids@.contains(before[j].session_id));
            }
        }
        i = i + 1;
    }
    assert(outputs@ =~= want);
    changed
}

/// The place of the last element from the given session; -1 where there is none.
pub open spec fn last_of_session(outputs: Seq<Stage1Output>, id: u128) -> int
    decreases outputs.len(),
{
    if outputs.len() == 0 {
        -1
    } else if outputs.last().session_id == id {
        outputs.len() - 1
    } else {
        last_of_session(outputs.drop_last(), id)
    }
}

/// The place of the first element from the given session; the length where there
/// is none.
pub open spec fn first_of_session(outputs: Seq<Stage1Output>, id: u128) -> int
    decreases outputs.len(),
{
    if outputs.len() == 0 {
        0
    } else if outputs[0].session_id == id {
        0
    } else {
        1 + first_of_session(outputs.drop_first(), id)
    }
}

fn find_last(outputs: &[Stage1Output], id: u128) -> (r: Option<usize>)
    ensures
        match r {
            Some(p) => p < outputs@.len() && p == last_of_session(outputs@, id),
            None => last_of_session(outputs@, id) == -1,
        },
{
    let mut i: usize = outputs.len();
    assert(outputs@.take(i as int) =~= outputs@);
    while i > 0
        invariant
            i <= outputs@.len(),
            last_of_session(outputs@, id) == last_of_session(outputs@.take(i as int), id),
        decreases i,
    {
        assert(outputs@.take(i as int).last() == outputs@[i - 1]);
        assert(outputs@.take(i as int).drop_last() =~= outputs@.take(i - 1));
        i = i - 1;
        if outputs[i].session_id == id {
            return Some(i);
        }
    }
    None
}

fn find_first(outputs: &[Stage1Output], id: u128) -> (r: Option<usize>)
    ensures
        match r {
            Some(p) => p < outputs@.len() && p == first_of_session(outputs@, id),
            None => first_of_session(outputs@, id) == outputs@.len(),
        },
{
    let mut i: usize = 0;
    assert(outputs@.skip(0) =~= outputs@);
    while i < outputs.len()
        invariant
            i <= outputs@.len(),
            first_of_session(outputs@, id) == i + first_of_session(outputs@.skip(i as int), id),
        decreases outputs@.len() - i,
    {
        assert(outputs@.skip(i as int)[0] == outputs@[i as int]);
        assert(outputs@.skip(i as int).drop_first() =~= outputs@.skip(i + 1));
        if outputs[i].session_id == id {
            return Some(i);
        }
        i = i + 1;
    }
    None
}

/// Where the session is known, the place found holds it.
pub proof fn first_of_session_holds(outputs: Seq<Stage1Output>, id: u128)
    ensures
        0 <= first_of_session(outputs, id) <= outputs.len(),
        first_of_session(outputs, id) < outputs.len() ==> outputs[first_of_session(
            outputs,
            id,
        )].session_id == id,
        forall|i: int|
            0 <= i < first_of_session(outputs, id) ==> (#[trigger] outputs[i]).session_id != id,
    decreases outputs.len(),
{
    if outputs.len() > 0 && outputs[0].session_id != id {
        let t = outputs.drop_first();
        first_of_session_holds(t, id);
        assert forall|i: int| 0 <= i < first_of_session(outputs, id) implies (
        #[trigger] outputs[i]).session_id != id by {
            if i > 0 {
                assert(t[i - 1] == outputs[i]);
            }
        }
    }
}

/// What is new from a session takes the place of what was known of it, and keeps
/// how that was used.
pub open spec fn upserted(outputs: Seq<Stage1Output>, next: Stage1Output) -> Seq<Stage1Output> {
    let p = first_of_session(outputs, next.session_id);
    let kept = if p < outputs.len() {
        Stage1Output {
            usage_count: outputs[p].usage_count,
            last_usage: outputs[p].last_usage,
            ..next
        }
    } else {
        next
    };
    outputs.filter(|o: Stage1Output| o.session_id != next.session_id).push(kept)
}

/// Puts what is new from a session in place of what was known of it.
pub fn upsert_stage1_output(outputs: &mut Vec<Stage1Output>, next: Stage1Output)
    ensures
        final(outputs)@ == upserted(old(outputs)@, next),
{
    let ghost before = outputs@;
    let ghost given = next;
    let mut next = next;
    if let Some(p) = find_first(outputs.as_slice(), next.session_id) {
        next.usage_count = outputs[p].usage_count;
        next.last_usage = outputs[p].last_usage;
    }
    let ghost f = |o: Stage1Output| o.session_id != given.session_id;
    let mut kept: Vec<Stage1Output> = Vec::new();
    let mut i: usize = 0;
    assert(before.take(0).filter(f) =~= Seq::empty());
    while i < outputs.len()
        invariant
            i <= outputs@.len(),
            outputs@ == before,
            next.session_id == given.session_id,
            f == (|o: Stage1Output| o.session_id != given.session_id),
            kept@ == before.take(i as int).filter(f),
        decreases outputs@.len() - i,
    {
        proof {
            reveal(Seq::filter);
            assert(before.take(i + 1).drop_last() =~= before.take(i as int));
            assert(before.take(i + 1).last() == before[i as int]);
        }
        if outputs[i].session_id != next.session_id {
            kept.push(outputs[i].clone());
        }
        i = i + 1;
    }
    assert(before.take(outputs@.len() as int) =~= before);
    kept.push(next);
    *outputs = kept;
}

/// The later of two points in time, of which either may be missing.
pub open spec fn later(a: Option<Timestamp>, b: Option<Timestamp>) -> Option<Timestamp> {
    match (a, b) {
        (Some(x), Some(y)) => if y.before(x) {
            Some(x)
        } else {
            Some(y)
        },
        (Some(x), None) => Some(x),
        (None, other) => other,
    }
}

/// The later of two points in time, of which either may be missing.
pub fn max_optional_datetime(left: Option<Timestamp>, right: Option<Timestamp>) -> (r: Option<
    Timestamp,
>)
    ensures
        r == later(left, right),
{
    match (left, right) {
        (Some(a), Some(b)) => if b.is_before(&a) {
            Some(a)
        } else {
            Some(b)
        },
        (Some(a), None) => Some(a),
        (None, other) => other,
    }
}

/// What is known of the use of one element, together with what was stored of it.
pub open spec fn usage_merged(o: Stage1Output, stored: Seq<Stage1Output>) -> Stage1Output {
    let p = last_of_session(stored, o.session_id);
    if 0 <= p {
        Stage1Output {
            usage_count: if stored[p].usage_count > o.usage_count {
                stored[p].usage_count
            } else {
                o.usage_count
            },
            last_usage: later(o.last_usage, stored[p].last_usage),
            ..o
        }
    } else {
        o
    }
}

/// Brings the use that was stored meanwhile into what is about to be stored. Of
/// several stored elements of a session the last one counts.
pub fn merge_usage_metadata(outputs: &mut Vec<Stage1Output>, stored: &[Stage1Output])
    ensures
        final(outputs)@ == old(outputs)@.map_values(|o: Stage1Output| usage_merged(o, stored@)),
{
    let ghost before = outputs@;
    let ghost want = before.map_values(|o: Stage1Output| usage_merged(o, stored@));
    let mut i: usize = 0;
    let n: usize = outputs.len();
    while i < n
        invariant
            i <= n,
            n == outputs@.len(),
            n == before.len(),
            want == before.map_values(|o: Stage1Output| usage_merged(o, stored@)),
            forall|j: int| 0 <= j < i ==> #[trigger] outputs@[j] == want[j],
            forall|j: int| i <= j < n ==> #[trigger] outputs@[j] == before[j],
        decreases n - i,
    {
        if let Some(p) = find_last(stored, outputs[i].session_id) {
            let count = stored[p].usage_count;
            let last = stored[p].last_usage;
            let o = &mut outputs[i];
            if count > o.usage_count {
                o.usage_count = count;
            }
            o.last_usage = max_optional_datetime(o.last_usage, last);
        }
        assert(outputs@[i as int] == want[i as int]);
        i = i + 1;
    }
    assert(outputs@ =~= want);
}

/// Where a session was started from.
#[derive(Debug, PartialEq, Eq, Clone, Copy, Structural)]
pub enum SessionSource {
    Cli,
    VSCode,
    /// Anything else.
    Other,
}

/// What is listed of a session.
#[derive(Debug, PartialEq, Eq)]
pub struct SessionIndexEntry {
    pub session_id: u128,
    /// The full path of the recording.
    pub rollout_path: String,
    pub cwd_real: String,
    pub git_branch: Option<String>,
    pub last_event_at: String,
    pub last_user_snippet: Option<String>,
    pub session_source: SessionSource,
    pub deleted: bool,
    pub archived: bool,
}

/// The session is one that memories are made of: started by a person, and
/// neither deleted nor archived.
pub open spec fn is_listed(e: SessionIndexEntry) -> bool {
    !e.deleted && !e.archived && (e.session_source == SessionSource::Cli || e.session_source
        == SessionSource::VSCode)
}

fn listed(e: &SessionIndexEntry) -> (r: bool)
    ensures
        r == is_listed(*e),
{
    !e.deleted && !e.archived && (e.session_source == SessionSource::Cli || e.session_source
        == SessionSource::VSCode)
}

/// When the session last changed: what the last listed entry of it says that
/// says so in a readable way. Seconds since 1970 and nanoseconds.
pub open spec fn listed_at(entries: Seq<SessionIndexEntry>, id: u128) -> Option<(i64, u32)>
    decreases entries.len(),
{
    if entries.len() == 0 {
        None
    } else {
        let e = entries.last();
        if e.session_id == id && is_listed(e) && rfc3339_instant(e.last_event_at@) is Some {
            rfc3339_instant(e.last_event_at@)
        } else {
            listed_at(entries.drop_last(), id)
        }
    }
}

/// Whether a span since a point in time is at most the given number of days.
pub open spec fn within_days(now: Timestamp, at: (int, int), days: int) -> bool {
    nanos_between(now.view(), at) <= days_in_nanos(days)
}

/// Whether what came from a session is still of use: the session is listed, and
/// not too old.
pub open spec fn still_wanted(
    o: Stage1Output,
    entries: Seq<SessionIndexEntry>,
    max_days: int,
    now: Timestamp,
) -> bool {
    match listed_at(entries, o.session_id) {
        Some(p) => within_days(now, (p.0 as int, p.1 as int), max_days),
        None => false,
    }
}

/// What was learned, without what is no longer of use.
pub open spec fn pruned(
    outputs: Seq<Stage1Output>,
    entries: Seq<SessionIndexEntry>,
    max_days: int,
    now: Timestamp,
) -> Seq<Stage1Output> {
    outputs.filter(|o: Stage1Output| still_wanted(o, entries, max_days, now))
}

fn find_listed_at(entries: &[SessionIndexEntry], id: u128) -> (r: Option<Timestamp>)
    ensures
        match (r, listed_at(entries@, id)) {
            (Some(t), Some(p)) => t.view() == (p.0 as int, p.1 as int),
            (None, None) => true,
            _ => false,
        },
{
    let mut i: usize = entries.len();
    assert(entries@.take(i as int) =~= entries@);
    while i > 0
        invariant
            i <= entries@.len(),
            listed_at(entries@, id) == listed_at(entries@.take(i as int), id),
        decreases i,
    {
        assert(entries@.take(i as int).last() == entries@[i - 1]);
        assert(entries@.take(i as int).drop_last() =~= entries@.take(i - 1));
        i = i - 1;
        if entries[i].session_id == id && listed(&entries[i]) {
            if let Some(t) = Timestamp::parse(entries[i].last_event_at.as_str()) {
                return Some(t);
            }
        }
    }
    None
}

/// Drops what came from sessions that are no longer listed or too old, at the
/// given time.
pub fn prune_stage1_outputs_at(
    outputs: &mut Vec<Stage1Output>,
    entries: &[SessionIndexEntry],
    max_rollout_age_days: i64,
    now: Timestamp,
)
    requires
        max_rollout_age_days <= MAX_DAYS,
    ensures
        final(outputs)@ == pruned(old(outputs)@, entries@, max_rollout_age_days as int, now),
{
    let ghost before = outputs@;
    let ghost f = |o: Stage1Output| still_wanted(o, entries@, max_rollout_age_days as int, now);
    let max_age = nanos_of_days(max_rollout_age_days);
    let mut kept: Vec<Stage1Output> = Vec::new();
    let mut i: usize = 0;
    assert(before.take(0).filter(f) =~= Seq::empty());
    while i < outputs.len()
        invariant
            i <= outputs@.len(),
            outputs@ == before,
            max_age == days_in_nanos(max_rollout_age_days as int),
            f == (|o: Stage1Output| still_wanted(o, entries@, max_rollout_age_days as int, now)),
            kept@ == before.take(i as int).filter(f),
        decreases outputs@.len() - i,
    {
        proof {
            reveal(Seq::filter);
            assert(before.take(i + 1).drop_last() =~= before.take(i as int));
            assert(before.take(i + 1).last() == before[i as int]);
        }
        if let Some(at) = find_listed_at(entries, outputs[i].session_id) {
            if now.since(&at) <= max_age {
                kept.push(outputs[i].clone());
            }
        }
        i = i + 1;
    }
    assert(before.take(outputs@.len() as int) =~= before);
    *outputs = kept;
}

/// Drops what came from sessions that are no longer listed or too old by now.
pub fn prune_stage1_outputs(
    outputs: &mut Vec<Stage1Output>,
    entries: &[SessionIndexEntry],
    max_rollout_age_days: i64,
)
    requires
        max_rollout_age_days <= MAX_DAYS,
    ensures
        exists|now: Timestamp|
            final(outputs)@ == #[trigger] pruned(
                old(outputs)@,
                entries@,
                max_rollout_age_days as int,
                now,
            ),
{
    let now = Timestamp::now();
    prune_stage1_outputs_at(outputs, entries, max_rollout_age_days, now);
}

/// A session that memories can be made of.
#[derive(Debug, PartialEq, Eq)]
pub struct EligibleEntry {
    pub session_id: u128,
    pub rollout_path: String,
    pub cwd: String,
    pub git_branch: Option<String>,
    pub source_updated_at: Timestamp,
}

/// The session is the one of the entry.
pub open spec fn is_session_of(e: EligibleEntry, entry: SessionIndexEntry) -> bool {
    &&& rfc3339_instant(entry.last_event_at@) matches Some(p) && e.source_updated_at.view() == (
        p.0 as int,
        p.1 as int,
    )
    &&& e.session_id == entry.session_id
    &&& e.rollout_path == entry.rollout_path
    &&& e.cwd == entry.cwd_real
    &&& e.git_branch == entry.git_branch
}

impl EligibleEntry {
    /// The session of an entry, if the entry says in a readable way when it last
    /// changed.
    pub fn from_catalog_entry(entry: &SessionIndexEntry) -> (r: Option<Self>)
        ensures
            match r {
                Some(e) => is_session_of(e, *entry),
                None => rfc3339_instant(entry.last_event_at@) is None,
            },
    {
        match Timestamp::parse(entry.last_event_at.as_str()) {
            Some(source_updated_at) => Some(
                EligibleEntry {
                    session_id: entry.session_id,
                    rollout_path: entry.rollout_path.clone(),
                    cwd: entry.cwd_real.clone(),
                    git_branch: clone_text(&entry.git_branch),
                    source_updated_at,
                },
            ),
            None => None,
        }
    }
}

/// Whether nothing has happened for the given number of hours.
pub open spec fn idle_for(now: Timestamp, at: (int, int), hours: int) -> bool {
    nanos_between(now.view(), at) >= hours_in_nanos(hours)
}

/// Whether nothing has happened for the given number of hours, at the given time.
pub fn is_entry_idle_enough(updated_at: Timestamp, min_idle_hours: i64, now: Timestamp) -> (r: bool)
    requires
        min_idle_hours <= MAX_HOURS,
    ensures
        r == idle_for(now, updated_at.view(), min_idle_hours as int),
{
    now.since(&updated_at) >= nanos_of_hours(min_idle_hours)
}

/// What is found where memories were stored.
#[derive(Debug, PartialEq, Eq)]
pub enum StoredOutputs {
    /// These were stored.
    Found(Vec<Stage1Output>),
    /// Nothing was stored yet.
    Missing,
    /// What was stored cannot be understood.
    Malformed,
    /// It could not be looked at, for this reason.
    Unreadable(String),
}

/// What was stored, as far as it can be had.
pub open spec fn stored_or_none(stored: StoredOutputs) -> Seq<Stage1Output> {
    match stored {
        StoredOutputs::Found(outputs) => outputs@,
        _ => Seq::empty(),
    }
}

/// What was stored, as far as it can be had.
pub fn load_or_default(stored: StoredOutputs) -> (r: Vec<Stage1Output>)
    ensures
        r@ == stored_or_none(stored),
{
    match stored {
        StoredOutputs::Found(outputs) => outputs,
        _ => Vec::new(),
    }
}

/// Brings the use that was stored meanwhile into what is about to be stored. Where
/// nothing was stored, or nothing that can be understood, there is none to bring; where
/// it could not be looked at, nothing is to be stored, for that reason.
pub fn merge_usage_metadata_from_persisted(
    outputs: &mut Vec<Stage1Output>,
    stored: StoredOutputs,
) -> (r: Result<(), String>)
    ensures
        match stored {
            StoredOutputs::Unreadable(why) => r == Err::<(), String>(why) && final(outputs)@ == old(
                outputs,
            )@,
            _ => r is Ok && final(outputs)@ == old(outputs)@.map_values(
                |o: Stage1Output| usage_merged(o, stored_or_none(stored)),
            ),
        },
{
    match stored {
        StoredOutputs::Unreadable(why) => Err(why),
        stored => {
            let stored: Vec<Stage1Output> = load_or_default(stored);
            merge_usage_metadata(outputs, stored.as_slice());
            Ok(())
        },
    }
}

/// How memories are made.
#[derive(Debug, PartialEq, Eq)]
pub struct MemoriesConfig {
    pub max_raw_memories_for_global: usize,
    pub max_unused_days: i64,
    pub max_rollout_age_days: i64,
    pub max_rollouts_per_startup: usize,
    pub min_rollout_idle_hours: i64,
    pub no_memories_if_mcp_or_web_search: bool,
    pub phase_1_model: Option<String>,
    pub phase_2_model: Option<String>,
}

/// The session may be looked at: it is listed, not too old, and at rest.
pub open spec fn is_due(e: SessionIndexEntry, max_days: int, idle_hours: int, now: Timestamp) -> bool {
    is_listed(e) && (rfc3339_instant(e.last_event_at@) matches Some(p) && within_days(
        now,
        (p.0 as int, p.1 as int),
        max_days,
    ) && idle_for(now, (p.0 as int, p.1 as int), idle_hours))
}

/// What is known of the session was learned from its present state.
pub open spec fn is_known(e: SessionIndexEntry, outputs: Seq<Stage1Output>) -> bool {
    let p = last_of_session(outputs, e.session_id);
    0 <= p && (rfc3339_instant(e.last_event_at@) matches Some(i)
        && outputs[p].source_updated_at.view() == (i.0 as int, i.1 as int))
}

/// The sessions that are looked at, in the order in which they are listed.
pub open spec fn sessions_looked_at(
    entries: Seq<SessionIndexEntry>,
    max_days: int,
    idle_hours: int,
    max_sessions: int,
    now: Timestamp,
) -> Seq<SessionIndexEntry> {
    let due = entries.filter(|e: SessionIndexEntry| is_due(e, max_days, idle_hours, now));
    if due.len() <= max_sessions {
        due
    } else {
        due.take(max_sessions)
    }
}

/// The sessions that memories are to be made of: those that are looked at, unless
/// what is known of them was learned from their present state.
pub open spec fn sessions_to_summarize(
    entries: Seq<SessionIndexEntry>,
    outputs: Seq<Stage1Output>,
    max_days: int,
    idle_hours: int,
    max_sessions: int,
    now: Timestamp,
) -> Seq<SessionIndexEntry> {
    sessions_looked_at(entries, max_days, idle_hours, max_sessions, now).filter(
        |e: SessionIndexEntry| !is_known(e, outputs),
    )
}

/// Each is the session of the entry at its place.
pub open spec fn are_sessions_of(v: Seq<EligibleEntry>, entries: Seq<SessionIndexEntry>) -> bool {
    v.len() == entries.len() && forall|i: int|
        0 <= i < v.len() ==> is_session_of(#[trigger] v[i], entries[i])
}

/// The sessions that memories are to be made of at the given time.
pub fn stage1_entries_at(
    entries: &[SessionIndexEntry],
    outputs: &[Stage1Output],
    config: &MemoriesConfig,
    now: Timestamp,
) -> (r: Vec<EligibleEntry>)
    requires
        config.max_rollout_age_days <= MAX_DAYS,
        config.min_rollout_idle_hours <= MAX_HOURS,
    ensures
        are_sessions_of(
            r@,
            sessions_to_summarize(
                entries@,
                outputs@,
                config.max_rollout_age_days as int,
                config.min_rollout_idle_hours as int,
                config.max_rollouts_per_startup as int,
                now,
            ),
        ),
{
    let ghost max_days = config.max_rollout_age_days as int;
    let ghost hours = config.min_rollout_idle_hours as int;
    let ghost max = config.max_rollouts_per_startup as int;
    let ghost due = |e: SessionIndexEntry| is_due(e, max_days, hours, now);
    let ghost new = |e: SessionIndexEntry| !is_known(e, outputs@);
    let max_age = nanos_of_days(config.max_rollout_age_days);
    let mut looked_at: usize = 0;
    let mut out: Vec<EligibleEntry> = Vec::new();
    let mut i: usize = 0;
    let ghost mut seen: Seq<SessionIndexEntry> = Seq::empty();
    assert(entries@.take(0).filter(due) =~= seen);
    assert(seen.filter(new) =~= Seq::empty());
    while i < entries.len() && looked_at < config.max_rollouts_per_startup
        invariant
            i <= entries@.len(),
            due == (|e: SessionIndexEntry| is_due(e, max_days, hours, now)),
            new == (|e: SessionIndexEntry| !is_known(e, outputs@)),
            max_days == config.max_rollout_age_days,
            hours == config.min_rollout_idle_hours,
            max == config.max_rollouts_per_startup,
            hours <= MAX_HOURS,
            max_age == days_in_nanos(max_days),
            looked_at <= max,
            looked_at == seen.len(),
            seen == entries@.take(i as int).filter(due),
            are_sessions_of(out@, seen.filter(new)),
        decreases entries@.len() - i,
    {
        proof {
            reveal(Seq::filter);
            assert(entries@.take(i + 1).drop_last() =~= entries@.take(i as int));
            assert(entries@.take(i + 1).last() == entries@[i as int]);
        }
        if listed(&entries[i]) {
            if let Some(e) = EligibleEntry::from_catalog_entry(&entries[i]) {
                if now.since(&e.source_updated_at) <= max_age && is_entry_idle_enough(
                    e.source_updated_at,
                    config.min_rollout_idle_hours,
                    now,
                ) {
                    looked_at = looked_at + 1;
                    let ghost longer = seen.push(entries@[i as int]);
                    proof {
                        assert(longer.drop_last() =~= seen);
                        assert(longer.last() == entries@[i as int]);
                        seen = longer;
                    }
                    let known = match find_last(outputs, e.session_id) {
                        Some(p) => {
                            proof {
                                Timestamp::same_parts(
                                    outputs@[p as int].source_updated_at,
                                    e.source_updated_at,
                                );
                            }
                            outputs[p].source_updated_at == e.source_updated_at
                        },
                        None => false,
                    };
                    if !known {
                        out.push(e);
                    }
                }
            }
        }
        i = i + 1;
    }
    proof {
        filter_of_prefix(entries@, due, i as int);
        let all = entries@.filter(due);
        assert(seen =~= sessions_looked_at(entries@, max_days, hours, max, now));
    }
    out
}

/// The sessions that memories are to be made of by now.
pub fn stage1_entries(
    entries: &[SessionIndexEntry],
    outputs: &[Stage1Output],
    config: &MemoriesConfig,
) -> (r: Vec<EligibleEntry>)
    requires
        config.max_rollout_age_days <= MAX_DAYS,
        config.min_rollout_idle_hours <= MAX_HOURS,
    ensures
        exists|now: Timestamp|
            are_sessions_of(
                r@,
                #[trigger] sessions_to_summarize(
                    entries@,
                    outputs@,
                    config.max_rollout_age_days as int,
                    config.min_rollout_idle_hours as int,
                    config.max_rollouts_per_startup as int,
                    now,
                ),
            ),
{
    let now = Timestamp::now();
    stage1_entries_at(entries, outputs, config, now)
}

/// What was learned, with the results of one refresh brought in as they came.
pub open spec fn results_merged(
    outputs: Seq<Stage1Output>,
    results: Seq<Option<Stage1Output>>,
) -> Seq<Stage1Output>
    decreases results.len(),
{
    if results.len() == 0 {
        outputs
    } else {
        let before = results_merged(outputs, results.drop_last());
        match results.last() {
            Some(o) => upserted(before, o),
            None => before,
        }
    }
}

/// Brings in the results of one refresh as they came. A session of which nothing
/// was learned changes nothing.
pub fn merge_stage1_results(outputs: &mut Vec<Stage1Output>, results: &[Option<Stage1Output>])
    ensures
        final(outputs)@ == results_merged(old(outputs)@, results@),
{
    let ghost before = outputs@;
    let mut i: usize = 0;
    while i < results.len()
        invariant
            i <= results@.len(),
            outputs@ == results_merged(before, results@.take(i as int)),
        decreases results@.len() - i,
    {
        proof {
            assert(results@.take(i + 1).drop_last() =~= results@.take(i as int));
            assert(results@.take(i + 1).last() == results@[i as int]);
        }
        if let Some(o) = &results[i] {
            upsert_stage1_output(outputs, o.clone());
        }
        i = i + 1;
    }
    assert(results@.take(results@.len() as int) =~= results@);
}

} // verus!
