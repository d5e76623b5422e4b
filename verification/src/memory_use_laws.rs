//! Which memories are used, kept and made, by when they were last of use.

use crate::memory_laws::{filter_holds, preference_ranks, useful_memories_are_retained};
use crate::memory_select::{
    anchor, by_preference, by_recency, candidates, dropped_of, fresh, is_selection, latest_source,
    ref_views, refs_of, without_repeats, Phase2Selection,
};
use crate::memory_store::{
    are_sessions_of, first_of_session, first_of_session_holds, is_due, is_known, last_of_session,
    listed_at, pruned, results_merged, sessions_looked_at, sessions_to_summarize, still_wanted,
    stored_or_none, upserted, usage_merged, usage_noted, EligibleEntry, SessionIndexEntry,
    Stage1Output, Stage1OutputRef, StoredOutputs,
};
use crate::order::{filter_places, in_order, ordered, ordered_keeps, same_elements};
use crate::time::{nanos_between, rfc3339_instant, Timestamp};
use vstd::prelude::*;

verus! {

broadcast use vstd::seq_lib::group_seq_properties;

/// How many nanoseconds lie between two points in time, leap seconds aside.
pub open spec fn nanos_from(at: (int, int), now: (int, int)) -> int {
    (now.0 - at.0) * 1_000_000_000 + (now.1 - at.1)
}

/// The point in time lies in no leap second.
pub open spec fn is_ordinary(at: (int, int)) -> bool {
    0 <= at.1 < 1_000_000_000
}

/// Time passes by the clock, but for leap seconds.
pub proof fn time_passes_by_the_clock(now: (int, int), at: (int, int))
    requires
        is_ordinary(now),
        is_ordinary(at),
    ensures
        nanos_between(now, at) == nanos_from(at, now),
{
}

/// From one point in time to another lies as much as from the other to the one, the other
/// way, leap seconds or not; and none from one to itself.
pub proof fn time_passes_both_ways_alike(a: (int, int), b: (int, int))
    ensures
        nanos_between(a, b) == -nanos_between(b, a),
        nanos_between(a, a) == 0,
{
}

/// A leap second counts, on the day that it is in, towards a later time of day.
pub proof fn leap_seconds_count(leap: (int, int), at: (int, int))
    requires
        leap.1 >= 1_000_000_000,
        is_ordinary(at),
    ensures
        at.0 % 86_400 > leap.0 % 86_400 ==> nanos_between(at, leap) == nanos_from(leap, at)
            + 1_000_000_000,
        at.0 % 86_400 <= leap.0 % 86_400 ==> nanos_between(at, leap) == nanos_from(leap, at),
{
}

/// Of two points in time the one with fewer seconds is the earlier one, and of two in one
/// second the one with fewer nanoseconds.
pub proof fn earlier_is_less(a: Timestamp, b: Timestamp)
    ensures
        a.view().0 < b.view().0 ==> a.before(b) && !b.before(a),
        a.view().0 == b.view().0 ==> (a.before(b) <==> a.view().1 < b.view().1),
{
}

/// The memory was last of use then: when it was last used, whenever it was made; one that
/// was never used, when it was made.
pub open spec fn last_of_use(o: Stage1Output, t: Timestamp) -> bool {
    o.last_usage == Some(t) || (o.last_usage is None && o.generated_at == t)
}

/// No more than so many days, none where the number is negative, lie between the two.
pub open spec fn in_days(now: Timestamp, at: (int, int), days: int) -> bool {
    nanos_from(at, now.view()) <= 0 || (0 < days && nanos_from(at, now.view()) <= days * 24 * 3600
        * 1_000_000_000)
}

proof fn fresh_is_in_days(o: Stage1Output, t: Timestamp, days: int, now: Timestamp)
    requires
        last_of_use(o, t),
        is_ordinary(t.view()),
        is_ordinary(now.view()),
    ensures
        fresh(o, days, now) <==> in_days(now, t.view(), days),
{
    time_passes_by_the_clock(now.view(), t.view());
    assert(anchor(o) == t);
    assert(days > 0 ==> days * 86_400_000_000_000 == days * 24 * 3600 * 1_000_000_000)
        by (nonlinear_arith);
    assert(days > 0 ==> days * 86_400_000_000_000 >= 0) by (nonlinear_arith);
}

proof fn candidates_hold(outputs: Seq<Stage1Output>, days: int, now: Timestamp, o: Stage1Output)
    ensures
        candidates(outputs, days, now).contains(o) <==> outputs.contains(o) && fresh(o, days, now),
        in_order(candidates(outputs, days, now), by_preference()),
        candidates(outputs, days, now).len() <= outputs.len(),
{
    let f = |x: Stage1Output| fresh(x, days, now);
    preference_ranks();
    ordered_keeps(outputs.filter(f), by_preference());
    let c = candidates(outputs, days, now);
    same_elements(c, outputs.filter(f), o);
    same_elements(outputs.filter(f), c, o);
    filter_holds(outputs, f, o);
    vstd::seq_lib::to_multiset_len(c);
    vstd::seq_lib::to_multiset_len(outputs.filter(f));
    outputs.lemma_filter_len(f);
}

/// A memory that was last of use lately enough is selected, whenever it was made, unless
/// there is no room; then every selected memory was used at least as often.
pub proof fn memories_used_lately_are_selected(
    s: Phase2Selection,
    outputs: Seq<Stage1Output>,
    max_raw_memories: int,
    max_unused_days: int,
    previous: Seq<Stage1OutputRef>,
    now: Timestamp,
    o: Stage1Output,
    t: Timestamp,
)
    requires
        0 <= max_raw_memories,
        is_selection(s, outputs, max_raw_memories, max_unused_days, previous, now),
        outputs.contains(o),
        last_of_use(o, t),
        is_ordinary(t.view()),
        is_ordinary(now.view()),
        in_days(now, t.view(), max_unused_days),
    ensures
        s.selected@.contains(o) || s.selected@.len() == max_raw_memories,
        outputs.len() <= max_raw_memories ==> s.selected@.contains(o),
        !s.selected@.contains(o) ==> forall|i: int|
            0 <= i < s.selected@.len() ==> (#[trigger] s.selected@[i]).usage_count
                >= o.usage_count,
{
    fresh_is_in_days(o, t, max_unused_days, now);
    candidates_hold(outputs, max_unused_days, now, o);
    let c = candidates(outputs, max_unused_days, now);
    let k = choose|k: int| 0 <= k < c.len() && c[k] == o;
    if k < s.selected@.len() {
        assert(s.selected@[k] == o);
    } else {
        let lt = by_preference();
        assert forall|i: int| 0 <= i < s.selected@.len() implies (
        #[trigger] s.selected@[i]).usage_count >= o.usage_count by {
            assert(s.selected@[i] == c[i]);
            assert(!lt(c[k], c[i]));
        }
    }
}

/// A memory that has not been of use for longer is not selected, however often it was
/// used before.
pub proof fn memories_out_of_use_are_not_selected(
    s: Phase2Selection,
    outputs: Seq<Stage1Output>,
    max_raw_memories: int,
    max_unused_days: int,
    previous: Seq<Stage1OutputRef>,
    now: Timestamp,
    i: int,
    t: Timestamp,
)
    requires
        0 <= max_raw_memories,
        is_selection(s, outputs, max_raw_memories, max_unused_days, previous, now),
        0 <= i < s.selected@.len(),
        last_of_use(s.selected@[i], t),
        is_ordinary(t.view()),
        is_ordinary(now.view()),
    ensures
        outputs.contains(s.selected@[i]),
        in_days(now, t.view(), max_unused_days),
        s.selected@.len() <= max_raw_memories,
{
    let o = s.selected@[i];
    let c = candidates(outputs, max_unused_days, now);
    assert(c[i] == o);
    assert(c.contains(o));
    candidates_hold(outputs, max_unused_days, now, o);
    fresh_is_in_days(o, t, max_unused_days, now);
}

/// Memories that were used more often come first; of those used as often, those last of
/// use more lately; of these, those whose sessions changed more lately.
pub proof fn memories_come_by_their_use(
    s: Phase2Selection,
    outputs: Seq<Stage1Output>,
    max_raw_memories: int,
    max_unused_days: int,
    previous: Seq<Stage1OutputRef>,
    now: Timestamp,
    i: int,
    j: int,
    ti: Timestamp,
    tj: Timestamp,
)
    requires
        is_selection(s, outputs, max_raw_memories, max_unused_days, previous, now),
        0 <= max_raw_memories,
        0 <= i < j < s.selected@.len(),
        last_of_use(s.selected@[i], ti),
        last_of_use(s.selected@[j], tj),
    ensures
        s.selected@[i].usage_count >= s.selected@[j].usage_count,
        s.selected@[i].usage_count == s.selected@[j].usage_count ==> !ti.before(tj),
        s.selected@[i].usage_count == s.selected@[j].usage_count && ti == tj
            ==> !s.selected@[i].source_updated_at.before(s.selected@[j].source_updated_at),
{
    let c = candidates(outputs, max_unused_days, now);
    candidates_hold(outputs, max_unused_days, now, c[i]);
    let lt = by_preference();
    assert(c[i] == s.selected@[i] && c[j] == s.selected@[j]);
    assert(!lt(c[j], c[i]));
}

/// What was selected before is said to be removed just where nothing is selected of the
/// same session, of the same time and under the same slug.
pub proof fn removed_memories_are_not_selected(
    s: Phase2Selection,
    outputs: Seq<Stage1Output>,
    max_raw_memories: int,
    max_unused_days: int,
    previous: Seq<Stage1OutputRef>,
    now: Timestamp,
    r: Stage1OutputRef,
)
    requires
        is_selection(s, outputs, max_raw_memories, max_unused_days, previous, now),
    ensures
        s.removed@.contains(r) <==> previous.contains(r) && !(exists|i: int|
            0 <= i < s.selected@.len() && names(r, #[trigger] s.selected@[i])),
{
    let chosen = refs_of(s.selected@);
    filter_holds(previous, |x: Stage1OutputRef| !chosen.contains(x.view()), r);
    if chosen.contains(r.view()) {
        let i = choose|i: int| 0 <= i < chosen.len() && chosen[i] == r.view();
        assert(names(r, s.selected@[i]));
    }
    if exists|i: int| 0 <= i < s.selected@.len() && names(r, #[trigger] s.selected@[i]) {
        let i = choose|i: int| 0 <= i < s.selected@.len() && names(r, #[trigger] s.selected@[i]);
        assert(chosen[i] == r.view());
    }
}

/// This is the name of that memory.
pub open spec fn names(r: Stage1OutputRef, o: Stage1Output) -> bool {
    &&& r.session_id == o.session_id
    &&& r.source_updated_at == o.source_updated_at
    &&& match (r.rollout_slug, o.rollout_slug) {
        (Some(a), Some(b)) => a@ == b@,
        (None, None) => true,
        _ => false,
    }
}

proof fn kept_places(s: Seq<Stage1Output>) -> (places: Seq<int>)
    ensures
        places.len() == without_repeats(s).len(),
        forall|k: int|
            0 <= k < places.len() ==> 0 <= #[trigger] places[k] < s.len() && s[places[k]]
                == without_repeats(s)[k],
        forall|k: int, l: int|
            0 <= k < l < places.len() ==> #[trigger] places[k] < #[trigger] places[l],
    decreases s.len(),
{
    if s.len() == 0 {
        Seq::empty()
    } else {
        let t = s.drop_last();
        let before = kept_places(t);
        let places = if without_repeats(s).len() > before.len() {
            before.push(s.len() - 1)
        } else {
            before
        };
        assert forall|k: int| 0 <= k < places.len() implies 0 <= #[trigger] places[k] < s.len()
            && s[places[k]] == without_repeats(s)[k] by {
            if k < before.len() {
                assert(places[k] == before[k]);
                assert(t[before[k]] == s[before[k]]);
            }
        }
        places
    }
}

/// What is kept on disk is selected, or was selected before and is still of use. What
/// changed more lately comes first, and two that stand side by side are not from the same
/// state of the same session.
pub proof fn retained_memories_are_of_use(
    s: Phase2Selection,
    outputs: Seq<Stage1Output>,
    max_raw_memories: int,
    max_unused_days: int,
    previous: Seq<Stage1OutputRef>,
    now: Timestamp,
    k: int,
    t: Timestamp,
)
    requires
        is_selection(s, outputs, max_raw_memories, max_unused_days, previous, now),
        0 <= k < s.retained_artifacts@.len(),
        last_of_use(s.retained_artifacts@[k], t),
        is_ordinary(t.view()),
        is_ordinary(now.view()),
    ensures
        ({
            let o = s.retained_artifacts@[k];
            ||| s.selected@.contains(o)
            ||| outputs.contains(o) && in_days(now, t.view(), max_unused_days) && (exists|i: int|
                0 <= i < previous.len() && names(#[trigger] previous[i], o))
        }),
        k > 0 ==> !s.retained_artifacts@[k - 1].source_updated_at.before(
            s.retained_artifacts@[k].source_updated_at,
        ),
        k > 0 ==> s.retained_artifacts@[k - 1].session_id != s.retained_artifacts@[k].session_id
            || s.retained_artifacts@[k - 1].source_updated_at
            != s.retained_artifacts@[k].source_updated_at,
{
    let sorted = candidates(outputs, max_unused_days, now);
    let chosen = refs_of(s.selected@);
    let prev = ref_views(previous);
    let g = |x: Stage1Output| prev.contains(x.ref_view()) && !chosen.contains(x.ref_view());
    let dropped = dropped_of(sorted, chosen, prev);
    let all = s.selected@ + dropped;
    let kept = ordered(all, by_recency());
    let o = s.retained_artifacts@[k];
    preference_ranks();
    ordered_keeps(all, by_recency());
    let places = kept_places(kept);
    assert(kept[places[k]] == o);
    assert(kept.contains(o));
    same_elements(kept, all, o);
    let j = choose|j: int| 0 <= j < all.len() && all[j] == o;
    if j < s.selected@.len() {
        assert(s.selected@[j] == o);
    } else {
        assert(dropped[j - s.selected@.len()] == o);
        assert(dropped.contains(o));
        filter_holds(sorted, g, o);
        candidates_hold(outputs, max_unused_days, now, o);
        fresh_is_in_days(o, t, max_unused_days, now);
        let q = choose|q: int| 0 <= q < prev.len() && prev[q] == o.ref_view();
        assert(names(previous[q], o));
    }
    if k > 0 {
        neighbours_differ(kept, k);
        let lt = by_recency();
        assert(places[k - 1] < places[k]);
        assert(!lt(kept[places[k]], kept[places[k - 1]]));
    }
}

proof fn neighbours_differ(s: Seq<Stage1Output>, k: int)
    requires
        0 < k < without_repeats(s).len(),
    ensures
        without_repeats(s)[k - 1].session_id != without_repeats(s)[k].session_id || without_repeats(
            s,
        )[k - 1].source_updated_at != without_repeats(s)[k].source_updated_at,
    decreases s.len(),
{
    let before = without_repeats(s.drop_last());
    if k < before.len() {
        neighbours_differ(s.drop_last(), k);
    }
}

/// What is selected is kept on disk: something of the same session and of the same state
/// of it is.
pub proof fn selected_memories_are_kept(
    s: Phase2Selection,
    outputs: Seq<Stage1Output>,
    max_raw_memories: int,
    max_unused_days: int,
    previous: Seq<Stage1OutputRef>,
    now: Timestamp,
    o: Stage1Output,
)
    requires
        0 <= max_raw_memories,
        is_selection(s, outputs, max_raw_memories, max_unused_days, previous, now),
        s.selected@.contains(o),
    ensures
        exists|i: int|
            0 <= i < s.retained_artifacts@.len() && (#[trigger] s.retained_artifacts@[i]).session_id
                == o.session_id && s.retained_artifacts@[i].source_updated_at
                == o.source_updated_at,
{
    useful_memories_are_retained(
        s,
        outputs,
        max_raw_memories,
        max_unused_days,
        previous,
        now,
        o,
    );
    let i = choose|i: int|
        0 <= i < s.retained_artifacts@.len() && crate::memory_select::same_source(
            #[trigger] s.retained_artifacts@[i],
            o,
        );
    assert(s.retained_artifacts@[i].session_id == o.session_id);
}

/// So is what was selected before, as long as it is known and of use.
pub proof fn memories_of_before_are_kept(
    s: Phase2Selection,
    outputs: Seq<Stage1Output>,
    max_raw_memories: int,
    max_unused_days: int,
    previous: Seq<Stage1OutputRef>,
    now: Timestamp,
    o: Stage1Output,
    k: int,
    t: Timestamp,
)
    requires
        0 <= max_raw_memories,
        is_selection(s, outputs, max_raw_memories, max_unused_days, previous, now),
        outputs.contains(o),
        0 <= k < previous.len(),
        names(previous[k], o),
        last_of_use(o, t),
        is_ordinary(t.view()),
        is_ordinary(now.view()),
        in_days(now, t.view(), max_unused_days),
    ensures
        exists|i: int|
            0 <= i < s.retained_artifacts@.len() && (#[trigger] s.retained_artifacts@[i]).session_id
                == o.session_id && s.retained_artifacts@[i].source_updated_at
                == o.source_updated_at,
{
    fresh_is_in_days(o, t, max_unused_days, now);
    assert(ref_views(previous)[k] == o.ref_view());
    useful_memories_are_retained(
        s,
        outputs,
        max_raw_memories,
        max_unused_days,
        previous,
        now,
        o,
    );
    let i = choose|i: int|
        0 <= i < s.retained_artifacts@.len() && crate::memory_select::same_source(
            #[trigger] s.retained_artifacts@[i],
            o,
        );
    assert(s.retained_artifacts@[i].session_id == o.session_id);
}

/// The summary is as late as the latest session that it was made of.
pub proof fn watermark_is_the_latest(s: Seq<Stage1Output>)
    ensures
        s.len() == 0 ==> latest_source(s) is None,
        s.len() > 0 ==> latest_source(s) is Some,
        forall|i: int|
            0 <= i < s.len() ==> !latest_source(s)->0.before((#[trigger] s[i]).source_updated_at),
        s.len() > 0 ==> exists|i: int|
            0 <= i < s.len() && (#[trigger] s[i]).source_updated_at == latest_source(s)->0,
    decreases s.len(),
{
    if s.len() > 0 {
        let t = s.drop_last();
        watermark_is_the_latest(t);
        let l = latest_source(s)->0;
        if t.len() > 0 {
            let i = choose|i: int|
                0 <= i < t.len() && (#[trigger] t[i]).source_updated_at == latest_source(t)->0;
            assert(s[i] == t[i]);
        }
        assert(s[s.len() - 1] == s.last());
        assert forall|i: int| 0 <= i < s.len() implies !l.before(
            (#[trigger] s[i]).source_updated_at,
        ) by {
            if i < t.len() {
                assert(t[i] == s[i]);
            }
        }
    }
}

// ---------------------------------------------------------------------------
// Use

/// Noting a use counts it once, unless it can be counted no further, and says when it
/// was; what is not named stays.
pub proof fn uses_are_counted(
    outputs: Seq<Stage1Output>,
    ids: Seq<u128>,
    now: Timestamp,
    i: int,
)
    requires
        0 <= i < outputs.len(),
    ensures
        ({
            let r = usage_noted(outputs, ids, now)[i];
            let o = outputs[i];
            &&& ids.contains(o.session_id) && o.usage_count < u64::MAX ==> r.usage_count
                == o.usage_count + 1
            &&& ids.contains(o.session_id) && o.usage_count == u64::MAX ==> r.usage_count
                == u64::MAX
            &&& ids.contains(o.session_id) ==> r.last_usage == Some(now)
            &&& !ids.contains(o.session_id) ==> r == o
            &&& r.session_id == o.session_id && r.raw_memory == o.raw_memory && r.generated_at
                == o.generated_at && r.source_updated_at == o.source_updated_at
        }),
{
}

proof fn last_of_session_is_last(s: Seq<Stage1Output>, id: u128)
    ensures
        -1 <= last_of_session(s, id) < s.len(),
        0 <= last_of_session(s, id) ==> s[last_of_session(s, id)].session_id == id,
        forall|i: int| last_of_session(s, id) < i < s.len() ==> (#[trigger] s[i]).session_id != id,
    decreases s.len(),
{
    if s.len() > 0 && s.last().session_id != id {
        let t = s.drop_last();
        last_of_session_is_last(t, id);
        assert forall|i: int| last_of_session(s, id) < i < s.len() implies (
        #[trigger] s[i]).session_id != id by {
            if i < t.len() {
                assert(t[i] == s[i]);
            }
        }
    }
}

/// What is about to be stored gets the greater count and the later use of the two, where
/// something of its session is stored; of several stored ones the last one counts. All
/// else of it stays.
pub proof fn stored_use_is_brought_in(o: Stage1Output, stored: Seq<Stage1Output>, p: int)
    requires
        0 <= p < stored.len(),
        stored[p].session_id == o.session_id,
        forall|i: int| p < i < stored.len() ==> (#[trigger] stored[i]).session_id != o.session_id,
    ensures
        ({
            let m = usage_merged(o, stored);
            let q = stored[p];
            &&& m.usage_count >= o.usage_count && m.usage_count >= q.usage_count
            &&& m.usage_count == o.usage_count || m.usage_count == q.usage_count
            &&& m.last_usage is None <==> o.last_usage is None && q.last_usage is None
            &&& m.last_usage is Some ==> m.last_usage == o.last_usage || m.last_usage
                == q.last_usage
            &&& o.last_usage matches Some(t) ==> !m.last_usage->0.before(t)
            &&& q.last_usage matches Some(t) ==> !m.last_usage->0.before(t)
            &&& m == (Stage1Output { usage_count: m.usage_count, last_usage: m.last_usage, ..o })
        }),
{
    last_of_session_is_last(stored, o.session_id);
    let l = last_of_session(stored, o.session_id);
    if l < p {
        assert(stored[p].session_id != o.session_id);
    }
    assert(l == p);
}

/// Where nothing of its session is stored, it stays as it is.
pub proof fn unknown_use_changes_nothing(o: Stage1Output, stored: Seq<Stage1Output>)
    requires
        forall|i: int| 0 <= i < stored.len() ==> (#[trigger] stored[i]).session_id != o.session_id,
    ensures
        usage_merged(o, stored) == o,
{
    last_of_session_is_last(stored, o.session_id);
}

/// What was stored counts where it can be had, and only there.
pub proof fn stored_memories_count(stored: StoredOutputs)
    ensures
        stored matches StoredOutputs::Found(v) ==> stored_or_none(stored) == v@,
        stored is Missing || stored is Malformed || stored is Unreadable ==> stored_or_none(
            stored,
        ).len() == 0,
{
}

/// What is new of a session takes the place of all that was known of it, and stands at
/// the end. It keeps the use that was first known of the session; a session of which
/// nothing was known begins anew.
pub proof fn news_replace_what_was_known(
    outputs: Seq<Stage1Output>,
    next: Stage1Output,
    p: int,
)
    requires
        0 <= p <= outputs.len(),
        p < outputs.len() ==> outputs[p].session_id == next.session_id,
        forall|i: int| 0 <= i < p ==> (#[trigger] outputs[i]).session_id != next.session_id,
    ensures
        ({
            let r = upserted(outputs, next);
            let last = r[r.len() - 1];
            &&& r.len() > 0
            &&& forall|i: int|
                0 <= i < r.len() - 1 ==> (#[trigger] r[i]).session_id != next.session_id
            &&& p == outputs.len() ==> last == next
            &&& p < outputs.len() ==> last == (Stage1Output {
                usage_count: outputs[p].usage_count,
                last_usage: outputs[p].last_usage,
                ..next
            })
        }),
{
    first_of_session_holds(outputs, next.session_id);
    let q = first_of_session(outputs, next.session_id);
    if q < p {
        assert(outputs[q].session_id != next.session_id);
    }
    if p < q {
        assert(outputs[p].session_id != next.session_id);
    }
    let f = |o: Stage1Output| o.session_id != next.session_id;
    let kept = outputs.filter(f);
    let r = upserted(outputs, next);
    let places = filter_places(outputs, f);
    assert forall|i: int| 0 <= i < r.len() - 1 implies (#[trigger] r[i]).session_id
        != next.session_id by {
        assert(r[i] == kept[i]);
        assert(outputs[places[i]] == kept[i]);
    }
}

/// What was learned is taken in one by one; a session of which nothing was learned leaves
/// everything as it is.
pub proof fn results_are_taken_in_turn(
    outputs: Seq<Stage1Output>,
    results: Seq<Option<Stage1Output>>,
    o: Stage1Output,
)
    ensures
        results_merged(outputs, Seq::empty()) == outputs,
        results_merged(outputs, results.push(None)) == results_merged(outputs, results),
        results_merged(outputs, results.push(Some(o))) == upserted(
            results_merged(outputs, results),
            o,
        ),
{
    assert(results.push(None).drop_last() =~= results);
    assert(results.push(Some(o)).drop_last() =~= results);
}

// ---------------------------------------------------------------------------
// Sessions

/// The session is one of the user's that is still there.
pub open spec fn is_there(e: SessionIndexEntry) -> bool {
    !e.deleted && !e.archived && (e.session_source is Cli || e.session_source is VSCode)
}

proof fn listed_at_is_last(entries: Seq<SessionIndexEntry>, id: u128, p: int)
    requires
        0 <= p < entries.len(),
        entries[p].session_id == id,
        is_there(entries[p]),
        rfc3339_instant(entries[p].last_event_at@) is Some,
        forall|i: int|
            p < i < entries.len() ==> (#[trigger] entries[i]).session_id != id || !is_there(
                entries[i],
            ) || rfc3339_instant(entries[i].last_event_at@) is None,
    ensures
        listed_at(entries, id) == rfc3339_instant(entries[p].last_event_at@),
    decreases entries.len(),
{
    if p < entries.len() - 1 {
        let t = entries.drop_last();
        assert forall|i: int| p < i < t.len() implies (#[trigger] t[i]).session_id != id
            || !is_there(t[i]) || rfc3339_instant(t[i].last_event_at@) is None by {
            assert(t[i] == entries[i]);
        }
        listed_at_is_last(t, id, p);
        assert(entries[entries.len() - 1] == entries.last());
    }
}

proof fn not_listed(entries: Seq<SessionIndexEntry>, id: u128)
    requires
        forall|i: int|
            0 <= i < entries.len() ==> (#[trigger] entries[i]).session_id != id || !is_there(
                entries[i],
            ) || rfc3339_instant(entries[i].last_event_at@) is None,
    ensures
        listed_at(entries, id) is None,
    decreases entries.len(),
{
    if entries.len() > 0 {
        let t = entries.drop_last();
        assert forall|i: int| 0 <= i < t.len() implies (#[trigger] t[i]).session_id != id
            || !is_there(t[i]) || rfc3339_instant(t[i].last_event_at@) is None by {
            assert(t[i] == entries[i]);
        }
        not_listed(t, id);
        assert(entries[entries.len() - 1] == entries.last());
    }
}

/// What was learned of a session is kept just as long as the session is there and changed
/// lately enough; of several entries for a session the last one counts.
pub proof fn memories_of_recent_sessions_are_kept(
    outputs: Seq<Stage1Output>,
    entries: Seq<SessionIndexEntry>,
    max_days: int,
    now: Timestamp,
    o: Stage1Output,
    p: int,
)
    requires
        outputs.contains(o),
        0 <= p < entries.len(),
        entries[p].session_id == o.session_id,
        is_there(entries[p]),
        rfc3339_instant(entries[p].last_event_at@) is Some,
        forall|i: int|
            p < i < entries.len() ==> (#[trigger] entries[i]).session_id != o.session_id
                || !is_there(entries[i]) || rfc3339_instant(entries[i].last_event_at@) is None,
        is_ordinary(now.view()),
        rfc3339_instant(entries[p].last_event_at@) matches Some(at) && at.1 < 1_000_000_000,
    ensures
        ({
            let at = rfc3339_instant(entries[p].last_event_at@)->0;
            pruned(outputs, entries, max_days, now).contains(o) <==> in_days(
                now,
                (at.0 as int, at.1 as int),
                max_days,
            )
        }),
{
    listed_at_is_last(entries, o.session_id, p);
    let at = rfc3339_instant(entries[p].last_event_at@)->0;
    time_passes_by_the_clock(now.view(), (at.0 as int, at.1 as int));
    assert(max_days > 0 ==> max_days * 86_400_000_000_000 == max_days * 24 * 3600 * 1_000_000_000)
        by (nonlinear_arith);
    assert(max_days > 0 ==> max_days * 86_400_000_000_000 >= 0) by (nonlinear_arith);
    filter_holds(outputs, |x: Stage1Output| still_wanted(x, entries, max_days, now), o);
}

/// What was learned of a session that is gone is forgotten, and nothing is made up.
pub proof fn memories_of_lost_sessions_are_forgotten(
    outputs: Seq<Stage1Output>,
    entries: Seq<SessionIndexEntry>,
    max_days: int,
    now: Timestamp,
    o: Stage1Output,
)
    ensures
        pruned(outputs, entries, max_days, now).contains(o) ==> outputs.contains(o) && (exists|
            i: int,
        |
            0 <= i < entries.len() && (#[trigger] entries[i]).session_id == o.session_id
                && is_there(entries[i]) && rfc3339_instant(entries[i].last_event_at@) is Some),
{
    filter_holds(outputs, |x: Stage1Output| still_wanted(x, entries, max_days, now), o);
    if !(exists|i: int|
        0 <= i < entries.len() && (#[trigger] entries[i]).session_id == o.session_id && is_there(
            entries[i],
        ) && rfc3339_instant(entries[i].last_event_at@) is Some) {
        not_listed(entries, o.session_id);
    }
}

/// The sessions that are looked at are those that are to be, one by one, as the index has
/// them.
pub proof fn sessions_are_as_the_index_has_them(
    v: Seq<EligibleEntry>,
    entries: Seq<SessionIndexEntry>,
    i: int,
)
    requires
        are_sessions_of(v, entries),
    ensures
        v.len() == entries.len(),
        0 <= i < v.len() ==> {
            &&& v[i].session_id == entries[i].session_id
            &&& v[i].rollout_path == entries[i].rollout_path
            &&& v[i].cwd == entries[i].cwd_real
            &&& v[i].git_branch == entries[i].git_branch
            &&& rfc3339_instant(entries[i].last_event_at@) matches Some(p)
                && v[i].source_updated_at.view() == (p.0 as int, p.1 as int)
        },
{
    if 0 <= i < v.len() {
        assert(crate::memory_store::is_session_of(v[i], entries[i]));
    }
}

/// At least so many hours lie between the two.
pub open spec fn hours_ago(now: Timestamp, at: (int, int), hours: int) -> bool {
    nanos_from(at, now.view()) >= 0 && nanos_from(at, now.view()) >= hours * 3600 * 1_000_000_000
}

/// The session is to be looked at: it is there, it changed lately enough, and it has been
/// at rest for long enough.
pub open spec fn is_ripe(
    e: SessionIndexEntry,
    max_days: int,
    idle_hours: int,
    now: Timestamp,
    at: (i64, u32),
) -> bool {
    &&& is_there(e)
    &&& rfc3339_instant(e.last_event_at@) == Some(at)
    &&& in_days(now, (at.0 as int, at.1 as int), max_days)
    &&& hours_ago(now, (at.0 as int, at.1 as int), idle_hours)
}

proof fn due_is_ripe(
    e: SessionIndexEntry,
    max_days: int,
    idle_hours: int,
    now: Timestamp,
    at: (i64, u32),
)
    requires
        rfc3339_instant(e.last_event_at@) == Some(at),
        at.1 < 1_000_000_000,
        is_ordinary(now.view()),
    ensures
        is_due(e, max_days, idle_hours, now) <==> is_ripe(e, max_days, idle_hours, now, at),
{
    time_passes_by_the_clock(now.view(), (at.0 as int, at.1 as int));
    assert(max_days > 0 ==> max_days * 86_400_000_000_000 == max_days * 24 * 3600 * 1_000_000_000)
        by (nonlinear_arith);
    assert(max_days > 0 ==> max_days * 86_400_000_000_000 >= 0) by (nonlinear_arith);
    assert(idle_hours > 0 ==> idle_hours * 3_600_000_000_000 == idle_hours * 3600 * 1_000_000_000)
        by (nonlinear_arith);
    assert(idle_hours > 0 ==> idle_hours * 3_600_000_000_000 >= 0) by (nonlinear_arith);
    assert(idle_hours <= 0 ==> idle_hours * 3600 * 1_000_000_000 <= 0) by (nonlinear_arith);
}

/// Each session that is looked at is to be: it is there, it changed lately enough, it has
/// been at rest for long enough, and its present state is not known yet.
pub proof fn sessions_looked_at_are_ripe(
    entries: Seq<SessionIndexEntry>,
    outputs: Seq<Stage1Output>,
    max_days: int,
    idle_hours: int,
    max_sessions: int,
    now: Timestamp,
    k: int,
    at: (i64, u32),
)
    requires
        0 <= max_sessions,
        is_ordinary(now.view()),
        0 <= k < sessions_to_summarize(
            entries,
            outputs,
            max_days,
            idle_hours,
            max_sessions,
            now,
        ).len(),
        rfc3339_instant(
            sessions_to_summarize(
                entries,
                outputs,
                max_days,
                idle_hours,
                max_sessions,
                now,
            )[k].last_event_at@,
        ) == Some(at),
        at.1 < 1_000_000_000,
    ensures
        ({
            let s = sessions_to_summarize(
                entries,
                outputs,
                max_days,
                idle_hours,
                max_sessions,
                now,
            );
            &&& s.len() <= max_sessions
            &&& entries.contains(s[k])
            &&& is_ripe(s[k], max_days, idle_hours, now, at)
            &&& !(exists|i: int|
                0 <= i < outputs.len() && (#[trigger] outputs[i]).session_id == s[k].session_id
                    && outputs[i].source_updated_at.view() == (at.0 as int, at.1 as int) && (forall|
                    j: int,
                |
                    i < j < outputs.len() ==> (#[trigger] outputs[j]).session_id
                        != s[k].session_id))
        }),
{
    let s = sessions_to_summarize(entries, outputs, max_days, idle_hours, max_sessions, now);
    let f = |e: SessionIndexEntry| is_due(e, max_days, idle_hours, now);
    let g = |e: SessionIndexEntry| !is_known(e, outputs);
    let looked = sessions_looked_at(entries, max_days, idle_hours, max_sessions, now);
    let due = entries.filter(f);
    let places = filter_places(looked, g);
    assert(s == looked.filter(g));
    assert(looked[places[k]] == s[k]);
    let due_places = filter_places(entries, f);
    assert(due[places[k]] == s[k]);
    assert(entries[due_places[places[k]]] == s[k]);
    due_is_ripe(s[k], max_days, idle_hours, now, at);
    last_of_session_is_last(outputs, s[k].session_id);
    assert(s.len() <= looked.len()) by {
        looked.lemma_filter_len(g);
    }
    if exists|i: int|
        0 <= i < outputs.len() && (#[trigger] outputs[i]).session_id == s[k].session_id
            && outputs[i].source_updated_at.view() == (at.0 as int, at.1 as int) && (forall|j: int|
            i < j < outputs.len() ==> (#[trigger] outputs[j]).session_id != s[k].session_id) {
        let i = choose|i: int|
            0 <= i < outputs.len() && (#[trigger] outputs[i]).session_id == s[k].session_id
                && outputs[i].source_updated_at.view() == (at.0 as int, at.1 as int) && (forall|
                j: int,
            |
                i < j < outputs.len() ==> (#[trigger] outputs[j]).session_id != s[k].session_id);
        let p = last_of_session(outputs, s[k].session_id);
        if p < i {
            assert(outputs[i].session_id != s[k].session_id);
        } else if i < p {
            assert(outputs[p].session_id != s[k].session_id);
        }
        assert(p == i);
    }
}

/// A session that is to be looked at and of which nothing is known is, as long as there
/// are no more entries than may be looked at.
pub proof fn ripe_sessions_are_looked_at(
    entries: Seq<SessionIndexEntry>,
    outputs: Seq<Stage1Output>,
    max_days: int,
    idle_hours: int,
    max_sessions: int,
    now: Timestamp,
    i: int,
    at: (i64, u32),
)
    requires
        is_ordinary(now.view()),
        0 <= i < entries.len() <= max_sessions,
        at.1 < 1_000_000_000,
        is_ripe(entries[i], max_days, idle_hours, now, at),
        forall|j: int|
            0 <= j < outputs.len() ==> (#[trigger] outputs[j]).session_id != entries[i].session_id
                || outputs[j].source_updated_at.view() != (at.0 as int, at.1 as int),
    ensures
        sessions_to_summarize(
            entries,
            outputs,
            max_days,
            idle_hours,
            max_sessions,
            now,
        ).contains(entries[i]),
{
    let e = entries[i];
    let f = |x: SessionIndexEntry| is_due(x, max_days, idle_hours, now);
    let g = |x: SessionIndexEntry| !is_known(x, outputs);
    due_is_ripe(e, max_days, idle_hours, now, at);
    filter_holds(entries, f, e);
    entries.lemma_filter_len(f);
    let looked = sessions_looked_at(entries, max_days, idle_hours, max_sessions, now);
    assert(looked == entries.filter(f));
    last_of_session_is_last(outputs, e.session_id);
    filter_holds(looked, g, e);
}

} // verus!
