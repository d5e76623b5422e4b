//! What holds of the memories.

use crate::memory_select::{
    by_preference, by_recency, candidates, dropped_of, fresh, is_selection, preferred, ref_views,
    refs_of, same_source, selected_of, without_repeats, Phase2Selection,
};
use crate::memory_store::{
    first_of_session, first_of_session_holds, is_known, last_of_session, pruned, still_wanted,
    upserted, usage_merged, usage_noted, SessionIndexEntry, Stage1Output, Stage1OutputRef,
};
use crate::order::{ordered, ordered_keeps, ranks, same_elements};
use crate::time::{rfc3339_instant, Timestamp};
use vstd::prelude::*;

verus! {

broadcast use vstd::seq_lib::group_seq_properties;

pub(crate) proof fn preference_ranks()
    ensures
        ranks(by_preference()),
        ranks(by_recency()),
{
    let lt = by_preference();
    assert forall|a: Stage1Output, b: Stage1Output| #[trigger] lt(a, b) implies !lt(b, a) by {}
    assert forall|a: Stage1Output, b: Stage1Output, c: Stage1Output| #[trigger]
        lt(a, c) implies #[trigger] lt(a, b) || lt(b, c) by {}
}

/// A filtered list holds what the list holds and the filter lets through.
pub(crate) proof fn filter_holds<T>(s: Seq<T>, f: spec_fn(T) -> bool, x: T)
    ensures
        s.filter(f).contains(x) == (s.contains(x) && f(x)),
    decreases s.len(),
{
    reveal(Seq::filter);
    if s.len() > 0 {
        let t = s.drop_last();
        filter_holds(t, f, x);
        assert(s =~= t.push(s.last()));
        if s.contains(x) {
            let i = choose|i: int| 0 <= i < s.len() && s[i] == x;
            if i < t.len() {
                assert(t[i] == x);
            } else if f(x) {
                assert(s.filter(f).last() == x);
            }
        }
        if t.contains(x) {
            let i = choose|i: int| 0 <= i < t.len() && t[i] == x;
            assert(s[i] == x);
        }
        if t.filter(f).contains(x) {
            let i = choose|i: int| 0 <= i < t.filter(f).len() && t.filter(f)[i] == x;
            assert(s.filter(f)[i] == x);
        }
        if s.filter(f).contains(x) {
            let i = choose|i: int| 0 <= i < s.filter(f).len() && s.filter(f)[i] == x;
            if i < t.filter(f).len() {
                assert(t.filter(f)[i] == x);
            } else {
                assert(s[s.len() - 1] == x);
            }
        }
    }
}

/// As many memories are selected as there are of use, but no more than allowed.
pub proof fn selection_size(
    outputs: Seq<Stage1Output>,
    max_raw_memories: int,
    max_unused_days: int,
    now: Timestamp,
)
    requires
        0 <= max_raw_memories,
    ensures
        ({
            let useful = outputs.filter(|o: Stage1Output| fresh(o, max_unused_days, now));
            selected_of(outputs, max_raw_memories, max_unused_days, now).len() == if useful.len()
                <= max_raw_memories {
                useful.len() as int
            } else {
                max_raw_memories
            }
        }),
{
    preference_ranks();
    ordered_keeps(
        outputs.filter(|o: Stage1Output| fresh(o, max_unused_days, now)),
        by_preference(),
    );
}

/// Only memories that are of use are selected, and only ones that were there.
pub proof fn selection_is_of_use(
    outputs: Seq<Stage1Output>,
    max_raw_memories: int,
    max_unused_days: int,
    now: Timestamp,
    o: Stage1Output,
)
    requires
        0 <= max_raw_memories,
        selected_of(outputs, max_raw_memories, max_unused_days, now).contains(o),
    ensures
        outputs.contains(o),
        fresh(o, max_unused_days, now),
{
    let f = |x: Stage1Output| fresh(x, max_unused_days, now);
    let c = candidates(outputs, max_unused_days, now);
    let s = selected_of(outputs, max_raw_memories, max_unused_days, now);
    let i = choose|i: int| 0 <= i < s.len() && s[i] == o;
    assert(c[i] == o);
    assert(c.contains(o));
    preference_ranks();
    ordered_keeps(outputs.filter(f), by_preference());
    same_elements(c, outputs.filter(f), o);
    filter_holds(outputs, f, o);
}

/// No memory of use that is left out is preferred to one that is selected.
pub proof fn selection_is_preferred(
    outputs: Seq<Stage1Output>,
    max_raw_memories: int,
    max_unused_days: int,
    now: Timestamp,
    i: int,
    j: int,
)
    requires
        0 <= i < max_raw_memories,
        max_raw_memories <= j < candidates(outputs, max_unused_days, now).len(),
    ensures
        !preferred(
            candidates(outputs, max_unused_days, now)[j],
            selected_of(outputs, max_raw_memories, max_unused_days, now)[i],
        ),
{
    let c = candidates(outputs, max_unused_days, now);
    preference_ranks();
    ordered_keeps(
        outputs.filter(|o: Stage1Output| fresh(o, max_unused_days, now)),
        by_preference(),
    );
    let lt = by_preference();
    assert(!lt(c[j], c[i]));
}

/// What was selected before is either selected again or said to be removed, and
/// never both.
pub proof fn removed_or_selected(
    s: Phase2Selection,
    outputs: Seq<Stage1Output>,
    max_raw_memories: int,
    max_unused_days: int,
    previous: Seq<Stage1OutputRef>,
    now: Timestamp,
    r: Stage1OutputRef,
)
    requires
        is_selection(s, outputs, max_raw_memories, max_unused_days, previous, now),
        previous.contains(r),
    ensures
        s.removed@.contains(r) != refs_of(s.selected@).contains(r.view()),
{
    filter_holds(
        previous,
        |x: Stage1OutputRef| !refs_of(s.selected@).contains(x.view()),
        r,
    );
}

proof fn repeats_leave_one(s: Seq<Stage1Output>, o: Stage1Output)
    requires
        s.contains(o),
    ensures
        exists|i: int|
            0 <= i < without_repeats(s).len() && same_source(#[trigger] without_repeats(s)[i], o),
    decreases s.len(),
{
    let t = s.drop_last();
    let w = without_repeats(t);
    let r = without_repeats(s);
    let k = choose|k: int| 0 <= k < s.len() && s[k] == o;
    if k < t.len() {
        assert(t[k] == o);
        repeats_leave_one(t, o);
        let i = choose|i: int| 0 <= i < w.len() && same_source(#[trigger] w[i], o);
        assert(r[i] == w[i]);
        assert(same_source(r[i], o));
    } else {
        assert(same_source(r[r.len() - 1], o));
    }
}

/// What is selected is kept on disk, and so is what was selected before as long
/// as it is of use.
pub proof fn useful_memories_are_retained(
    s: Phase2Selection,
    outputs: Seq<Stage1Output>,
    max_raw_memories: int,
    max_unused_days: int,
    previous: Seq<Stage1OutputRef>,
    now: Timestamp,
    o: Stage1Output,
)
    requires
        0 <= max_raw_memories,
        is_selection(s, outputs, max_raw_memories, max_unused_days, previous, now),
        s.selected@.contains(o) || (outputs.contains(o) && fresh(o, max_unused_days, now)
            && ref_views(previous).contains(o.ref_view())),
    ensures
        exists|i: int|
            0 <= i < s.retained_artifacts@.len() && same_source(
                #[trigger] s.retained_artifacts@[i],
                o,
            ),
{
    let sorted = candidates(outputs, max_unused_days, now);
    let f = |x: Stage1Output| fresh(x, max_unused_days, now);
    let chosen = refs_of(s.selected@);
    let prev = ref_views(previous);
    let g = |x: Stage1Output| prev.contains(x.ref_view()) && !chosen.contains(x.ref_view());
    let all = s.selected@ + dropped_of(sorted, chosen, prev);
    preference_ranks();
    ordered_keeps(outputs.filter(f), by_preference());
    ordered_keeps(all, by_recency());
    let kept = ordered(all, by_recency());
    if s.selected@.contains(o) {
        let i = choose|i: int| 0 <= i < s.selected@.len() && s.selected@[i] == o;
        assert(all[i] == o);
        same_elements(kept, all, o);
        repeats_leave_one(kept, o);
    } else if chosen.contains(o.ref_view()) {
        let i = choose|i: int| 0 <= i < chosen.len() && chosen[i] == o.ref_view();
        let other = s.selected@[i];
        assert(other.ref_view() == o.ref_view());
        assert(all[i] == other);
        same_elements(kept, all, other);
        repeats_leave_one(kept, other);
        let k = choose|k: int|
            0 <= k < without_repeats(kept).len() && same_source(
                #[trigger] without_repeats(kept)[k],
                other,
            );
        assert(same_source(s.retained_artifacts@[k], o));
    } else {
        filter_holds(outputs, f, o);
        same_elements(sorted, outputs.filter(f), o);
        filter_holds(sorted, g, o);
        let d = dropped_of(sorted, chosen, prev);
        let i = choose|i: int| 0 <= i < d.len() && d[i] == o;
        assert(all[s.selected@.len() + i] == o);
        same_elements(kept, all, o);
        repeats_leave_one(kept, o);
    }
}

/// Of each session at most one element is known.
pub open spec fn one_per_session(s: Seq<Stage1Output>) -> bool {
    forall|i: int, j: int|
        0 <= i < j < s.len() ==> (#[trigger] s[i]).session_id != (#[trigger] s[j]).session_id
}

proof fn filter_keeps_one_per_session(s: Seq<Stage1Output>, f: spec_fn(Stage1Output) -> bool)
    requires
        one_per_session(s),
    ensures
        one_per_session(s.filter(f)),
    decreases s.len(),
{
    reveal(Seq::filter);
    if s.len() > 0 {
        let t = s.drop_last();
        filter_keeps_one_per_session(t, f);
        let r = s.filter(f);
        assert forall|i: int, j: int| 0 <= i < j < r.len() implies (#[trigger] r[i]).session_id != (
        #[trigger] r[j]).session_id by {
            if j == t.filter(f).len() {
                let x = t.filter(f)[i];
                assert(t.filter(f).contains(x));
                filter_holds(t, f, x);
                let k = choose|k: int| 0 <= k < t.len() && t[k] == x;
                assert(s[k].session_id != s[s.len() - 1].session_id);
            }
        }
    }
}

/// What is new from a session replaces what was known of it, so that still only
/// one element is known of each session.
pub proof fn upsert_keeps_one_per_session(outputs: Seq<Stage1Output>, next: Stage1Output)
    requires
        one_per_session(outputs),
    ensures
        one_per_session(upserted(outputs, next)),
{
    let f = |o: Stage1Output| o.session_id != next.session_id;
    filter_keeps_one_per_session(outputs, f);
    let kept = outputs.filter(f);
    let r = upserted(outputs, next);
    assert forall|i: int, j: int| 0 <= i < j < r.len() implies (#[trigger] r[i]).session_id != (
    #[trigger] r[j]).session_id by {
        if j == kept.len() {
            assert(kept.contains(kept[i]));
            filter_holds(outputs, f, kept[i]);
        }
    }
}

/// What is new from a session stands at the end, with the use that was known of
/// the session before.
pub proof fn upsert_keeps_usage(outputs: Seq<Stage1Output>, next: Stage1Output)
    ensures
        ({
            let r = upserted(outputs, next);
            let p = first_of_session(outputs, next.session_id);
            &&& r.len() > 0
            &&& r.last().session_id == next.session_id
            &&& r.last().raw_memory == next.raw_memory
            &&& r.last().source_updated_at == next.source_updated_at
            &&& p < outputs.len() ==> r.last().usage_count == outputs[p].usage_count
                && r.last().last_usage == outputs[p].last_usage
            &&& p == outputs.len() ==> r.last() == next
        }),
{
    first_of_session_holds(outputs, next.session_id);
}

/// What is known of other sessions stays as it is.
pub proof fn upsert_leaves_others(outputs: Seq<Stage1Output>, next: Stage1Output, o: Stage1Output)
    requires
        o.session_id != next.session_id,
    ensures
        upserted(outputs, next).contains(o) == outputs.contains(o),
{
    let f = |x: Stage1Output| x.session_id != next.session_id;
    filter_holds(outputs, f, o);
    let kept = outputs.filter(f);
    let r = upserted(outputs, next);
    if kept.contains(o) {
        let i = choose|i: int| 0 <= i < kept.len() && kept[i] == o;
        assert(r[i] == o);
    }
    if r.contains(o) {
        let i = choose|i: int| 0 <= i < r.len() && r[i] == o;
        assert(kept[i] == o);
    }
}

/// A session whose present state was just learned from is not looked at again.
pub proof fn learned_session_is_known(
    outputs: Seq<Stage1Output>,
    next: Stage1Output,
    e: SessionIndexEntry,
)
    requires
        e.session_id == next.session_id,
        rfc3339_instant(e.last_event_at@) matches Some(p) && next.source_updated_at.view() == (
            p.0 as int,
            p.1 as int,
        ),
    ensures
        is_known(e, upserted(outputs, next)),
{
    let r = upserted(outputs, next);
    upsert_keeps_usage(outputs, next);
    assert(last_of_session(r, e.session_id) == r.len() - 1);
}

/// Merging in what was stored never lowers a count and never forgets a later use.
pub proof fn merged_usage_grows(o: Stage1Output, stored: Seq<Stage1Output>)
    ensures
        ({
            let m = usage_merged(o, stored);
            let p = last_of_session(stored, o.session_id);
            &&& m.usage_count >= o.usage_count
            &&& o.last_usage matches Some(t) ==> (m.last_usage matches Some(u) && !u.before(t))
            &&& 0 <= p ==> m.usage_count >= stored[p].usage_count
            &&& 0 <= p ==> (stored[p].last_usage matches Some(t) ==> (m.last_usage matches Some(u)
                && !u.before(t)))
            &&& m.session_id == o.session_id
            &&& m.raw_memory == o.raw_memory
        }),
{
}

/// Merging in the same stored use twice is merging it in once.
pub proof fn merge_is_idempotent(o: Stage1Output, stored: Seq<Stage1Output>)
    ensures
        usage_merged(usage_merged(o, stored), stored) == usage_merged(o, stored),
{
}

/// Noting a use never lowers a count, and touches nothing but the use.
pub proof fn noted_usage_grows(
    outputs: Seq<Stage1Output>,
    ids: Seq<u128>,
    now: Timestamp,
    i: int,
)
    requires
        0 <= i < outputs.len(),
    ensures
        ({
            let n = usage_noted(outputs, ids, now)[i];
            &&& usage_noted(outputs, ids, now).len() == outputs.len()
            &&& n.usage_count >= outputs[i].usage_count
            &&& n == (Stage1Output {
                usage_count: n.usage_count,
                last_usage: n.last_usage,
                ..outputs[i]
            })
            &&& ids.contains(outputs[i].session_id) ==> n.last_usage == Some(now)
            &&& !ids.contains(outputs[i].session_id) ==> n == outputs[i]
        }),
{
}

/// Pruning twice at one time is pruning once.
pub proof fn prune_is_idempotent(
    outputs: Seq<Stage1Output>,
    entries: Seq<SessionIndexEntry>,
    max_days: int,
    now: Timestamp,
)
    ensures
        pruned(pruned(outputs, entries, max_days, now), entries, max_days, now) == pruned(
            outputs,
            entries,
            max_days,
            now,
        ),
{
    let f = |o: Stage1Output| still_wanted(o, entries, max_days, now);
    filter_twice(outputs, f);
}

proof fn filter_twice<T>(s: Seq<T>, f: spec_fn(T) -> bool)
    ensures
        s.filter(f).filter(f) == s.filter(f),
    decreases s.len(),
{
    reveal(Seq::filter);
    if s.len() > 0 {
        let t = s.drop_last();
        filter_twice(t, f);
        if f(s.last()) {
            assert(t.filter(f).push(s.last()).drop_last() =~= t.filter(f));
        }
    }
}

} // verus!
