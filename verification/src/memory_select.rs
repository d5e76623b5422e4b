//! Which memories go into the summary that a model is shown.

use crate::memory_store::{
    later, max_optional_datetime, within_days, RefView, Stage1Output, Stage1OutputRef,
};
use crate::order::{ordered, placed_at};
use crate::time::{days_in_nanos, nanos_of_days, Timestamp, MAX_DAYS};
use vstd::prelude::*;

verus! {

broadcast use vstd::seq_lib::group_seq_properties;

/// What the summary is made of, as it was last made.
#[derive(Debug, PartialEq, Eq)]
pub struct Phase2State {
    pub completion_watermark: Option<Timestamp>,
    pub selected: Vec<Stage1OutputRef>,
}

impl Default for Phase2State {
    fn default() -> (r: Self)
        ensures
            r.completion_watermark is None,
            r.selected@.len() == 0,
    {
        Phase2State { completion_watermark: None, selected: Vec::new() }
    }
}

/// What goes into the summary.
#[derive(Debug, PartialEq, Eq)]
pub struct Phase2Selection {
    /// What the summary is made of.
    pub selected: Vec<Stage1Output>,
    /// What is kept on disk: what is selected, and what was before.
    pub retained_artifacts: Vec<Stage1Output>,
    /// What was selected before and no longer is.
    pub removed: Vec<Stage1OutputRef>,
}

/// When this was last of use: when it was last used, else when it was made.
pub open spec fn anchor(o: Stage1Output) -> Timestamp {
    match o.last_usage {
        Some(t) => t,
        None => o.generated_at,
    }
}

fn anchor_of(o: &Stage1Output) -> (r: Timestamp)
    ensures
        r == anchor(*o),
{
    match o.last_usage {
        Some(t) => t,
        None => o.generated_at,
    }
}

/// The one is preferred to the other: it was used more often; else more lately;
/// else its session changed more lately.
pub open spec fn preferred(a: Stage1Output, b: Stage1Output) -> bool {
    ||| a.usage_count > b.usage_count
    ||| a.usage_count == b.usage_count && anchor(b).before(anchor(a))
    ||| a.usage_count == b.usage_count && !anchor(b).before(anchor(a)) && !anchor(a).before(
        anchor(b),
    ) && b.source_updated_at.before(a.source_updated_at)
}

/// The order of preference.
pub open spec fn by_preference() -> spec_fn(Stage1Output, Stage1Output) -> bool {
    |a: Stage1Output, b: Stage1Output| preferred(a, b)
}

/// The session of the one changed after the session of the other.
pub open spec fn by_recency() -> spec_fn(Stage1Output, Stage1Output) -> bool {
    |a: Stage1Output, b: Stage1Output| b.source_updated_at.before(a.source_updated_at)
}

fn is_preferred(a: &Stage1Output, b: &Stage1Output) -> (r: bool)
    ensures
        r == preferred(*a, *b),
{
    if a.usage_count != b.usage_count {
        return a.usage_count > b.usage_count;
    }
    let x = anchor_of(a);
    let y = anchor_of(b);
    if y.is_before(&x) {
        return true;
    }
    if x.is_before(&y) {
        return false;
    }
    b.source_updated_at.is_before(&a.source_updated_at)
}

/// What was of use within the given number of days.
pub open spec fn fresh(o: Stage1Output, max_unused_days: int, now: Timestamp) -> bool {
    within_days(now, anchor(o).view(), max_unused_days)
}

/// What is still of use, in the order of preference.
pub open spec fn candidates(
    outputs: Seq<Stage1Output>,
    max_unused_days: int,
    now: Timestamp,
) -> Seq<Stage1Output> {
    ordered(outputs.filter(|o: Stage1Output| fresh(o, max_unused_days, now)), by_preference())
}

/// The first elements of a list, at most the given number.
pub open spec fn at_most<T>(s: Seq<T>, n: int) -> Seq<T> {
    if s.len() <= n {
        s
    } else {
        s.take(n)
    }
}

/// The names of the elements.
pub open spec fn refs_of(s: Seq<Stage1Output>) -> Seq<RefView> {
    s.map_values(|o: Stage1Output| o.ref_view())
}

/// What the names say.
pub open spec fn ref_views(s: Seq<Stage1OutputRef>) -> Seq<RefView> {
    s.map_values(|r: Stage1OutputRef| r.view())
}

/// The two came from the same state of the same session.
pub open spec fn same_source(a: Stage1Output, b: Stage1Output) -> bool {
    a.session_id == b.session_id && a.source_updated_at == b.source_updated_at
}

/// The list without elements that came from the same source as the one that is
/// kept just before them.
pub open spec fn without_repeats(s: Seq<Stage1Output>) -> Seq<Stage1Output>
    decreases s.len(),
{
    if s.len() == 0 {
        s
    } else {
        let before = without_repeats(s.drop_last());
        if before.len() > 0 && same_source(before.last(), s.last()) {
            before
        } else {
            before.push(s.last())
        }
    }
}

/// What is selected.
pub open spec fn selected_of(
    outputs: Seq<Stage1Output>,
    max_raw_memories: int,
    max_unused_days: int,
    now: Timestamp,
) -> Seq<Stage1Output> {
    at_most(candidates(outputs, max_unused_days, now), max_raw_memories)
}

/// What was selected before, is still of use, and is not selected now.
pub open spec fn dropped_of(
    sorted: Seq<Stage1Output>,
    selected: Seq<RefView>,
    previous: Seq<RefView>,
) -> Seq<Stage1Output> {
    sorted.filter(
        |o: Stage1Output| previous.contains(o.ref_view()) && !selected.contains(o.ref_view()),
    )
}

/// What is kept on disk, the latest first.
pub open spec fn retained_of(
    sorted: Seq<Stage1Output>,
    selected: Seq<Stage1Output>,
    previous: Seq<RefView>,
) -> Seq<Stage1Output> {
    without_repeats(
        ordered(selected + dropped_of(sorted, refs_of(selected), previous), by_recency()),
    )
}

/// The selection made at the given time.
pub open spec fn is_selection(
    s: Phase2Selection,
    outputs: Seq<Stage1Output>,
    max_raw_memories: int,
    max_unused_days: int,
    previous: Seq<Stage1OutputRef>,
    now: Timestamp,
) -> bool {
    let sorted = candidates(outputs, max_unused_days, now);
    &&& s.selected@ == selected_of(outputs, max_raw_memories, max_unused_days, now)
    &&& s.retained_artifacts@ == retained_of(sorted, s.selected@, ref_views(previous))
    &&& s.removed@ == previous.filter(
        |r: Stage1OutputRef| !refs_of(s.selected@).contains(r.view()),
    )
}

fn insert_preferred(sorted: &mut Vec<Stage1Output>, e: Stage1Output)
    ensures
        final(sorted)@ == crate::order::placed(old(sorted)@, e, by_preference()),
{
    let ghost before = sorted@;
    let ghost lt = by_preference();
    let mut p: usize = sorted.len();
    while p > 0 && is_preferred(&e, &sorted[p - 1])
        invariant
            p <= sorted@.len(),
            before == sorted@,
            lt == by_preference(),
            forall|k: int| p <= k < sorted@.len() ==> lt(e, #[trigger] before[k]),
        decreases p,
    {
        p = p - 1;
    }
    proof {
        placed_at(before, e, lt, p as int);
    }
    sorted.insert(p, e);
}

fn insert_recent(sorted: &mut Vec<Stage1Output>, e: Stage1Output)
    ensures
        final(sorted)@ == crate::order::placed(old(sorted)@, e, by_recency()),
{
    let ghost before = sorted@;
    let ghost lt = by_recency();
    let mut p: usize = sorted.len();
    while p > 0 && sorted[p - 1].source_updated_at.is_before(&e.source_updated_at)
        invariant
            p <= sorted@.len(),
            before == sorted@,
            lt == by_recency(),
            forall|k: int| p <= k < sorted@.len() ==> lt(e, #[trigger] before[k]),
        decreases p,
    {
        p = p - 1;
    }
    proof {
        placed_at(before, e, lt, p as int);
    }
    sorted.insert(p, e);
}

fn find_candidates(outputs: &[Stage1Output], max_unused_days: i64, now: Timestamp) -> (r: Vec<
    Stage1Output,
>)
    requires
        max_unused_days <= MAX_DAYS,
    ensures
        r@ == candidates(outputs@, max_unused_days as int, now),
{
    let max_unused = nanos_of_days(max_unused_days);
    let ghost f = |o: Stage1Output| fresh(o, max_unused_days as int, now);
    let mut sorted: Vec<Stage1Output> = Vec::new();
    let mut i: usize = 0;
    assert(outputs@.take(0).filter(f) =~= Seq::empty());
    while i < outputs.len()
        invariant
            i <= outputs@.len(),
            max_unused == days_in_nanos(max_unused_days as int),
            f == (|o: Stage1Output| fresh(o, max_unused_days as int, now)),
            sorted@ == ordered(outputs@.take(i as int).filter(f), by_preference()),
        decreases outputs@.len() - i,
    {
        proof {
            reveal(Seq::filter);
            assert(outputs@.take(i + 1).drop_last() =~= outputs@.take(i as int));
            assert(outputs@.take(i + 1).last() == outputs@[i as int]);
        }
        if now.since(&anchor_of(&outputs[i])) <= max_unused {
            insert_preferred(&mut sorted, outputs[i].clone());
            proof {
                let kept = outputs@.take(i as int).filter(f);
                assert(kept.push(outputs@[i as int]).drop_last() =~= kept);
            }
        }
        i = i + 1;
    }
    assert(outputs@.take(outputs@.len() as int) =~= outputs@);
    sorted
}

fn has_ref(outputs: &Vec<Stage1Output>, r: &Stage1OutputRef) -> (b: bool)
    ensures
        b == refs_of(outputs@).contains(r.view()),
{
    let ghost all = refs_of(outputs@);
    let mut i: usize = 0;
    while i < outputs.len()
        invariant
            i <= outputs@.len(),
            all == refs_of(outputs@),
            forall|j: int| 0 <= j < i ==> #[trigger] all[j] != r.view(),
        decreases outputs@.len() - i,
    {
        if outputs[i].to_ref().same(r) {
            assert(all[i as int] == r.view());
            return true;
        }
        i = i + 1;
    }
    false
}

fn lists_ref(refs: &[Stage1OutputRef], r: &Stage1OutputRef) -> (b: bool)
    ensures
        b == ref_views(refs@).contains(r.view()),
{
    let ghost all = ref_views(refs@);
    let mut i: usize = 0;
    while i < refs.len()
        invariant
            i <= refs@.len(),
            all == ref_views(refs@),
            forall|j: int| 0 <= j < i ==> #[trigger] all[j] != r.view(),
        decreases refs@.len() - i,
    {
        if refs[i].same(r) {
            assert(all[i as int] == r.view());
            return true;
        }
        i = i + 1;
    }
    false
}

fn clone_outputs(outputs: &[Stage1Output], n: usize) -> (r: Vec<Stage1Output>)
    ensures
        r@ == at_most(outputs@, n as int),
{
    let mut out: Vec<Stage1Output> = Vec::new();
    let mut i: usize = 0;
    while i < outputs.len() && i < n
        invariant
            i <= outputs@.len(),
            i <= n,
            out@ == outputs@.take(i as int),
        decreases outputs@.len() - i,
    {
        out.push(outputs[i].clone());
        i = i + 1;
    }
    assert(outputs@.take(outputs@.len() as int) =~= outputs@);
    out
}

fn order_recent(items: Vec<Stage1Output>) -> (r: Vec<Stage1Output>)
    ensures
        r@ == ordered(items@, by_recency()),
{
    let mut sorted: Vec<Stage1Output> = Vec::new();
    let mut i: usize = 0;
    assert(items@.take(0) =~= Seq::empty());
    while i < items.len()
        invariant
            i <= items@.len(),
            sorted@ == ordered(items@.take(i as int), by_recency()),
        decreases items@.len() - i,
    {
        proof {
            assert(items@.take(i + 1).drop_last() =~= items@.take(i as int));
            assert(items@.take(i + 1).last() == items@[i as int]);
        }
        insert_recent(&mut sorted, items[i].clone());
        i = i + 1;
    }
    assert(items@.take(items@.len() as int) =~= items@);
    sorted
}

fn drop_repeats(items: Vec<Stage1Output>) -> (r: Vec<Stage1Output>)
    ensures
        r@ == without_repeats(items@),
{
    let mut out: Vec<Stage1Output> = Vec::new();
    let mut i: usize = 0;
    assert(items@.take(0) =~= Seq::empty());
    while i < items.len()
        invariant
            i <= items@.len(),
            out@ == without_repeats(items@.take(i as int)),
        decreases items@.len() - i,
    {
        proof {
            assert(items@.take(i + 1).drop_last() =~= items@.take(i as int));
            assert(items@.take(i + 1).last() == items@[i as int]);
        }
        let n: usize = out.len();
        let repeat = n > 0 && out[n - 1].session_id == items[i].session_id && out[n
            - 1].source_updated_at == items[i].source_updated_at;
        if !repeat {
            out.push(items[i].clone());
        }
        i = i + 1;
    }
    assert(items@.take(items@.len() as int) =~= items@);
    out
}

/// Selects what goes into the summary at the given time: of what was of use
/// within the given number of days the preferred elements, at most the given
/// number.
pub fn build_phase2_selection_at(
    outputs: &[Stage1Output],
    max_raw_memories: usize,
    max_unused_days: i64,
    previous_selection: &[Stage1OutputRef],
    now: Timestamp,
) -> (r: Phase2Selection)
    requires
        max_unused_days <= MAX_DAYS,
    ensures
        is_selection(
            r,
            outputs@,
            max_raw_memories as int,
            max_unused_days as int,
            previous_selection@,
            now,
        ),
{
    let sorted = find_candidates(outputs, max_unused_days, now);
    let selected = clone_outputs(sorted.as_slice(), max_raw_memories);
    let ghost previous = ref_views(previous_selection@);
    let ghost chosen = refs_of(selected@);
    let ghost f = |o: Stage1Output|
        previous.contains(o.ref_view()) && !chosen.contains(o.ref_view());
    let mut retained: Vec<Stage1Output> = clone_outputs(selected.as_slice(), selected.len());
    let mut i: usize = 0;
    assert(selected@ + sorted@.take(0).filter(f) =~= selected@);
    while i < sorted.len()
        invariant
            i <= sorted@.len(),
            previous == ref_views(previous_selection@),
            chosen == refs_of(selected@),
            f == (|o: Stage1Output|
                previous.contains(o.ref_view()) && !chosen.contains(o.ref_view())),
            retained@ == selected@ + sorted@.take(i as int).filter(f),
        decreases sorted@.len() - i,
    {
        proof {
            reveal(Seq::filter);
            assert(sorted@.take(i + 1).drop_last() =~= sorted@.take(i as int));
            assert(sorted@.take(i + 1).last() == sorted@[i as int]);
        }
        let r = sorted[i].to_ref();
        if lists_ref(previous_selection, &r) && !has_ref(&selected, &r) {
            retained.push(sorted[i].clone());
            assert(retained@ =~= selected@ + sorted@.take(i as int).filter(f).push(
                sorted@[i as int],
            ));
        }
        i = i + 1;
    }
    assert(sorted@.take(sorted@.len() as int) =~= sorted@);
    let retained_artifacts = drop_repeats(order_recent(retained));

    let ghost g = |r: Stage1OutputRef| !chosen.contains(r.view());
    let mut removed: Vec<Stage1OutputRef> = Vec::new();
    let mut k: usize = 0;
    assert(previous_selection@.take(0).filter(g) =~= Seq::empty());
    while k < previous_selection.len()
        invariant
            k <= previous_selection@.len(),
            chosen == refs_of(selected@),
            g == (|r: Stage1OutputRef| !chosen.contains(r.view())),
            removed@ == previous_selection@.take(k as int).filter(g),
        decreases previous_selection@.len() - k,
    {
        proof {
            reveal(Seq::filter);
            assert(previous_selection@.take(k + 1).drop_last() =~= previous_selection@.take(
                k as int,
            ));
            assert(previous_selection@.take(k + 1).last() == previous_selection@[k as int]);
        }
        if !has_ref(&selected, &previous_selection[k]) {
            removed.push(previous_selection[k].clone());
        }
        k = k + 1;
    }
    assert(previous_selection@.take(previous_selection@.len() as int) =~= previous_selection@);
    Phase2Selection { selected, retained_artifacts, removed }
}

/// Selects what goes into the summary by now.
pub fn build_phase2_selection(
    outputs: &[Stage1Output],
    max_raw_memories: usize,
    max_unused_days: i64,
    previous_selection: &[Stage1OutputRef],
) -> (r: Phase2Selection)
    requires
        max_unused_days <= MAX_DAYS,
    ensures
        exists|now: Timestamp|
            #[trigger] is_selection(
                r,
                outputs@,
                max_raw_memories as int,
                max_unused_days as int,
                previous_selection@,
                now,
            ),
{
    let now = Timestamp::now();
    build_phase2_selection_at(outputs, max_raw_memories, max_unused_days, previous_selection, now)
}

/// The latest time at which a session of the list changed.
pub open spec fn latest_source(s: Seq<Stage1Output>) -> Option<Timestamp>
    decreases s.len(),
{
    if s.len() == 0 {
        None
    } else {
        later(latest_source(s.drop_last()), Some(s.last().source_updated_at))
    }
}

/// What follows a selection.
#[derive(Debug, PartialEq, Eq, Clone, Copy, Structural)]
pub enum Phase2Step {
    /// Nothing is left to sum up: the summary goes.
    RemoveSummary,
    /// The summary is made anew.
    Consolidate,
}

impl Phase2State {
    /// What follows a selection. Where nothing is selected, nothing of the last
    /// summary is remembered.
    pub fn begin(&mut self, selection: &Phase2Selection) -> (step: Phase2Step)
        ensures
            step == (if selection.selected@.len() == 0 {
                Phase2Step::RemoveSummary
            } else {
                Phase2Step::Consolidate
            }),
            step == Phase2Step::RemoveSummary ==> final(self).selected@.len() == 0
                && final(self).completion_watermark is None,
            step == Phase2Step::Consolidate ==> *final(self) == *old(self),
    {
        if selection.selected.len() == 0 {
            self.selected = Vec::new();
            self.completion_watermark = None;
            Phase2Step::RemoveSummary
        } else {
            Phase2Step::Consolidate
        }
    }

    /// Remembers what the summary was made of.
    pub fn complete(&mut self, selection: &Phase2Selection)
        ensures
            ref_views(final(self).selected@) == refs_of(selection.selected@),
            final(self).completion_watermark == latest_source(selection.selected@),
    {
        let mut refs: Vec<Stage1OutputRef> = Vec::new();
        let mut latest: Option<Timestamp> = None;
        let mut i: usize = 0;
        let ghost all = selection.selected@;
        assert(all.take(0) =~= Seq::empty());
        while i < selection.selected.len()
            invariant
                i <= selection.selected@.len(),
                all == selection.selected@,
                ref_views(refs@) =~= refs_of(all.take(i as int)),
                latest == latest_source(all.take(i as int)),
            decreases selection.selected@.len() - i,
        {
            proof {
                assert(all.take(i + 1).drop_last() =~= all.take(i as int));
                assert(all.take(i + 1).last() == all[i as int]);
            }
            let ghost before = ref_views(refs@);
            let r = selection.selected[i].to_ref();
            refs.push(r);
            assert(ref_views(refs@) =~= before.push(all[i as int].ref_view()));
            assert(refs_of(all.take(i + 1)) =~= refs_of(all.take(i as int)).push(
                all[i as int].ref_view(),
            ));
            latest =
            max_optional_datetime(latest, Some(selection.selected[i].source_updated_at));
            i = i + 1;
        }
        assert(all.take(all.len() as int) =~= all);
        self.selected = refs;
        self.completion_watermark = latest;
    }
}

} // verus!
