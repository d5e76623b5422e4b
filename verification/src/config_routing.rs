//! Which models work on their own, how much each reasons, and how that is read
//! from what the user wrote.

use crate::json::{JsonValue, JsonView};
use crate::protocol::ReasoningEffort;
use crate::text::{
    ascii_lower, ascii_lower_text, starts, starts_with, str_eq, to_ascii_lowercase, trim,
    trim_text, trim_text_edges,
};
use vstd::prelude::*;

verus! {

/// A model that may be chosen for a task, as the user wrote it down.
#[derive(Debug, PartialEq, Eq)]
pub struct AutoDriveModelRoutingEntry {
    pub model: String,
    pub enabled: bool,
    pub reasoning_levels: Vec<ReasoningEffort>,
    pub description: String,
}

/// What an entry says.
pub struct EntryView {
    pub model: Seq<char>,
    pub enabled: bool,
    pub levels: Seq<ReasoningEffort>,
    pub description: Seq<char>,
}

impl AutoDriveModelRoutingEntry {
    /// What the entry says.
    pub open spec fn view(&self) -> EntryView {
        EntryView {
            model: self.model@,
            enabled: self.enabled,
            levels: self.reasoning_levels@,
            description: self.description@,
        }
    }
}

/// What the entries say.
pub open spec fn entry_views(entries: Seq<AutoDriveModelRoutingEntry>) -> Seq<EntryView> {
    entries.map_values(|e: AutoDriveModelRoutingEntry| e.view())
}

/// The levels that may be asked for, the least first.
pub open spec fn all_levels() -> Seq<ReasoningEffort> {
    seq![
        ReasoningEffort::Minimal,
        ReasoningEffort::Low,
        ReasoningEffort::Medium,
        ReasoningEffort::High,
        ReasoningEffort::XHigh,
    ]
}

/// The levels in their order, each once.
pub open spec fn ordered_levels(levels: Seq<ReasoningEffort>) -> Seq<ReasoningEffort> {
    all_levels().filter(|l: ReasoningEffort| levels.contains(l))
}

fn has_level(levels: &Vec<ReasoningEffort>, level: ReasoningEffort) -> (r: bool)
    ensures
        r == levels@.contains(level),
{
    let mut i: usize = 0;
    while i < levels.len()
        invariant
            i <= levels.len(),
            forall|j: int| 0 <= j < i ==> levels@[j] != level,
        decreases levels.len() - i,
    {
        if levels[i] == level {
            assert(levels@[i as int] == level);
            return true;
        }
        i = i + 1;
    }
    false
}

/// The levels in their order, each once.
pub fn normalize_auto_drive_routing_reasoning_levels(levels: &Vec<ReasoningEffort>) -> (r: Vec<
    ReasoningEffort,
>)
    ensures
        r@ == ordered_levels(levels@),
{
    let all: [ReasoningEffort; 5] = [
        ReasoningEffort::Minimal,
        ReasoningEffort::Low,
        ReasoningEffort::Medium,
        ReasoningEffort::High,
        ReasoningEffort::XHigh,
    ];
    let ghost keep = |l: ReasoningEffort| levels@.contains(l);
    let mut out: Vec<ReasoningEffort> = Vec::new();
    let mut i: usize = 0;
    assert(all@ =~= all_levels());
    reveal(Seq::filter);
    while i < 5
        invariant
            i <= 5,
            all@ == all_levels(),
            keep == (|l: ReasoningEffort| levels@.contains(l)),
            out@ == all@.take(i as int).filter(keep),
        decreases 5 - i,
    {
        reveal(Seq::filter);
        assert(all@.take(i + 1).drop_last() =~= all@.take(i as int));
        if has_level(levels, all[i]) {
            out.push(all[i]);
        }
        i = i + 1;
    }
    assert(all@.take(5) =~= all@);
    out
}

/// The model's name in lower case and without white space around it, if it is a
/// name of the family that may be chosen.
pub open spec fn routed_model(model: Seq<char>) -> Option<Seq<char>> {
    let name = ascii_lower_text(trim_text(model));
    if trim_text(model).len() > 0 && starts(name, "gpt-"@) {
        Some(name)
    } else {
        None
    }
}

/// The model's name in lower case and without white space around it, if it is a
/// name of the family that may be chosen.
pub fn normalize_auto_drive_routing_model(model: &str) -> (r: Option<String>)
    ensures
        match r {
            Some(name) => routed_model(model@) == Some(name@),
            None => routed_model(model@) is None,
        },
{
    let trimmed: String = trim(model);
    if trimmed.as_str().unicode_len() == 0 {
        return None;
    }
    let name: String = to_ascii_lowercase(trimmed.as_str());
    if !starts_with(name.as_str(), "gpt-") {
        return None;
    }
    Some(name)
}

/// What is kept of an entry: its model's name and its levels put in form, if any
/// are left.
pub open spec fn routed_entry(e: EntryView) -> Option<EntryView> {
    if routed_model(e.model) is Some && ordered_levels(e.levels).len() > 0 {
        Some(
            EntryView {
                model: routed_model(e.model)->0,
                enabled: e.enabled,
                levels: ordered_levels(e.levels),
                description: trim_text(e.description),
            },
        )
    } else {
        None
    }
}

/// What is kept of the entries, in their order.
pub open spec fn routed(entries: Seq<EntryView>) -> Seq<EntryView>
    decreases entries.len(),
{
    if entries.len() == 0 {
        Seq::empty()
    } else {
        let before = routed(entries.drop_last());
        match routed_entry(entries.last()) {
            Some(e) => before.push(e),
            None => before,
        }
    }
}

/// Puts the entries in form and drops those of which nothing is left.
pub fn sanitize_auto_drive_routing_entries(entries: &mut Vec<AutoDriveModelRoutingEntry>)
    ensures
        entry_views(final(entries)@) == routed(entry_views(old(entries)@)),
{
    let mut out: Vec<AutoDriveModelRoutingEntry> = Vec::new();
    let mut i: usize = 0;
    let ghost all = entry_views(entries@);
    assert(entry_views(out@) =~= routed(all.take(0)));
    while i < entries.len()
        invariant
            i <= entries.len(),
            all == entry_views(entries@),
            entry_views(out@) == routed(all.take(i as int)),
        decreases entries.len() - i,
    {
        proof {
            assert(all.take(i + 1).drop_last() =~= all.take(i as int));
            assert(all.take(i + 1).last() == entries@[i as int].view());
        }
        let ghost before = out@;
        if let Some(model) = normalize_auto_drive_routing_model(entries[i].model.as_str()) {
            let levels: Vec<ReasoningEffort> = normalize_auto_drive_routing_reasoning_levels(
                &entries[i].reasoning_levels,
            );
            if levels.len() > 0 {
                out.push(
                    AutoDriveModelRoutingEntry {
                        model,
                        enabled: entries[i].enabled,
                        reasoning_levels: levels,
                        description: trim(entries[i].description.as_str()),
                    },
                );
                assert(entry_views(out@) =~= entry_views(before).push(out@.last().view()));
            }
        }
        i = i + 1;
    }
    assert(all.take(i as int) =~= all);
    *entries = out;
}

/// How much a model reasons when asked for a level that it does not have.
#[derive(Debug, PartialEq, Eq)]
pub struct EffortRule {
    pub model: String,
    pub asked: ReasoningEffort,
    pub granted: ReasoningEffort,
}

/// How much each model reasons: by the first rule that speaks of it, else as much as
/// is asked.
#[derive(Debug, PartialEq, Eq)]
pub struct EffortLimits {
    pub rules: Vec<EffortRule>,
}

/// How much the model reasons when asked for this.
pub open spec fn granted(
    rules: Seq<EffortRule>,
    model: Seq<char>,
    asked: ReasoningEffort,
) -> ReasoningEffort
    decreases rules.len(),
{
    if rules.len() == 0 {
        asked
    } else if rules[0].model@ == model && rules[0].asked == asked {
        rules[0].granted
    } else {
        granted(rules.drop_first(), model, asked)
    }
}

impl EffortLimits {
    /// How much the model reasons when asked for this.
    pub open spec fn spec_clamp(self, model: Seq<char>, asked: ReasoningEffort) -> ReasoningEffort {
        granted(self.rules@, model, asked)
    }

    /// How much the model reasons when asked for this.
    pub fn clamp(&self, model: &str, asked: ReasoningEffort) -> (r: ReasoningEffort)
        ensures
            r == self.spec_clamp(model@, asked),
    {
        let mut i: usize = 0;
        assert(self.rules@.skip(0) =~= self.rules@);
        while i < self.rules.len()
            invariant
                i <= self.rules.len(),
                granted(self.rules@, model@, asked) == granted(
                    self.rules@.skip(i as int),
                    model@,
                    asked,
                ),
            decreases self.rules.len() - i,
        {
            assert(self.rules@.skip(i as int).drop_first() =~= self.rules@.skip(i + 1));
            if str_eq(self.rules[i].model.as_str(), model) && self.rules[i].asked == asked {
                return self.rules[i].granted;
            }
            i = i + 1;
        }
        asked
    }
}

/// How this program works on its own.
#[derive(Debug, PartialEq)]
pub struct AutoDriveSettings {
    pub model: String,
    pub model_reasoning_effort: ReasoningEffort,
    /// Another model may be chosen for a task.
    pub model_routing_enabled: bool,
    pub model_routing_entries: Vec<AutoDriveModelRoutingEntry>,
    /// What else the user wrote there.
    pub other: JsonValue,
}

/// What the settings say.
pub struct AutoDriveView {
    pub model: Seq<char>,
    pub model_reasoning_effort: ReasoningEffort,
    pub model_routing_enabled: bool,
    pub model_routing_entries: Seq<EntryView>,
    pub other: JsonView,
}

impl AutoDriveSettings {
    /// What the settings say.
    pub open spec fn view(&self) -> AutoDriveView {
        AutoDriveView {
            model: self.model@,
            model_reasoning_effort: self.model_reasoning_effort,
            model_routing_enabled: self.model_routing_enabled,
            model_routing_entries: entry_views(self.model_routing_entries@),
            other: self.other.view(),
        }
    }
}

impl Clone for AutoDriveModelRoutingEntry {
    fn clone(&self) -> (r: Self)
        ensures
            r.view() == self.view(),
    {
        let mut levels: Vec<ReasoningEffort> = Vec::new();
        let mut i: usize = 0;
        while i < self.reasoning_levels.len()
            invariant
                i <= self.reasoning_levels.len(),
                levels@ =~= self.reasoning_levels@.take(i as int),
            decreases self.reasoning_levels.len() - i,
        {
            levels.push(self.reasoning_levels[i]);
            i = i + 1;
        }
        assert(levels@ =~= self.reasoning_levels@);
        AutoDriveModelRoutingEntry {
            model: self.model.clone(),
            enabled: self.enabled,
            reasoning_levels: levels,
            description: self.description.clone(),
        }
    }
}

impl Clone for AutoDriveSettings {
    fn clone(&self) -> (r: Self)
        ensures
            r.view() == self.view(),
    {
        let ghost all = entry_views(self.model_routing_entries@);
        let mut entries: Vec<AutoDriveModelRoutingEntry> = Vec::new();
        let mut i: usize = 0;
        while i < self.model_routing_entries.len()
            invariant
                i <= self.model_routing_entries.len(),
                all == entry_views(self.model_routing_entries@),
                entry_views(entries@) =~= all.take(i as int),
            decreases self.model_routing_entries.len() - i,
        {
            let ghost before = entries@;
            let entry: AutoDriveModelRoutingEntry = self.model_routing_entries[i].clone();
            entries.push(entry);
            assert(entry_views(entries@) =~= entry_views(before).push(all[i as int]));
            i = i + 1;
        }
        assert(entry_views(entries@) =~= all);
        AutoDriveSettings {
            model: self.model.clone(),
            model_reasoning_effort: self.model_reasoning_effort,
            model_routing_enabled: self.model_routing_enabled,
            model_routing_entries: entries,
            other: self.other.clone(),
        }
    }
}

/// One of the entries is in use.
pub open spec fn any_enabled(entries: Seq<EntryView>) -> bool {
    exists|i: int| 0 <= i < entries.len() && (#[trigger] entries[i]).enabled
}

/// The entries that are used: what is kept of those that were written, else the
/// usual ones; and the first of them is in use, where some must be and none is.
pub open spec fn settled_entries(
    written: Seq<EntryView>,
    usual: Seq<EntryView>,
    routing: bool,
) -> Seq<EntryView> {
    let kept = if routed(written).len() > 0 {
        routed(written)
    } else {
        usual
    };
    if routing && kept.len() > 0 && !any_enabled(kept) {
        kept.update(0, EntryView { enabled: true, ..kept[0] })
    } else {
        kept
    }
}

fn some_enabled(entries: &Vec<AutoDriveModelRoutingEntry>) -> (r: bool)
    ensures
        r == any_enabled(entry_views(entries@)),
{
    let ghost views = entry_views(entries@);
    let mut i: usize = 0;
    while i < entries.len()
        invariant
            i <= entries.len(),
            views == entry_views(entries@),
            forall|j: int| 0 <= j < i ==> !(#[trigger] views[j]).enabled,
        decreases entries.len() - i,
    {
        if entries[i].enabled {
            assert(views[i as int].enabled);
            return true;
        }
        i = i + 1;
    }
    false
}

fn settle_entries(
    written: Vec<AutoDriveModelRoutingEntry>,
    usual: Vec<AutoDriveModelRoutingEntry>,
    routing: bool,
) -> (r: Vec<AutoDriveModelRoutingEntry>)
    ensures
        entry_views(r@) == settled_entries(entry_views(written@), entry_views(usual@), routing),
{
    let mut entries: Vec<AutoDriveModelRoutingEntry> = written;
    sanitize_auto_drive_routing_entries(&mut entries);
    if entries.len() == 0 {
        entries = usual;
    }
    if routing && entries.len() > 0 && !some_enabled(&entries) {
        let ghost kept = entry_views(entries@);
        let mut first: AutoDriveModelRoutingEntry = entries.remove(0);
        first.enabled = true;
        entries.insert(0, first);
        assert(entry_views(entries@) =~= kept.update(
            0,
            EntryView { enabled: true, ..kept[0] },
        ));
    }
    entries
}

/// How this program works on its own, once the models are known.
pub open spec fn settled(
    chosen: AutoDriveView,
    usual: Seq<EntryView>,
    use_chat_model: bool,
    chat_model: Seq<char>,
    chat_effort: ReasoningEffort,
    limits: EffortLimits,
) -> AutoDriveView {
    let model = if use_chat_model {
        chat_model
    } else {
        chosen.model
    };
    let asked = if use_chat_model {
        chat_effort
    } else {
        chosen.model_reasoning_effort
    };
    AutoDriveView {
        model,
        model_reasoning_effort: limits.spec_clamp(model, asked),
        model_routing_enabled: chosen.model_routing_enabled,
        model_routing_entries: settled_entries(
            chosen.model_routing_entries,
            usual,
            chosen.model_routing_enabled,
        ),
        other: chosen.other,
    }
}

/// How this program works on its own, once the models are known.
pub fn settle_auto_drive(
    chosen: AutoDriveSettings,
    usual: Vec<AutoDriveModelRoutingEntry>,
    use_chat_model: bool,
    chat_model: &str,
    chat_effort: ReasoningEffort,
    limits: &EffortLimits,
) -> (r: AutoDriveSettings)
    ensures
        r.view() == settled(
            chosen.view(),
            entry_views(usual@),
            use_chat_model,
            chat_model@,
            chat_effort,
            *limits,
        ),
{
    let model: String = if use_chat_model {
        chat_model.to_string()
    } else {
        chosen.model
    };
    let asked: ReasoningEffort = if use_chat_model {
        chat_effort
    } else {
        chosen.model_reasoning_effort
    };
    let effort: ReasoningEffort = limits.clamp(model.as_str(), asked);
    AutoDriveSettings {
        model,
        model_reasoning_effort: effort,
        model_routing_enabled: chosen.model_routing_enabled,
        model_routing_entries: settle_entries(
            chosen.model_routing_entries,
            usual,
            chosen.model_routing_enabled,
        ),
        other: chosen.other,
    }
}

// ---------------------------------------------------------------------------
// What holds of all entries

/// Names and texts that are in form stay as they are.
proof fn form_of_names(model: Seq<char>)
    requires
        routed_model(model) is Some,
    ensures
        routed_model(routed_model(model)->0) == routed_model(model),
{
    let t = trim_text(model);
    let name = ascii_lower_text(t);
    trim_text_edges(model);
    assert(name[0] == ascii_lower(t[0]));
    assert(name.last() == ascii_lower(t.last()));
    assert(trim_text(name) == name);
    assert(ascii_lower_text(name) =~= name) by {
        assert forall|i: int| 0 <= i < name.len() implies ascii_lower_text(name)[i] == name[i] by {
            assert(name[i] == ascii_lower(t[i]));
        }
    }
}

/// The levels in their order hold what was asked for, and no more.
proof fn levels_of(levels: Seq<ReasoningEffort>)
    ensures
        forall|l: ReasoningEffort|
            all_levels().contains(l) ==> (#[trigger] ordered_levels(levels).contains(l)
                <==> levels.contains(l)),
        ordered_levels(ordered_levels(levels)) == ordered_levels(levels),
{
    broadcast use {vstd::seq_lib::group_seq_properties, vstd::seq_lib::group_filter_ensures};

    let f = |l: ReasoningEffort| levels.contains(l);
    let g = |l: ReasoningEffort| ordered_levels(levels).contains(l);
    let all = all_levels();
    assert forall|l: ReasoningEffort| all.contains(l) implies (#[trigger] ordered_levels(
        levels,
    ).contains(l) <==> levels.contains(l)) by {
        let i = choose|i: int| 0 <= i < all.len() && all[i] == l;
        if levels.contains(l) {
            assert(f(all[i]));
        }
    }
    same_filter(all, f, g);
}

proof fn same_filter<T>(s: Seq<T>, f: spec_fn(T) -> bool, g: spec_fn(T) -> bool)
    requires
        forall|x: T| s.contains(x) ==> #[trigger] f(x) == #[trigger] g(x),
    ensures
        s.filter(f) == s.filter(g),
    decreases s.len(),
{
    reveal(Seq::filter);
    if s.len() > 0 {
        let t = s.drop_last();
        assert forall|x: T| t.contains(x) implies #[trigger] f(x) == #[trigger] g(x) by {
            let i = choose|i: int| 0 <= i < t.len() && t[i] == x;
            assert(s[i] == x);
            assert(s.contains(x));
        }
        same_filter(t, f, g);
        assert(s.contains(s.last()));
        assert(f(s.last()) == g(s.last()));
    }
}

/// What is kept of what was kept is all of it.
pub proof fn kept_entries_stay(entries: Seq<EntryView>)
    ensures
        routed(routed(entries)) == routed(entries),
    decreases entries.len(),
{
    if entries.len() > 0 {
        kept_entries_stay(entries.drop_last());
        let last = entries.last();
        if let Some(e) = routed_entry(last) {
            form_of_names(last.model);
            levels_of(last.levels);
            crate::text::trim_text_idempotent(last.description);
            assert(routed_entry(e) == Some(e));
            let before = routed(entries.drop_last());
            assert(before.push(e).drop_last() =~= before);
            assert(before.push(e).last() == e);
        }
    }
}

/// Each entry that is kept names a model of the family, in lower case and without
/// white space around it, and has a level.
pub proof fn kept_entries_are_in_form(entries: Seq<EntryView>, i: int)
    requires
        0 <= i < routed(entries).len(),
    ensures
        starts(routed(entries)[i].model, "gpt-"@),
        trim_text(routed(entries)[i].model) == routed(entries)[i].model,
        ascii_lower_text(routed(entries)[i].model) == routed(entries)[i].model,
        routed(entries)[i].levels.len() > 0,
        ordered_levels(routed(entries)[i].levels) == routed(entries)[i].levels,
        trim_text(routed(entries)[i].description) == routed(entries)[i].description,
    decreases entries.len(),
{
    let before = routed(entries.drop_last());
    if i < before.len() {
        kept_entries_are_in_form(entries.drop_last(), i);
    } else {
        let last = entries.last();
        form_of_names(last.model);
        levels_of(last.levels);
        crate::text::trim_text_idempotent(last.description);
        let t = trim_text(last.model);
        let name = ascii_lower_text(t);
        trim_text_edges(last.model);
        assert(name[0] == ascii_lower(t[0]));
        assert(name.last() == ascii_lower(t.last()));
        assert(trim_text(name) == name);
    }
}

/// Where a model may be chosen for a task, one of the entries is in use, as long as
/// there are usual ones to fall back to.
pub proof fn one_entry_is_in_use(written: Seq<EntryView>, usual: Seq<EntryView>)
    requires
        usual.len() > 0,
    ensures
        any_enabled(settled_entries(written, usual, true)),
{
    let kept = if routed(written).len() > 0 {
        routed(written)
    } else {
        usual
    };
    let out = settled_entries(written, usual, true);
    if !any_enabled(kept) {
        assert(out[0].enabled);
    }
}

} // verus!
