//! What models are asked when memories are made, and what becomes of their
//! answers.

use crate::ids::{format_id, id_text};
use crate::json::{json_object, json_put, json_str, json_strings, strings_view, JsonValue, JsonView};
use crate::memory_items::{
    any_line_uses_mcp_or_web_search, any_outside, first_failure, line_texts, relevant_lines,
    serialize_memory_relevant_rollout, ContentItem, ResponseItem, RolloutLine,
};
use crate::memory_select::Phase2Selection;
use crate::memory_store::{
    EligibleEntry, MemoriesConfig, SessionIndexEntry, Stage1Output, Stage1OutputRef,
};
use crate::protocol::ModelFamily;
use crate::schema::typed_object;
use crate::text::{
    concat, flat, join, joined, opt_text, part_texts, replace, replaced, texts, trim, trim_text,
};
use crate::time::{rfc3339_text, Timestamp};
use vstd::prelude::*;

verus! {

broadcast use vstd::seq_lib::group_seq_properties;

/// How much of the summary a model is shown, in tokens.
pub const MAX_MEMORY_PROMPT_TOKENS: usize = 5_000;

/// How many bytes a token is taken to have.
pub const BYTES_PER_TOKEN: usize = 4;

/// The summary as far as there is one: its text without the white space around
/// it, unless nothing is left.
pub fn memory_summary_to_show(summary: &str) -> (r: Option<String>)
    ensures
        match r {
            Some(t) => t@ == trim_text(summary@) && t@.len() > 0,
            None => trim_text(summary@).len() == 0,
        },
{
    let t = trim(summary);
    if t.as_str().is_empty() {
        None
    } else {
        Some(t)
    }
}

/// The instructions that show the summary, cut to size, to a model. There are
/// none where nothing of it is left.
pub fn build_memory_tool_developer_instructions(
    template: &str,
    base_path: &str,
    truncated_summary: &str,
) -> (r: Option<String>)
    ensures
        match r {
            Some(t) => trim_text(truncated_summary@).len() > 0 && t@ == replaced(
                replaced(template@, "{{ base_path }}"@, base_path@),
                "{{ memory_summary }}"@,
                trim_text(truncated_summary@),
            ),
            None => trim_text(truncated_summary@).len() == 0,
        },
{
    let shown = trim(truncated_summary);
    if shown.as_str().is_empty() {
        return None;
    }
    proof {
        reveal_strlit("{{ base_path }}");
        reveal_strlit("{{ memory_summary }}");
        assert("{{ base_path }}"@.len() == 15);
        assert("{{ memory_summary }}"@.len() == 20);
    }
    let with_path = replace(template, "{{ base_path }}", base_path);
    Some(replace(with_path.as_str(), "{{ memory_summary }}", shown.as_str()))
}

/// The model that learns from a session, unless another one is set.
pub const DEFAULT_STAGE_ONE_MODEL: &'static str = "gpt-5.1-codex-mini";

/// The model that makes the summary, unless another one is set.
pub const DEFAULT_STAGE_TWO_MODEL: &'static str = "gpt-5.3-codex";

/// How much of a recording a model is shown, in tokens, where its context is not
/// known.
pub const DEFAULT_STAGE_ONE_ROLLOUT_TOKEN_LIMIT: usize = 150_000;

/// How much of the context of a model a recording may take.
pub const CONTEXT_WINDOW_PERCENT: u64 = 70;

/// How much of one memory goes into the summary, in bytes.
pub const PHASE2_ENTRY_SNIPPET_BYTES: usize = 12_000;

/// How much of all memories goes into the summary, in bytes.
pub const PHASE2_SELECTED_PAYLOAD_BYTES: usize = 80_000;

/// The model that is set, else the given one.
pub open spec fn model_or(set: Option<String>, default: Seq<char>) -> Seq<char> {
    match set {
        Some(m) => m@,
        None => default,
    }
}

/// The model that learns from a session.
pub fn stage_one_model(config: &MemoriesConfig) -> (r: String)
    ensures
        r@ == model_or(config.phase_1_model, DEFAULT_STAGE_ONE_MODEL@),
{
    match &config.phase_1_model {
        Some(m) => m.clone(),
        None => DEFAULT_STAGE_ONE_MODEL.to_string(),
    }
}

/// The model that makes the summary.
pub fn stage_two_model(config: &MemoriesConfig) -> (r: String)
    ensures
        r@ == model_or(config.phase_2_model, DEFAULT_STAGE_TWO_MODEL@),
{
    match &config.phase_2_model {
        Some(m) => m.clone(),
        None => DEFAULT_STAGE_TWO_MODEL.to_string(),
    }
}

/// The smaller of two numbers.
pub open spec fn smaller(a: int, b: int) -> int {
    if a <= b {
        a
    } else {
        b
    }
}

/// How much of a recording a model is shown, in tokens: its share of the context,
/// at least one. Where the context is not known, or its share cannot be counted,
/// a fixed number.
pub open spec fn rollout_token_limit_of(context_window: Option<u64>) -> int {
    match context_window {
        Some(limit) => {
            let share = smaller(limit * CONTEXT_WINDOW_PERCENT, u64::MAX as int) / 100;
            let tokens = if share >= 1 {
                share
            } else {
                1
            };
            if tokens <= usize::MAX {
                tokens
            } else {
                DEFAULT_STAGE_ONE_ROLLOUT_TOKEN_LIMIT as int
            }
        },
        None => DEFAULT_STAGE_ONE_ROLLOUT_TOKEN_LIMIT as int,
    }
}

/// How much of a recording a model is shown, in tokens.
pub fn rollout_token_limit(context_window: Option<u64>) -> (r: usize)
    ensures
        r == rollout_token_limit_of(context_window),
{
    match context_window {
        Some(limit) => {
            let product: u64 = if limit > u64::MAX / CONTEXT_WINDOW_PERCENT {
                u64::MAX
            } else {
                limit * CONTEXT_WINDOW_PERCENT
            };
            let share: u64 = product / 100;
            let tokens: u64 = if share >= 1 {
                share
            } else {
                1
            };
            if tokens <= usize::MAX as u64 {
                tokens as usize
            } else {
                DEFAULT_STAGE_ONE_ROLLOUT_TOKEN_LIMIT
            }
        },
        None => DEFAULT_STAGE_ONE_ROLLOUT_TOKEN_LIMIT,
    }
}

/// How much of a recording a model is shown, in bytes.
pub fn rollout_byte_limit(context_window: Option<u64>) -> (r: usize)
    ensures
        r == smaller(rollout_token_limit_of(context_window) * BYTES_PER_TOKEN, usize::MAX as int),
{
    let tokens = rollout_token_limit(context_window);
    if tokens > usize::MAX / BYTES_PER_TOKEN {
        usize::MAX
    } else {
        tokens * BYTES_PER_TOKEN
    }
}

/// The parts of what a model is asked about a session.
pub open spec fn stage1_prompt_parts(e: EligibleEntry, rollout: Seq<char>) -> Seq<Seq<char>> {
    seq![
        "rollout_path: "@,
        e.rollout_path@,
        "\nrollout_cwd: "@,
        e.cwd@,
        "\ngit_branch: "@,
        match e.git_branch {
            Some(b) => b@,
            None => "(none)"@,
        },
        "\nupdated_at: "@,
        rfc3339_text(e.source_updated_at.spec_secs(), e.source_updated_at.spec_nanos()),
        "\n\nRollout:\n"@,
        rollout,
    ]
}

/// Asks a model about a session, with the recording cut to size.
pub fn build_stage1_user_prompt(entry: &EligibleEntry, truncated_rollout_contents: &str) -> (r: String)
    ensures
        r@ == flat(stage1_prompt_parts(*entry, truncated_rollout_contents@)),
{
    let branch = match &entry.git_branch {
        Some(b) => b.clone(),
        None => "(none)".to_string(),
    };
    let updated_at = entry.source_updated_at.to_rfc3339();
    let parts: [&str; 10] = [
        "rollout_path: ",
        entry.rollout_path.as_str(),
        "\nrollout_cwd: ",
        entry.cwd.as_str(),
        "\ngit_branch: ",
        branch.as_str(),
        "\nupdated_at: ",
        updated_at.as_str(),
        "\n\nRollout:\n",
        truncated_rollout_contents,
    ];
    assert(part_texts(parts@) =~= stage1_prompt_parts(*entry, truncated_rollout_contents@));
    concat(&parts)
}

/// Some name in the list is of the given session.
pub open spec fn names_session(refs: Seq<Stage1OutputRef>, id: u128) -> bool {
    exists|i: int| 0 <= i < refs.len() && (#[trigger] refs[i]).session_id == id
}

fn ref_names_session(refs: &Vec<Stage1OutputRef>, id: u128) -> (r: bool)
    ensures
        r == names_session(refs@, id),
{
    let mut i: usize = 0;
    while i < refs.len()
        invariant
            i <= refs@.len(),
            forall|j: int| 0 <= j < i ==> (#[trigger] refs@[j]).session_id != id,
        decreases refs@.len() - i,
    {
        if refs[i].session_id == id {
            return true;
        }
        i = i + 1;
    }
    false
}

/// The parts of the line about a selected memory. `stem` is the name of its file.
pub open spec fn selected_line(
    o: Stage1Output,
    removed: Seq<Stage1OutputRef>,
    stem: Seq<char>,
) -> Seq<Seq<char>> {
    seq![
        "- ["@,
        if names_session(removed, o.session_id) {
            "retained"@
        } else {
            "selected"@
        },
        "] session_id="@,
        id_text(o.session_id),
        ", rollout_summary_file=rollout_summaries/"@,
        stem,
        ".md"@,
    ]
}

/// The lines about the selected memories.
pub open spec fn selected_lines(s: Phase2Selection, stems: Seq<String>) -> Seq<Seq<char>> {
    Seq::new(
        s.selected@.len(),
        |i: int| flat(selected_line(s.selected@[i], s.removed@, stems[i]@)),
    )
}

fn make_selected_lines(s: &Phase2Selection, stems: &Vec<String>) -> (r: String)
    requires
        stems@.len() == s.selected@.len(),
    ensures
        r@ == joined(selected_lines(*s, stems@), "\n"@),
{
    let mut lines: Vec<String> = Vec::new();
    let mut i: usize = 0;
    let ghost want = selected_lines(*s, stems@);
    while i < s.selected.len()
        invariant
            i <= s.selected@.len(),
            stems@.len() == s.selected@.len(),
            want == selected_lines(*s, stems@),
            texts(lines@) =~= want.take(i as int),
        decreases s.selected@.len() - i,
    {
        let o = &s.selected[i];
        let label = if ref_names_session(&s.removed, o.session_id) {
            "retained"
        } else {
            "selected"
        };
        let id = format_id(o.session_id);
        let parts: [&str; 7] = [
            "- [",
            label,
            "] session_id=",
            id.as_str(),
            ", rollout_summary_file=rollout_summaries/",
            stems[i].as_str(),
            ".md",
        ];
        let ghost before = texts(lines@);
        let line = concat(&parts);
        proof {
            assert(part_texts(parts@) =~= selected_line(*o, s.removed@, stems@[i as int]@));
            assert(line@ == want[i as int]);
        }
        lines.push(line);
        assert(texts(lines@) =~= before.push(want[i as int]));
        i = i + 1;
    }
    assert(want.take(s.selected@.len() as int) =~= want);
    join(&lines, "\n")
}

/// The lines about the memories that were removed; `stems` are the names of their
/// files.
pub open spec fn removed_lines(removed: Seq<Stage1OutputRef>, stems: Seq<String>) -> Seq<Seq<char>> {
    Seq::new(
        removed.len(),
        |i: int|
            flat(
                seq![
                    "- session_id="@,
                    id_text(removed[i].session_id),
                    ", rollout_summary_file=rollout_summaries/"@,
                    stems[i]@,
                    ".md"@,
                ],
            ),
    )
}

/// What is said of the memories that were removed.
pub open spec fn removed_text(removed: Seq<Stage1OutputRef>, stems: Seq<String>) -> Seq<char> {
    if removed.len() == 0 {
        "- none"@
    } else {
        joined(removed_lines(removed, stems), "\n"@)
    }
}

fn make_removed_text(removed: &Vec<Stage1OutputRef>, stems: &Vec<String>) -> (r: String)
    requires
        stems@.len() == removed@.len(),
    ensures
        r@ == removed_text(removed@, stems@),
{
    if removed.len() == 0 {
        return "- none".to_string();
    }
    let mut lines: Vec<String> = Vec::new();
    let mut i: usize = 0;
    let ghost want = removed_lines(removed@, stems@);
    while i < removed.len()
        invariant
            i <= removed@.len(),
            stems@.len() == removed@.len(),
            want == removed_lines(removed@, stems@),
            texts(lines@) =~= want.take(i as int),
        decreases removed@.len() - i,
    {
        let id = format_id(removed[i].session_id);
        let parts: [&str; 5] = [
            "- session_id=",
            id.as_str(),
            ", rollout_summary_file=rollout_summaries/",
            stems[i].as_str(),
            ".md",
        ];
        let ghost before = texts(lines@);
        let line = concat(&parts);
        proof {
            assert(part_texts(parts@) =~= seq![
                "- session_id="@,
                id_text(removed@[i as int].session_id),
                ", rollout_summary_file=rollout_summaries/"@,
                stems@[i as int]@,
                ".md"@,
            ]);
            assert(line@ == want[i as int]);
        }
        lines.push(line);
        assert(texts(lines@) =~= before.push(want[i as int]));
        i = i + 1;
    }
    assert(want.take(removed@.len() as int) =~= want);
    join(&lines, "\n")
}

/// The parts of the line about a recent session.
pub open spec fn session_line(e: SessionIndexEntry) -> Seq<Seq<char>> {
    seq![
        "- "@,
        e.last_event_at@,
        " | "@,
        id_text(e.session_id),
        " | "@,
        match e.last_user_snippet {
            Some(t) => t@,
            None => "(no user snippet)"@,
        },
    ]
}

/// The lines about the first ten sessions that are listed.
pub open spec fn session_lines(entries: Seq<SessionIndexEntry>) -> Seq<Seq<char>> {
    Seq::new(
        smaller(entries.len() as int, 10) as nat,
        |i: int| flat(session_line(entries[i])),
    )
}

fn make_session_lines(entries: &[SessionIndexEntry]) -> (r: String)
    ensures
        r@ == joined(session_lines(entries@), "\n"@),
{
    let mut lines: Vec<String> = Vec::new();
    let mut i: usize = 0;
    let ghost want = session_lines(entries@);
    while i < entries.len() && i < 10
        invariant
            i <= entries@.len(),
            i <= 10,
            want == session_lines(entries@),
            texts(lines@) =~= want.take(i as int),
        decreases entries@.len() - i,
    {
        let e = &entries[i];
        let id = format_id(e.session_id);
        let snippet = match &e.last_user_snippet {
            Some(t) => t.clone(),
            None => "(no user snippet)".to_string(),
        };
        let parts: [&str; 6] = [
            "- ",
            e.last_event_at.as_str(),
            " | ",
            id.as_str(),
            " | ",
            snippet.as_str(),
        ];
        let ghost before = texts(lines@);
        let line = concat(&parts);
        proof {
            assert(part_texts(parts@) =~= session_line(*e));
            assert(line@ == want[i as int]);
        }
        lines.push(line);
        assert(texts(lines@) =~= before.push(want[i as int]));
        i = i + 1;
    }
    assert(want.take(want.len() as int) =~= want);
    join(&lines, "\n")
}

/// What goes into the summary of one memory: the name of its file, and its texts
/// cut to size.
#[derive(Debug, PartialEq, Eq)]
pub struct MemorySnippet {
    pub stem: String,
    pub summary: String,
    pub raw_memory: String,
}

/// The line that names the branch, where there is one.
pub open spec fn branch_line(branch: Option<String>) -> Seq<char> {
    match branch {
        Some(b) => flat(seq!["git_branch: "@, b@, "\n"@]),
        None => Seq::empty(),
    }
}

/// The parts of the block about a selected memory.
pub open spec fn selected_block(o: Stage1Output, snippet: MemorySnippet) -> Seq<Seq<char>> {
    seq![
        "## Session "@,
        id_text(o.session_id),
        "\nupdated_at: "@,
        rfc3339_text(o.source_updated_at.spec_secs(), o.source_updated_at.spec_nanos()),
        "\ncwd: "@,
        o.cwd@,
        "\n"@,
        branch_line(o.git_branch),
        "rollout_path: "@,
        o.rollout_path@,
        "\nrollout_summary_file: "@,
        snippet.stem@,
        ".md\n\nRollout summary:\n"@,
        snippet.summary@,
        "\n\nRaw memory:\n"@,
        snippet.raw_memory@,
        "\n\n"@,
    ]
}

/// The blocks about the selected memories.
pub open spec fn selected_blocks(selected: Seq<Stage1Output>, snippets: Seq<MemorySnippet>) -> Seq<
    Seq<char>,
> {
    Seq::new(selected.len(), |i: int| flat(selected_block(selected[i], snippets[i])))
}

/// The texts of the selected memory, which are to be cut to
/// [`PHASE2_ENTRY_SNIPPET_BYTES`]: its summary, and its memory in full.
pub fn snippet_sources(o: &Stage1Output) -> (r: (String, String))
    ensures
        r.0@ == trim_text(o.rollout_summary@),
        r.1@ == trim_text(o.raw_memory@),
{
    (trim(o.rollout_summary.as_str()), trim(o.raw_memory.as_str()))
}

fn make_selected_block(o: &Stage1Output, snippet: &MemorySnippet) -> (r: String)
    ensures
        r@ == flat(selected_block(*o, *snippet)),
{
    let branch = match &o.git_branch {
        Some(b) => {
            let parts: [&str; 3] = ["git_branch: ", b.as_str(), "\n"];
            assert(part_texts(parts@) =~= seq!["git_branch: "@, b@, "\n"@]);
            concat(&parts)
        },
        None => String::new(),
    };
    let id = format_id(o.session_id);
    let updated_at = o.source_updated_at.to_rfc3339();
    let parts: [&str; 17] = [
        "## Session ",
        id.as_str(),
        "\nupdated_at: ",
        updated_at.as_str(),
        "\ncwd: ",
        o.cwd.as_str(),
        "\n",
        branch.as_str(),
        "rollout_path: ",
        o.rollout_path.as_str(),
        "\nrollout_summary_file: ",
        snippet.stem.as_str(),
        ".md\n\nRollout summary:\n",
        snippet.summary.as_str(),
        "\n\nRaw memory:\n",
        snippet.raw_memory.as_str(),
        "\n\n",
    ];
    assert(part_texts(parts@) =~= selected_block(*o, *snippet));
    concat(&parts)
}

/// The texts of all selected memories, which are to be cut to
/// [`PHASE2_SELECTED_PAYLOAD_BYTES`].
pub fn phase2_selected_payload(selection: &Phase2Selection, snippets: &Vec<MemorySnippet>) -> (r:
    String)
    requires
        snippets@.len() == selection.selected@.len(),
    ensures
        r@ == flat(selected_blocks(selection.selected@, snippets@)),
{
    let mut out = String::new();
    let mut i: usize = 0;
    let ghost want = selected_blocks(selection.selected@, snippets@);
    while i < selection.selected.len()
        invariant
            i <= selection.selected@.len(),
            snippets@.len() == selection.selected@.len(),
            want == selected_blocks(selection.selected@, snippets@),
            out@ == flat(want.take(i as int)),
        decreases selection.selected@.len() - i,
    {
        let block = make_selected_block(&selection.selected[i], &snippets[i]);
        proof {
            assert(want.take(i + 1).drop_last() =~= want.take(i as int));
            assert(want.take(i + 1).last() == block@);
        }
        out.append(block.as_str());
        i = i + 1;
    }
    assert(want.take(selection.selected@.len() as int) =~= want);
    out
}

/// The place of the first memory of that name; the length where there is none.
pub open spec fn place_of_ref(items: Seq<Stage1Output>, r: Stage1OutputRef) -> int
    decreases items.len(),
{
    if items.len() == 0 {
        0
    } else if items[0].ref_view() == r.view() {
        0
    } else {
        1 + place_of_ref(items.drop_first(), r)
    }
}

fn find_ref(items: &Vec<Stage1Output>, r: &Stage1OutputRef) -> (p: usize)
    ensures
        p == place_of_ref(items@, *r),
        p <= items@.len(),
{
    let mut i: usize = 0;
    assert(items@.skip(0) =~= items@);
    while i < items.len()
        invariant
            i <= items@.len(),
            place_of_ref(items@, *r) == i + place_of_ref(items@.skip(i as int), *r),
        decreases items@.len() - i,
    {
        assert(items@.skip(i as int)[0] == items@[i as int]);
        assert(items@.skip(i as int).drop_first() =~= items@.skip(i + 1));
        if items[i].to_ref().same(r) {
            return i;
        }
        i = i + 1;
    }
    i
}

/// The parts of the block about a removed memory that is still kept.
pub open spec fn removed_block(o: Stage1Output, stem: Seq<char>) -> Seq<Seq<char>> {
    seq![
        "- session_id="@,
        id_text(o.session_id),
        "\n  rollout_summary_file="@,
        stem,
        ".md\n  rollout_summary="@,
        trim_text(o.rollout_summary@),
        "\n"@,
    ]
}

/// The blocks about the removed memories that are still kept. `stems` are the
/// names of the files of what is kept.
pub open spec fn removed_blocks(
    removed: Seq<Stage1OutputRef>,
    retained: Seq<Stage1Output>,
    stems: Seq<String>,
) -> Seq<Seq<char>>
    decreases removed.len(),
{
    if removed.len() == 0 {
        Seq::empty()
    } else {
        let before = removed_blocks(removed.drop_last(), retained, stems);
        let p = place_of_ref(retained, removed.last());
        if p < retained.len() {
            before.push(flat(removed_block(retained[p], stems[p]@)))
        } else {
            before
        }
    }
}

/// The texts of the removed memories that are still kept, which are to be cut to
/// half of [`PHASE2_SELECTED_PAYLOAD_BYTES`].
pub fn phase2_removed_payload(selection: &Phase2Selection, retained_stems: &Vec<String>) -> (r:
    String)
    requires
        retained_stems@.len() == selection.retained_artifacts@.len(),
    ensures
        r@ == joined(
            removed_blocks(
                selection.removed@,
                selection.retained_artifacts@,
                retained_stems@,
            ),
            "\n"@,
        ),
{
    let mut blocks: Vec<String> = Vec::new();
    let mut i: usize = 0;
    let ghost removed = selection.removed@;
    let ghost retained = selection.retained_artifacts@;
    while i < selection.removed.len()
        invariant
            i <= selection.removed@.len(),
            removed == selection.removed@,
            retained == selection.retained_artifacts@,
            retained_stems@.len() == retained.len(),
            texts(blocks@) =~= removed_blocks(removed.take(i as int), retained, retained_stems@),
        decreases selection.removed@.len() - i,
    {
        proof {
            assert(removed.take(i + 1).drop_last() =~= removed.take(i as int));
            assert(removed.take(i + 1).last() == removed[i as int]);
        }
        let p = find_ref(&selection.retained_artifacts, &selection.removed[i]);
        if p < selection.retained_artifacts.len() {
            let o = &selection.retained_artifacts[p];
            let id = format_id(o.session_id);
            let summary = trim(o.rollout_summary.as_str());
            let parts: [&str; 7] = [
                "- session_id=",
                id.as_str(),
                "\n  rollout_summary_file=",
                retained_stems[p].as_str(),
                ".md\n  rollout_summary=",
                summary.as_str(),
                "\n",
            ];
            let ghost before = texts(blocks@);
            let block = concat(&parts);
            assert(part_texts(parts@) =~= removed_block(*o, retained_stems@[p as int]@));
            let ghost text = block@;
            blocks.push(block);
            assert(texts(blocks@) =~= before.push(text));
        }
        i = i + 1;
    }
    assert(removed.take(removed.len() as int) =~= removed);
    join(&blocks, "\n")
}

/// What was cut to size for the summary, and what names the files.
#[derive(Debug, PartialEq, Eq)]
pub struct Phase2PromptTexts {
    /// The directory of the memories.
    pub memory_root: String,
    /// The names of the files of the selected memories.
    pub selected_stems: Vec<String>,
    /// The names of the files of the removed memories.
    pub removed_stems: Vec<String>,
    /// The texts of the selected memories, cut to size.
    pub selected_payload: String,
    /// The texts of the removed memories, cut to size.
    pub removed_payload: String,
}

/// The parts of what a model is asked when the summary is made.
pub open spec fn phase2_prompt_parts(
    entries: Seq<SessionIndexEntry>,
    s: Phase2Selection,
    t: Phase2PromptTexts,
) -> Seq<Seq<char>> {
    seq![
        "memory_root: "@,
        t.memory_root@,
        "\n\nSelection diff:\n"@,
        joined(selected_lines(s, t.selected_stems@), "\n"@),
        "\n\nRemoved from previous selection:\n"@,
        if t.removed_payload@.len() == 0 {
            removed_text(s.removed@, t.removed_stems@)
        } else {
            t.removed_payload@
        },
        "\n\nRecent session context:\n"@,
        joined(session_lines(entries), "\n"@),
        "\n\nSelected memory inputs:\n"@,
        t.selected_payload@,
        "\n\nUse the selected inputs to write a concise, searchable MEMORY.md and a compact memory_summary.md."@,
    ]
}

/// Asks a model for the summary. `entries` are the sessions as they are listed.
pub fn build_phase2_user_prompt(
    entries: &[SessionIndexEntry],
    selection: &Phase2Selection,
    prompt_texts: &Phase2PromptTexts,
) -> (r: String)
    requires
        prompt_texts.selected_stems@.len() == selection.selected@.len(),
        prompt_texts.removed_stems@.len() == selection.removed@.len(),
    ensures
        r@ == flat(phase2_prompt_parts(entries@, *selection, *prompt_texts)),
{
    let selected = make_selected_lines(selection, &prompt_texts.selected_stems);
    let removed = if prompt_texts.removed_payload.as_str().is_empty() {
        make_removed_text(&selection.removed, &prompt_texts.removed_stems)
    } else {
        prompt_texts.removed_payload.clone()
    };
    let recent = make_session_lines(entries);
    let parts: [&str; 11] = [
        "memory_root: ",
        prompt_texts.memory_root.as_str(),
        "\n\nSelection diff:\n",
        selected.as_str(),
        "\n\nRemoved from previous selection:\n",
        removed.as_str(),
        "\n\nRecent session context:\n",
        recent.as_str(),
        "\n\nSelected memory inputs:\n",
        prompt_texts.selected_payload.as_str(),
        "\n\nUse the selected inputs to write a concise, searchable MEMORY.md and a compact memory_summary.md.",
    ];
    assert(part_texts(parts@) =~= phase2_prompt_parts(entries@, *selection, *prompt_texts));
    concat(&parts)
}

/// A schema of an object whose properties are all required, and no others
/// allowed.
pub open spec fn closed_object_json(
    properties: Map<Seq<char>, JsonView>,
    required: Seq<Seq<char>>,
) -> JsonView {
    JsonView::Object(
        typed_object("object"@).insert("properties"@, JsonView::Object(properties)).insert(
            "required"@,
            strings_view(required),
        ).insert("additionalProperties"@, JsonView::Bool(false)),
    )
}

/// The schema of what is learned from a session.
pub open spec fn stage1_schema_json() -> JsonView {
    let string = JsonView::Object(typed_object("string"@));
    let slug = JsonView::Object(
        Map::<Seq<char>, JsonView>::empty().insert("type"@, strings_view(seq!["string"@, "null"@])),
    );
    closed_object_json(
        Map::<Seq<char>, JsonView>::empty().insert("raw_memory"@, string).insert(
            "rollout_summary"@,
            string,
        ).insert("rollout_slug"@, slug),
        seq!["raw_memory"@, "rollout_summary"@, "rollout_slug"@],
    )
}

/// The schema of the summary.
pub open spec fn phase2_schema_json() -> JsonView {
    let string = JsonView::Object(typed_object("string"@));
    closed_object_json(
        Map::<Seq<char>, JsonView>::empty().insert("memory_summary"@, string).insert(
            "memory_body"@,
            string,
        ),
        seq!["memory_summary"@, "memory_body"@],
    )
}

fn string_type() -> (v: JsonValue)
    ensures
        v.view() == JsonView::Object(typed_object("string"@)),
{
    let mut m = json_object();
    json_put(&mut m, "type", json_str("string"));
    JsonValue::Object(m)
}

fn closed_object(properties: JsonValue, required: &Vec<String>) -> (v: JsonValue)
    requires
        properties.view() is Object,
    ensures
        v.view() == closed_object_json(properties.view()->Object_0, texts(required@)),
{
    let mut m = json_object();
    json_put(&mut m, "type", json_str("object"));
    json_put(&mut m, "properties", properties);
    json_put(&mut m, "required", json_strings(required));
    json_put(&mut m, "additionalProperties", JsonValue::Bool(false));
    JsonValue::Object(m)
}

/// The schema of what is learned from a session.
pub fn stage1_output_schema() -> (v: JsonValue)
    ensures
        v.view() == stage1_schema_json(),
{
    let types: Vec<String> = vec!["string".to_string(), "null".to_string()];
    assert(texts(types@) =~= seq!["string"@, "null"@]);
    let mut slug = json_object();
    json_put(&mut slug, "type", json_strings(&types));
    let mut properties = json_object();
    json_put(&mut properties, "raw_memory", string_type());
    json_put(&mut properties, "rollout_summary", string_type());
    json_put(&mut properties, "rollout_slug", JsonValue::Object(slug));
    let required: Vec<String> = vec![
        "raw_memory".to_string(),
        "rollout_summary".to_string(),
        "rollout_slug".to_string(),
    ];
    assert(texts(required@) =~= seq!["raw_memory"@, "rollout_summary"@, "rollout_slug"@]);
    closed_object(JsonValue::Object(properties), &required)
}

/// The schema of the summary.
pub fn phase2_output_schema() -> (v: JsonValue)
    ensures
        v.view() == phase2_schema_json(),
{
    let mut properties = json_object();
    json_put(&mut properties, "memory_summary", string_type());
    json_put(&mut properties, "memory_body", string_type());
    let required: Vec<String> = vec!["memory_summary".to_string(), "memory_body".to_string()];
    assert(texts(required@) =~= seq!["memory_summary"@, "memory_body"@]);
    closed_object(JsonValue::Object(properties), &required)
}

/// A question to a model.
#[derive(Debug, PartialEq)]
pub struct Prompt {
    /// The items of the conversation.
    pub input: Vec<ResponseItem>,
    pub include_additional_instructions: bool,
    pub store: bool,
    pub base_instructions_override: Option<String>,
    pub output_schema: Option<JsonValue>,
    pub model_override: Option<String>,
    /// What is known of that model.
    pub model_family_override: Option<ModelFamily>,
}

/// The conversation is one message of the user with the given text.
pub open spec fn is_user_message(input: Seq<ResponseItem>, text: Seq<char>) -> bool {
    &&& input.len() == 1
    &&& input[0] is Message
    &&& input[0]->Message_id is None
    &&& input[0]->role@ == "user"@
    &&& input[0]->end_turn is None
    &&& input[0]->phase is None
    &&& input[0]->content@.len() == 1
    &&& input[0]->content@[0] is InputText
    &&& input[0]->content@[0]->InputText_text@ == text
}

/// The question that is asked with its own instructions, of one model, and for an
/// answer of one form. Nothing of it is stored.
pub open spec fn is_question(
    p: Prompt,
    text: Seq<char>,
    instructions: Seq<char>,
    model: Seq<char>,
    family: ModelFamily,
    schema: JsonView,
) -> bool {
    &&& is_user_message(p.input@, text)
    &&& !p.include_additional_instructions
    &&& !p.store
    &&& opt_text(p.base_instructions_override) == Some(instructions)
    &&& opt_text(p.model_override) == Some(model)
    &&& p.model_family_override == Some(family)
    &&& p.output_schema matches Some(v) && v.view() == schema
}

fn make_question(
    text: String,
    instructions: &str,
    model: String,
    family: ModelFamily,
    schema: JsonValue,
) -> (p: Prompt)
    ensures
        is_question(p, text@, instructions@, model@, family, schema.view()),
{
    let message = ResponseItem::Message {
        id: None,
        role: "user".to_string(),
        content: vec![ContentItem::InputText { text }],
        end_turn: None,
        phase: None,
    };
    Prompt {
        input: vec![message],
        include_additional_instructions: false,
        store: false,
        base_instructions_override: Some(instructions.to_string()),
        output_schema: Some(schema),
        model_override: Some(model),
        model_family_override: Some(family),
    }
}

/// The question about a session. `family` is what is known of the model that is asked.
pub fn stage1_prompt(
    config: &MemoriesConfig,
    entry: &EligibleEntry,
    truncated_rollout_contents: &str,
    system_prompt: &str,
    family: ModelFamily,
) -> (p: Prompt)
    ensures
        is_question(
            p,
            flat(stage1_prompt_parts(*entry, truncated_rollout_contents@)),
            system_prompt@,
            model_or(config.phase_1_model, DEFAULT_STAGE_ONE_MODEL@),
            family,
            stage1_schema_json(),
        ),
{
    make_question(
        build_stage1_user_prompt(entry, truncated_rollout_contents),
        system_prompt,
        stage_one_model(config),
        family,
        stage1_output_schema(),
    )
}

/// The question for the summary. `family` is what is known of the model that is asked.
pub fn phase2_prompt(
    config: &MemoriesConfig,
    entries: &[SessionIndexEntry],
    selection: &Phase2Selection,
    prompt_texts: &Phase2PromptTexts,
    system_prompt: &str,
    family: ModelFamily,
) -> (p: Prompt)
    requires
        prompt_texts.selected_stems@.len() == selection.selected@.len(),
        prompt_texts.removed_stems@.len() == selection.removed@.len(),
    ensures
        is_question(
            p,
            flat(phase2_prompt_parts(entries@, *selection, *prompt_texts)),
            system_prompt@,
            model_or(config.phase_2_model, DEFAULT_STAGE_TWO_MODEL@),
            family,
            phase2_schema_json(),
        ),
{
    make_question(
        build_phase2_user_prompt(entries, selection, prompt_texts),
        system_prompt,
        stage_two_model(config),
        family,
        phase2_output_schema(),
    )
}

/// The recording of a session as memories are made of it. There is none where the
/// session used what lies outside and such sessions are left out, nor where
/// nothing is left of it. Fails as the recording cannot be written.
pub fn stage1_rollout_contents(
    config: &MemoriesConfig,
    lines: &[RolloutLine],
    user_instructions_prefix: &str,
) -> (r: Result<Option<String>, String>)
    ensures
        ({
            let relevant = relevant_lines(lines@, user_instructions_prefix@);
            let failure = first_failure(relevant);
            let contents = joined(line_texts(relevant), "\n"@);
            if config.no_memories_if_mcp_or_web_search && any_outside(lines@) {
                r matches Ok(None)
            } else if failure < relevant.len() {
                r matches Err(e) && relevant[failure].json == Err::<String, String>(e)
            } else if trim_text(contents).len() == 0 {
                r matches Ok(None)
            } else {
                r matches Ok(Some(t)) && t@ == contents
            }
        }),
{
    if config.no_memories_if_mcp_or_web_search && any_line_uses_mcp_or_web_search(lines) {
        return Ok(None);
    }
    match serialize_memory_relevant_rollout(lines, user_instructions_prefix) {
        Ok(contents) => {
            if trim(contents.as_str()).as_str().is_empty() {
                Ok(None)
            } else {
                Ok(Some(contents))
            }
        },
        Err(e) => Err(e),
    }
}

/// What a model answers about a session.
#[derive(Debug, PartialEq, Eq)]
pub struct StageOneModelOutput {
    pub raw_memory: String,
    pub rollout_summary: String,
    pub rollout_slug: Option<String>,
}

/// What a model answers when it is asked for the summary.
#[derive(Debug, PartialEq, Eq)]
pub struct ConsolidationOutput {
    pub memory_summary: String,
    pub memory_body: String,
}

/// The text without the white space around it, where something is left.
pub open spec fn filled(t: Option<String>) -> Option<Seq<char>> {
    match t {
        Some(s) => if trim_text(s@).len() > 0 {
            Some(trim_text(s@))
        } else {
            None
        },
        None => None,
    }
}

/// What was learned is the answer about the session.
pub open spec fn is_answer(
    o: Stage1Output,
    entry: EligibleEntry,
    parsed: StageOneModelOutput,
    generated_at: Timestamp,
) -> bool {
    &&& o.session_id == entry.session_id
    &&& o.rollout_path == entry.rollout_path
    &&& o.cwd == entry.cwd
    &&& o.git_branch == entry.git_branch
    &&& o.source_updated_at == entry.source_updated_at
    &&& o.generated_at == generated_at
    &&& o.raw_memory@ == trim_text(parsed.raw_memory@)
    &&& o.rollout_summary@ == trim_text(parsed.rollout_summary@)
    &&& opt_text(o.rollout_slug) == filled(parsed.rollout_slug)
    &&& o.usage_count == 0
    &&& o.last_usage is None
}

/// What was learned from a session at the given time. An answer without a memory
/// or without a summary is none.
pub fn stage1_output_at(
    entry: EligibleEntry,
    parsed: &StageOneModelOutput,
    generated_at: Timestamp,
) -> (r: Option<Stage1Output>)
    ensures
        match r {
            Some(o) => is_answer(o, entry, *parsed, generated_at) && trim_text(
                parsed.raw_memory@,
            ).len() > 0 && trim_text(parsed.rollout_summary@).len() > 0,
            None => trim_text(parsed.raw_memory@).len() == 0 || trim_text(
                parsed.rollout_summary@,
            ).len() == 0,
        },
{
    let raw_memory = trim(parsed.raw_memory.as_str());
    let rollout_summary = trim(parsed.rollout_summary.as_str());
    if raw_memory.as_str().is_empty() || rollout_summary.as_str().is_empty() {
        return None;
    }
    let rollout_slug = match &parsed.rollout_slug {
        Some(s) => {
            let t = trim(s.as_str());
            if t.as_str().is_empty() {
                None
            } else {
                Some(t)
            }
        },
        None => None,
    };
    Some(
        Stage1Output {
            session_id: entry.session_id,
            rollout_path: entry.rollout_path,
            cwd: entry.cwd,
            git_branch: entry.git_branch,
            source_updated_at: entry.source_updated_at,
            generated_at,
            raw_memory,
            rollout_summary,
            rollout_slug,
            usage_count: 0,
            last_usage: None,
        },
    )
}

/// What was learned from a session by now.
pub fn stage1_output(entry: EligibleEntry, parsed: &StageOneModelOutput) -> (r: Option<
    Stage1Output,
>)
    ensures
        match r {
            Some(o) => (exists|now: Timestamp| is_answer(o, entry, *parsed, now)) && trim_text(
                parsed.raw_memory@,
            ).len() > 0 && trim_text(parsed.rollout_summary@).len() > 0,
            None => trim_text(parsed.raw_memory@).len() == 0 || trim_text(
                parsed.rollout_summary@,
            ).len() == 0,
        },
{
    let now = Timestamp::now();
    stage1_output_at(entry, parsed, now)
}

/// What is written as the summary and as the memories in full.
pub fn consolidated_texts(answer: &ConsolidationOutput) -> (r: (String, String))
    ensures
        r.0@ == trim_text(answer.memory_summary@),
        r.1@ == trim_text(answer.memory_body@),
{
    (trim(answer.memory_summary.as_str()), trim(answer.memory_body.as_str()))
}

/// What comes from a model while it answers.
#[derive(Debug, PartialEq, Eq)]
pub enum ResponseEvent {
    /// More of the answer.
    OutputTextDelta(String),
    /// An item is complete; its text, if it is a message with one.
    OutputItemDone(Option<String>),
    /// The answer is complete.
    Completed,
    /// Anything else.
    Other,
}

/// The answer after one more event. The text of a complete message counts only
/// where nothing came before it.
pub open spec fn answer_after(answer: Seq<char>, event: ResponseEvent) -> Seq<char> {
    match event {
        ResponseEvent::OutputTextDelta(t) => answer + t@,
        ResponseEvent::OutputItemDone(Some(t)) => if answer.len() == 0 {
            t@
        } else {
            answer
        },
        _ => answer,
    }
}

/// Takes in one event of the answer. Says whether the answer is complete.
pub fn collect_event(answer: &mut String, event: &ResponseEvent) -> (done: bool)
    ensures
        final(answer)@ == answer_after(old(answer)@, *event),
        done == (*event is Completed),
{
    match event {
        ResponseEvent::OutputTextDelta(t) => {
            answer.append(t.as_str());
            false
        },
        ResponseEvent::OutputItemDone(Some(t)) => {
            if answer.as_str().is_empty() {
                let ghost before = answer@;
                answer.append(t.as_str());
                assert(before + t@ =~= t@);
            }
            false
        },
        ResponseEvent::Completed => true,
        _ => false,
    }
}

/// How many of the events count: those up to the one that completes the answer or
/// fails, or all.
pub open spec fn events_taken(events: Seq<Result<ResponseEvent, String>>) -> int
    decreases events.len(),
{
    if events.len() == 0 {
        0
    } else if events[0] is Err || events[0]->Ok_0 is Completed {
        0
    } else {
        1 + events_taken(events.drop_first())
    }
}

/// The answer that the events make up.
pub open spec fn answer_of(events: Seq<Result<ResponseEvent, String>>) -> Seq<char>
    decreases events.len(),
{
    if events.len() == 0 {
        Seq::empty()
    } else {
        answer_after(answer_of(events.drop_last()), events.last()->Ok_0)
    }
}

/// The answer of a model: all of the events up to the one that completes it. Fails
/// as the first event before that fails.
pub fn collect_json_response(events: &[Result<ResponseEvent, String>]) -> (r: Result<String, String>)
    ensures
        ({
            let n = events_taken(events@);
            match r {
                Ok(t) => (n == events@.len() || events@[n] is Ok) && t@ == answer_of(
                    events@.take(n),
                ),
                Err(e) => 0 <= n < events@.len() && events@[n] == Err::<ResponseEvent, String>(e),
            }
        }),
{
    let mut answer = String::new();
    let mut i: usize = 0;
    assert(events@.skip(0) =~= events@);
    assert(events@.take(0) =~= Seq::empty());
    while i < events.len()
        invariant
            i <= events@.len(),
            events_taken(events@) == i + events_taken(events@.skip(i as int)),
            answer@ == answer_of(events@.take(i as int)),
        decreases events@.len() - i,
    {
        proof {
            assert(events@.skip(i as int)[0] == events@[i as int]);
            assert(events@.skip(i as int).drop_first() =~= events@.skip(i + 1));
            assert(events@.take(i + 1).drop_last() =~= events@.take(i as int));
            assert(events@.take(i + 1).last() == events@[i as int]);
        }
        match &events[i] {
            Ok(event) => {
                if collect_event(&mut answer, event) {
                    return Ok(answer);
                }
            },
            Err(e) => {
                return Err(e.clone());
            },
        }
        i = i + 1;
    }
    assert(events@.skip(i as int) =~= Seq::empty());
    Ok(answer)
}

} // verus!
