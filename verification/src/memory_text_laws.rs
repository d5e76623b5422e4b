//! What memories are made of, what models are asked about them, and what is taken of
//! their answers.

use crate::ids::id_text;
use crate::json::JsonView;
use crate::log_dirs::{is_free_name, legacy_name, moves, LogMove};
use crate::memory_items::{
    any_outside, first_failure, is_assistant_message, is_instruction_item, is_instruction_text,
    line_texts, named_sessions, output_texts, relevant_lines, stripped_content, uses_outside,
    ContentItem, EventKind, ResponseItem, RolloutItem, RolloutLine, StrippedText,
};
use crate::memory_prompts::{
    answer_after, answer_of, events_taken, is_answer, is_question, model_or, phase2_prompt_parts,
    phase2_schema_json, place_of_ref, removed_blocks, removed_text, rollout_token_limit_of,
    selected_block, selected_blocks, selected_lines, session_lines, smaller, stage1_prompt_parts,
    stage1_schema_json, MemorySnippet, Phase2PromptTexts, Prompt, ResponseEvent,
    StageOneModelOutput, DEFAULT_STAGE_ONE_MODEL, DEFAULT_STAGE_TWO_MODEL,
};
use crate::memory_select::Phase2Selection;
use crate::memory_store::{
    is_path, EligibleEntry, JoinedPath, SessionIndexEntry, Stage1Output, Stage1OutputRef,
};
use crate::memory_use_laws::names;
use crate::order::filter_places;
use crate::protocol::ModelFamily;
use crate::text::{contains_text, decimal, flat, joined, opt_text, starts, trim_text};
use crate::time::{rfc3339_text, Timestamp};
use vstd::prelude::*;

verus! {

broadcast use vstd::seq_lib::group_seq_properties;

// ---------------------------------------------------------------------------
// What memories are made of

/// An item used what lies outside where it is a call of a server's tool or a search of
/// the web, or tells of one; no other item did.
pub proof fn items_that_used_what_lies_outside(item: RolloutItem)
    ensures
        item matches RolloutItem::ResponseItem(ResponseItem::FunctionCall {
            name,
            id,
            namespace,
            arguments,
            call_id,
        }) ==> (uses_outside(item) <==> starts(name@, "mcp__"@)),
        item == RolloutItem::ResponseItem(ResponseItem::WebSearchCall) ==> uses_outside(item),
        item matches RolloutItem::ResponseItem(ResponseItem::Message {
            id,
            role,
            content,
            end_turn,
            phase,
        }) ==> !uses_outside(item),
        item == RolloutItem::ResponseItem(ResponseItem::Other) ==> !uses_outside(item),
        item matches RolloutItem::Event(Some(e)) ==> (uses_outside(item) <==> e
            != EventKind::Other),
        item matches RolloutItem::EventMsg(Some(e)) ==> (uses_outside(item) <==> e
            != EventKind::Other),
        item matches RolloutItem::Event(None) ==> !uses_outside(item),
        item matches RolloutItem::EventMsg(None) ==> !uses_outside(item),
        item is Other ==> !uses_outside(item),
{
}

/// A session used what lies outside where one of its items did.
pub proof fn sessions_that_used_what_lies_outside(lines: Seq<RolloutLine>)
    ensures
        any_outside(lines) <==> exists|i: int|
            0 <= i < lines.len() && uses_outside((#[trigger] lines[i]).item),
{
}

/// A text holds instructions where it begins as the user's do, or is the whole of a
/// skill.
pub proof fn texts_that_hold_instructions(text: Seq<char>, prefix: Seq<char>)
    ensures
        starts(text, prefix) ==> is_instruction_text(text, prefix),
        !starts(text, prefix) ==> (is_instruction_text(text, prefix) <==> starts(text, "<skill>\n"@)
            && contains_text(text, "</skill>"@) && contains_text(text, "<path>"@) && contains_text(
            text,
            "SKILL.md"@,
        )),
{
}

/// An item holds instructions where it is a message of the user with that one text.
pub proof fn items_that_hold_instructions(item: RolloutItem, prefix: Seq<char>)
    ensures
        is_instruction_item(item, prefix) ==> {
            &&& item is ResponseItem
            &&& item->ResponseItem_0 is Message
            &&& item->ResponseItem_0->role@ == "user"@
            &&& item->ResponseItem_0->content@.len() == 1
            &&& item->ResponseItem_0->content@[0] is InputText
            &&& is_instruction_text(
                item->ResponseItem_0->content@[0]->InputText_text@,
                prefix,
            )
        },
        item is ResponseItem && item->ResponseItem_0 is Message && item->ResponseItem_0->role@
            == "user"@ && item->ResponseItem_0->content@.len() == 1
            && item->ResponseItem_0->content@[0] is InputText && is_instruction_text(
            item->ResponseItem_0->content@[0]->InputText_text@,
            prefix,
        ) ==> is_instruction_item(item, prefix),
{
}

/// What memories are made of are the lines that are kept for them and hold no
/// instructions, in their order.
pub proof fn memories_are_made_of_relevant_lines(
    lines: Seq<RolloutLine>,
    prefix: Seq<char>,
) -> (places: Seq<int>)
    ensures
        places.len() == relevant_lines(lines, prefix).len(),
        forall|k: int, l: int|
            0 <= k < l < places.len() ==> #[trigger] places[k] < #[trigger] places[l],
        forall|k: int|
            0 <= k < places.len() ==> 0 <= #[trigger] places[k] < lines.len() && lines[places[k]]
                == relevant_lines(lines, prefix)[k] && lines[places[k]].kept_for_memories
                && !is_instruction_item(lines[places[k]].item, prefix),
        forall|i: int|
            0 <= i < lines.len() && (#[trigger] lines[i]).kept_for_memories && !is_instruction_item(
                lines[i].item,
                prefix,
            ) ==> exists|k: int| 0 <= k < places.len() && #[trigger] places[k] == i,
{
    let f = |l: RolloutLine| crate::memory_items::is_relevant(l, prefix);
    let places = filter_places(lines, f);
    assert forall|i: int|
        0 <= i < lines.len() && (#[trigger] lines[i]).kept_for_memories && !is_instruction_item(
            lines[i].item,
            prefix,
        ) implies exists|k: int| 0 <= k < places.len() && #[trigger] places[k] == i by {
        assert(f(lines[i]));
    }
    places
}

/// The first line that cannot be written is the one that is told of.
pub proof fn first_failure_is_told(lines: Seq<RolloutLine>, i: int)
    ensures
        0 <= i < lines.len() && lines[i].json is Err && (forall|j: int|
            0 <= j < i ==> (#[trigger] lines[j]).json is Ok) ==> first_failure(lines) == i,
        (forall|j: int| 0 <= j < lines.len() ==> (#[trigger] lines[j]).json is Ok)
            ==> first_failure(lines) == lines.len(),
    decreases lines.len(),
{
    if lines.len() > 0 && lines[0].json is Ok {
        let t = lines.drop_first();
        first_failure_is_told(t, i - 1);
        if 0 <= i < lines.len() && lines[i].json is Err && (forall|j: int|
            0 <= j < i ==> (#[trigger] lines[j]).json is Ok) {
            assert(t[i - 1] == lines[i]);
            assert forall|j: int| 0 <= j < i - 1 implies (#[trigger] t[j]).json is Ok by {
                assert(t[j] == lines[j + 1]);
            }
        }
        if forall|j: int| 0 <= j < lines.len() ==> (#[trigger] lines[j]).json is Ok {
            assert forall|j: int| 0 <= j < t.len() implies (#[trigger] t[j]).json is Ok by {
                assert(t[j] == lines[j + 1]);
            }
        }
    }
}

/// The text of each line is the JSON of its item.
pub proof fn lines_are_written_as_json(lines: Seq<RolloutLine>, i: int)
    requires
        0 <= i < lines.len(),
    ensures
        line_texts(lines).len() == lines.len(),
        lines[i].json matches Ok(t) ==> line_texts(lines)[i] == t@,
{
}

/// An answer is a message of the model's.
pub proof fn answers_are_the_models(item: ResponseItem)
    ensures
        is_assistant_message(item) <==> item is Message && item->role@ == "assistant"@,
{
}

/// In an answer each text of the model's is put in its stripped form, in order; all other
/// content stays.
pub proof fn answers_are_stripped_text_by_text(
    content: Seq<ContentItem>,
    stripped: Seq<StrippedText>,
    i: int,
)
    requires
        0 <= i < content.len(),
    ensures
        stripped_content(content, stripped).len() == content.len(),
        !(content[i] is OutputText) ==> stripped_content(content, stripped)[i] == content[i],
        content[i] is OutputText ==> {
            let r = stripped_content(content, stripped)[i];
            &&& r is OutputText
            &&& r->OutputText_text == stripped[output_texts(content.take(i)) as int].text
        },
    decreases content.len(),
{
    let t = content.drop_last();
    if i < t.len() {
        answers_are_stripped_text_by_text(t, stripped, i);
        assert(t.take(i) =~= content.take(i));
        assert(stripped_content(content, stripped)[i] == stripped_content(t, stripped)[i]);
    } else {
        stripped_len(t, stripped);
        assert(content.take(i) =~= t);
    }
}

proof fn stripped_len(content: Seq<ContentItem>, stripped: Seq<StrippedText>)
    ensures
        stripped_content(content, stripped).len() == content.len(),
    decreases content.len(),
{
    if content.len() > 0 {
        stripped_len(content.drop_last(), stripped);
    }
}

/// The texts of the model's are counted one by one.
pub proof fn texts_of_the_model_are_counted(content: Seq<ContentItem>, c: ContentItem)
    ensures
        output_texts(Seq::empty()) == 0,
        c is OutputText ==> output_texts(content.push(c)) == output_texts(content) + 1,
        !(c is OutputText) ==> output_texts(content.push(c)) == output_texts(content),
{
    assert(content.push(c).drop_last() =~= content);
}

/// The sessions that an answer names are those that its texts name, in order.
pub proof fn named_sessions_are_those_of_the_texts(stripped: Seq<StrippedText>, s: StrippedText)
    ensures
        named_sessions(Seq::empty()).len() == 0,
        named_sessions(stripped.push(s)) == named_sessions(stripped) + s.rollout_ids@,
{
    assert(stripped.push(s).drop_last() =~= stripped);
}

// ---------------------------------------------------------------------------
// What models are asked

/// A question goes to its model as one message of the user's, with its own instructions
/// and none besides, for an answer in its form; nothing of it is stored.
pub proof fn questions_say_what_is_asked(
    p: Prompt,
    text: Seq<char>,
    instructions: Seq<char>,
    model: Seq<char>,
    family: ModelFamily,
    schema: JsonView,
)
    requires
        is_question(p, text, instructions, model, family, schema),
    ensures
        p.input@.len() == 1,
        p.input@[0] is Message,
        p.input@[0]->role@ == "user"@,
        p.input@[0]->content@.len() == 1,
        p.input@[0]->content@[0] is InputText,
        p.input@[0]->content@[0]->InputText_text@ == text,
        !p.include_additional_instructions,
        !p.store,
        p.base_instructions_override is Some,
        p.base_instructions_override->0@ == instructions,
        p.model_override is Some,
        p.model_override->0@ == model,
        p.model_family_override == Some(family),
        p.output_schema is Some,
        p.output_schema->0.view() == schema,
{
}

/// The model that is asked is the one that was set, else the usual one.
pub proof fn asked_models_are_the_ones_set(set: Option<String>, usual: Seq<char>)
    ensures
        set matches Some(m) ==> model_or(set, usual) == m@,
        set is None ==> model_or(set, usual) == usual,
        DEFAULT_STAGE_ONE_MODEL@ == "gpt-5.1-codex-mini"@,
        DEFAULT_STAGE_TWO_MODEL@ == "gpt-5.3-codex"@,
{
}

/// A model is shown seven tenths of what it can be shown, at least one token; where that
/// is not known, a fixed number.
pub proof fn models_are_shown_a_share(window: u64)
    requires
        window <= u64::MAX / 70,
    ensures
        rollout_token_limit_of(None) == 150_000,
        window * 70 / 100 >= 1 && window * 70 / 100 <= usize::MAX ==> rollout_token_limit_of(
            Some(window),
        ) == window * 70 / 100,
        window * 70 / 100 < 1 ==> rollout_token_limit_of(Some(window)) == 1,
        forall|a: int, b: int|
            #![trigger smaller(a, b)]
            smaller(a, b) <= a && smaller(a, b) <= b && (smaller(a, b) == a || smaller(a, b) == b),
{
}

/// What a model is asked about a session tells where it was recorded, where it ran, on
/// which branch and when it changed last, and then shows the recording.
pub proof fn sessions_are_asked_about(e: EligibleEntry, rollout: Seq<char>)
    ensures
        ({
            let branch = match e.git_branch {
                Some(b) => b@,
                None => "(none)"@,
            };
            flat(stage1_prompt_parts(e, rollout)) == "rollout_path: "@ + e.rollout_path@
                + "\nrollout_cwd: "@ + e.cwd@ + "\ngit_branch: "@ + branch + "\nupdated_at: "@
                + rfc3339_text(
                e.source_updated_at.spec_secs(),
                e.source_updated_at.spec_nanos(),
            ) + "\n\nRollout:\n"@ + rollout
        }),
{
    reveal_with_fuel(flat, 11);
    let p = stage1_prompt_parts(e, rollout);
    assert(flat(p) =~= p[0] + p[1] + p[2] + p[3] + p[4] + p[5] + p[6] + p[7] + p[8] + p[9]);
}

/// What a model is asked for the summary tells where the memories are, which of them are
/// selected and which no longer are, which sessions there were of late, and then shows
/// what is selected.
pub proof fn summaries_are_asked_for(
    entries: Seq<SessionIndexEntry>,
    s: Phase2Selection,
    t: Phase2PromptTexts,
)
    ensures
        ({
            let gone = if t.removed_payload@.len() == 0 {
                removed_text(s.removed@, t.removed_stems@)
            } else {
                t.removed_payload@
            };
            flat(phase2_prompt_parts(entries, s, t)) == "memory_root: "@ + t.memory_root@
                + "\n\nSelection diff:\n"@ + joined(selected_lines(s, t.selected_stems@), "\n"@)
                + "\n\nRemoved from previous selection:\n"@ + gone
                + "\n\nRecent session context:\n"@ + joined(session_lines(entries), "\n"@)
                + "\n\nSelected memory inputs:\n"@ + t.selected_payload@
                + "\n\nUse the selected inputs to write a concise, searchable MEMORY.md and a compact memory_summary.md."@
        }),
{
    reveal_with_fuel(flat, 12);
    let p = phase2_prompt_parts(entries, s, t);
    assert(flat(p) =~= p[0] + p[1] + p[2] + p[3] + p[4] + p[5] + p[6] + p[7] + p[8] + p[9] + p[10]);
}

/// Of each selected memory it is told whether its session was among those removed, and
/// which file is its own.
pub proof fn selected_memories_are_listed(s: Phase2Selection, stems: Seq<String>, i: int)
    requires
        0 <= i < s.selected@.len(),
    ensures
        ({
            let o = s.selected@[i];
            let again = exists|k: int|
                0 <= k < s.removed@.len() && (#[trigger] s.removed@[k]).session_id == o.session_id;
            let word = if again {
                "retained"@
            } else {
                "selected"@
            };
            &&& selected_lines(s, stems).len() == s.selected@.len()
            &&& selected_lines(s, stems)[i] == "- ["@ + word + "] session_id="@ + id_text(
                o.session_id,
            ) + ", rollout_summary_file=rollout_summaries/"@ + stems[i]@ + ".md"@
        }),
{
    reveal_with_fuel(flat, 8);
    let p = crate::memory_prompts::selected_line(s.selected@[i], s.removed@, stems[i]@);
    assert(flat(p) =~= p[0] + p[1] + p[2] + p[3] + p[4] + p[5] + p[6]);
}

/// Of each memory that is removed its session and its file are told; where none is, that
/// is told.
pub proof fn removed_memories_are_listed(
    removed: Seq<Stage1OutputRef>,
    stems: Seq<String>,
    i: int,
)
    requires
        0 <= i,
    ensures
        removed.len() == 0 ==> removed_text(removed, stems) == "- none"@,
        removed.len() > 0 ==> removed_text(removed, stems) == joined(
            crate::memory_prompts::removed_lines(removed, stems),
            "\n"@,
        ),
        i < removed.len() ==> crate::memory_prompts::removed_lines(removed, stems)[i]
            == "- session_id="@ + id_text(removed[i].session_id)
            + ", rollout_summary_file=rollout_summaries/"@ + stems[i]@ + ".md"@,
        crate::memory_prompts::removed_lines(removed, stems).len() == removed.len(),
{
    reveal_with_fuel(flat, 6);
    if i < removed.len() {
        let p = seq![
            "- session_id="@,
            id_text(removed[i].session_id),
            ", rollout_summary_file=rollout_summaries/"@,
            stems[i]@,
            ".md"@,
        ];
        assert(flat(p) =~= p[0] + p[1] + p[2] + p[3] + p[4]);
    }
}

/// The first ten sessions are told of, each by when it changed last, by its name and by
/// what the user said last.
pub proof fn recent_sessions_are_listed(entries: Seq<SessionIndexEntry>, i: int)
    ensures
        entries.len() <= 10 ==> session_lines(entries).len() == entries.len(),
        entries.len() > 10 ==> session_lines(entries).len() == 10,
        0 <= i < session_lines(entries).len() ==> {
            let e = entries[i];
            let said = match e.last_user_snippet {
                Some(t) => t@,
                None => "(no user snippet)"@,
            };
            session_lines(entries)[i] == "- "@ + e.last_event_at@ + " | "@ + id_text(e.session_id)
                + " | "@ + said
        },
{
    reveal_with_fuel(flat, 7);
    if 0 <= i < session_lines(entries).len() {
        let p = crate::memory_prompts::session_line(entries[i]);
        assert(flat(p) =~= p[0] + p[1] + p[2] + p[3] + p[4] + p[5]);
    }
}

/// Each selected memory is shown, in order: its session, when that changed last, where it
/// ran, its branch where it had one, where it was recorded, its file, and its texts.
pub proof fn selected_memories_are_shown(
    selected: Seq<Stage1Output>,
    snippets: Seq<MemorySnippet>,
    i: int,
)
    requires
        0 <= i < selected.len(),
    ensures
        selected_blocks(selected, snippets).len() == selected.len(),
        ({
            let o = selected[i];
            let t = snippets[i];
            let branch = match o.git_branch {
                Some(b) => "git_branch: "@ + b@ + "\n"@,
                None => Seq::empty(),
            };
            selected_blocks(selected, snippets)[i] == "## Session "@ + id_text(o.session_id)
                + "\nupdated_at: "@ + rfc3339_text(
                o.source_updated_at.spec_secs(),
                o.source_updated_at.spec_nanos(),
            ) + "\ncwd: "@ + o.cwd@ + "\n"@ + branch + "rollout_path: "@ + o.rollout_path@
                + "\nrollout_summary_file: "@ + t.stem@ + ".md\n\nRollout summary:\n"@ + t.summary@
                + "\n\nRaw memory:\n"@ + t.raw_memory@ + "\n\n"@
        }),
{
    reveal_with_fuel(flat, 18);
    let o = selected[i];
    if let Some(b) = o.git_branch {
        assert(flat(seq!["git_branch: "@, b@, "\n"@]) =~= "git_branch: "@ + b@ + "\n"@);
    }
    let p = selected_block(o, snippets[i]);
    assert(flat(p) =~= p[0] + p[1] + p[2] + p[3] + p[4] + p[5] + p[6] + p[7] + p[8] + p[9] + p[10]
        + p[11] + p[12] + p[13] + p[14] + p[15] + p[16]);
}

/// A removed memory is shown where it is still kept: its session, its file and its
/// summary.
pub proof fn removed_memories_are_shown(
    removed: Seq<Stage1OutputRef>,
    r: Stage1OutputRef,
    retained: Seq<Stage1Output>,
    stems: Seq<String>,
    p: int,
)
    ensures
        removed_blocks(Seq::empty(), retained, stems).len() == 0,
        (forall|i: int| 0 <= i < retained.len() ==> !names(r, #[trigger] retained[i]))
            ==> removed_blocks(removed.push(r), retained, stems) == removed_blocks(
            removed,
            retained,
            stems,
        ),
        0 <= p < retained.len() && names(r, retained[p]) && (forall|i: int|
            0 <= i < p ==> !names(r, #[trigger] retained[i])) ==> removed_blocks(
            removed.push(r),
            retained,
            stems,
        ) == removed_blocks(removed, retained, stems).push(
            "- session_id="@ + id_text(retained[p].session_id) + "\n  rollout_summary_file="@
                + stems[p]@ + ".md\n  rollout_summary="@ + trim_text(retained[p].rollout_summary@)
                + "\n"@,
        ),
{
    assert(removed.push(r).drop_last() =~= removed);
    place_is_first(retained, r);
    let q = place_of_ref(retained, r);
    if q < retained.len() {
        assert(names(r, retained[q]));
    }
    if 0 <= p < retained.len() && names(r, retained[p]) && (forall|i: int|
        0 <= i < p ==> !names(r, #[trigger] retained[i])) {
        if p < q {
            assert(!names(r, retained[p]));
        }
        assert(q == p);
        reveal_with_fuel(flat, 8);
        let b = crate::memory_prompts::removed_block(retained[p], stems[p]@);
        assert(flat(b) =~= b[0] + b[1] + b[2] + b[3] + b[4] + b[5] + b[6]);
    }
}

proof fn place_is_first(items: Seq<Stage1Output>, r: Stage1OutputRef)
    ensures
        0 <= place_of_ref(items, r) <= items.len(),
        place_of_ref(items, r) < items.len() ==> names(r, items[place_of_ref(items, r)]),
        forall|i: int| 0 <= i < place_of_ref(items, r) ==> !names(r, #[trigger] items[i]),
    decreases items.len(),
{
    if items.len() > 0 && items[0].ref_view() != r.view() {
        let t = items.drop_first();
        place_is_first(t, r);
        assert forall|i: int| 0 <= i < place_of_ref(items, r) implies !names(
            r,
            #[trigger] items[i],
        ) by {
            if i > 0 {
                assert(items[i] == t[i - 1]);
            } else if names(r, items[0]) {
                assert(opt_text(r.rollout_slug) == opt_text(items[0].rollout_slug));
            }
        }
        if place_of_ref(t, r) < t.len() {
            assert(t[place_of_ref(t, r)] == items[place_of_ref(items, r)]);
        }
    }
}

/// The answers are asked for in these forms: an object with these members and no others,
/// all of them required.
pub proof fn answers_are_asked_for_in_their_form(k: Seq<char>)
    ensures
        ({
            let one = stage1_schema_json()->Object_0;
            let two = phase2_schema_json()->Object_0;
            &&& one["type"@] == JsonView::String("object"@)
            &&& two["type"@] == JsonView::String("object"@)
            &&& one["additionalProperties"@] == JsonView::Bool(false)
            &&& two["additionalProperties"@] == JsonView::Bool(false)
            &&& one["properties"@]->Object_0.contains_key(k) <==> k == "raw_memory"@ || k
                == "rollout_summary"@ || k == "rollout_slug"@
            &&& two["properties"@]->Object_0.contains_key(k) <==> k == "memory_summary"@ || k
                == "memory_body"@
            &&& one["required"@]->Array_0.contains(JsonView::String(k)) <==> k == "raw_memory"@ || k
                == "rollout_summary"@ || k == "rollout_slug"@
            &&& two["required"@]->Array_0.contains(JsonView::String(k)) <==> k == "memory_summary"@
                || k == "memory_body"@
            &&& one["properties"@]->Object_0["raw_memory"@]->Object_0["type"@] == JsonView::String(
                "string"@,
            )
            &&& one["properties"@]->Object_0["rollout_summary"@]->Object_0["type"@]
                == JsonView::String("string"@)
            &&& one["properties"@]->Object_0["rollout_slug"@]->Object_0["type"@]
                == JsonView::Array(
                seq![JsonView::String("string"@), JsonView::String("null"@)],
            )
            &&& two["properties"@]->Object_0["memory_summary"@]->Object_0["type"@]
                == JsonView::String("string"@)
            &&& two["properties"@]->Object_0["memory_body"@]->Object_0["type"@]
                == JsonView::String("string"@)
        }),
{
    crate::schema_laws::names_differ();
    reveal_strlit("raw_memory");
    reveal_strlit("rollout_summary");
    reveal_strlit("rollout_slug");
    assert("raw_memory"@.len() == 10 && "rollout_summary"@.len() == 15);
    assert("rollout_slug"@.len() == 12);
    let slug = stage1_schema_json()->Object_0["properties"@]->Object_0["rollout_slug"@];
    assert(slug->Object_0["type"@]->Array_0 =~= seq![
        JsonView::String("string"@),
        JsonView::String("null"@),
    ]);
    let one = stage1_schema_json()->Object_0["required"@]->Array_0;
    let two = phase2_schema_json()->Object_0["required"@]->Array_0;
    assert(one.len() == 3 && two.len() == 2);
    assert(one[0] == JsonView::String("raw_memory"@) && one[1] == JsonView::String(
        "rollout_summary"@,
    ) && one[2] == JsonView::String("rollout_slug"@));
    assert(two[0] == JsonView::String("memory_summary"@) && two[1] == JsonView::String(
        "memory_body"@,
    ));
    assert(one.contains(one[0]) && one.contains(one[1]) && one.contains(one[2]));
    assert(two.contains(two[0]) && two.contains(two[1]));
}

// ---------------------------------------------------------------------------
// What is taken of an answer

/// What was learned is of the session that was asked about, as of its state then, holds
/// the answer without white space around it, and was not used yet.
pub proof fn answers_are_taken_over(
    o: Stage1Output,
    entry: EligibleEntry,
    parsed: StageOneModelOutput,
    at: Timestamp,
)
    requires
        is_answer(o, entry, parsed, at),
    ensures
        o.session_id == entry.session_id,
        o.rollout_path == entry.rollout_path,
        o.cwd == entry.cwd,
        o.git_branch == entry.git_branch,
        o.source_updated_at == entry.source_updated_at,
        o.generated_at == at,
        o.raw_memory@ == trim_text(parsed.raw_memory@),
        o.rollout_summary@ == trim_text(parsed.rollout_summary@),
        parsed.rollout_slug is None ==> o.rollout_slug is None,
        parsed.rollout_slug matches Some(s) ==> trim_text(s@).len() == 0 ==> o.rollout_slug is None,
        parsed.rollout_slug matches Some(s) ==> trim_text(s@).len() > 0 ==> o.rollout_slug is Some
            && o.rollout_slug->0@ == trim_text(s@),
        o.usage_count == 0,
        o.last_usage is None,
{
}

/// An answer is put together of its parts as they come; a whole item counts only where
/// nothing came before it.
pub proof fn answers_come_in_parts(answer: Seq<char>, event: ResponseEvent)
    ensures
        event matches ResponseEvent::OutputTextDelta(t) ==> answer_after(answer, event) == answer
            + t@,
        event matches ResponseEvent::OutputItemDone(Some(t)) ==> {
            &&& answer.len() == 0 ==> answer_after(answer, event) == t@
            &&& answer.len() > 0 ==> answer_after(answer, event) == answer
        },
        event matches ResponseEvent::OutputItemDone(None) ==> answer_after(answer, event) == answer,
        event is Completed || event is Other ==> answer_after(answer, event) == answer,
{
}

/// An answer is read up to its end, or up to a failure.
pub proof fn answers_are_read_to_their_end(events: Seq<Result<ResponseEvent, String>>, i: int)
    ensures
        0 <= i < events.len() && (events[i] is Err || events[i]->Ok_0 is Completed) && (forall|
            j: int,
        |
            0 <= j < i ==> (#[trigger] events[j]) is Ok && !(events[j]->Ok_0 is Completed))
            ==> events_taken(events) == i,
        (forall|j: int|
            0 <= j < events.len() ==> (#[trigger] events[j]) is Ok && !(
            events[j]->Ok_0 is Completed)) ==> events_taken(events) == events.len(),
    decreases events.len(),
{
    if events.len() > 0 && events[0] is Ok && !(events[0]->Ok_0 is Completed) {
        let t = events.drop_first();
        answers_are_read_to_their_end(t, i - 1);
        if 0 <= i < events.len() && (events[i] is Err || events[i]->Ok_0 is Completed) && (forall|
            j: int,
        |
            0 <= j < i ==> (#[trigger] events[j]) is Ok && !(events[j]->Ok_0 is Completed)) {
            assert(t[i - 1] == events[i]);
            assert forall|j: int| 0 <= j < i - 1 implies (#[trigger] t[j]) is Ok && !(
            t[j]->Ok_0 is Completed) by {
                assert(t[j] == events[j + 1]);
            }
        }
        if forall|j: int|
            0 <= j < events.len() ==> (#[trigger] events[j]) is Ok && !(
            events[j]->Ok_0 is Completed) {
            assert forall|j: int| 0 <= j < t.len() implies (#[trigger] t[j]) is Ok && !(
            t[j]->Ok_0 is Completed) by {
                assert(t[j] == events[j + 1]);
            }
        }
    }
}

/// What is read is put together event by event.
pub proof fn answers_are_put_together_in_order(
    events: Seq<Result<ResponseEvent, String>>,
    e: ResponseEvent,
)
    ensures
        answer_of(Seq::empty()).len() == 0,
        answer_of(events.push(Ok(e))) == answer_after(answer_of(events), e),
{
    assert(events.push(Ok::<ResponseEvent, String>(e)).drop_last() =~= events);
}

// ---------------------------------------------------------------------------
// Logs

/// A path is its parts below its base, in order.
pub proof fn paths_are_their_parts(p: JoinedPath, base: Seq<char>, parts: Seq<Seq<char>>, i: int)
    requires
        is_path(p, base, parts),
    ensures
        p.base@ == base,
        p.parts@.len() == parts.len(),
        0 <= i < parts.len() ==> p.parts@[i]@ == parts[i],
{
    let f = |s: &'static str| s@;
    assert(p.parts@.map_values(f).len() == p.parts@.len());
    if 0 <= i < parts.len() {
        assert(p.parts@.map_values(f)[i] == p.parts@[i]@);
    }
}

/// The logs of old are moved to where they are now.
pub proof fn logs_are_moved_to_their_place(m: LogMove, code_home: Seq<char>, legacy: Seq<char>)
    requires
        moves(m, code_home, legacy),
    ensures
        m.source.base@ == code_home,
        m.target.base@ == code_home,
        m.source.parts@.len() == 1,
        m.source.parts@[0]@ == legacy,
        m.target.parts@.len() == 1,
        m.target.parts@[0]@ == "debug_logs"@,
{
    let f = |s: &'static str| s@;
    assert(m.source.parts@.map_values(f).len() == 1);
    assert(m.target.parts@.map_values(f).len() == 1);
    assert(m.source.parts@.map_values(f)[0] == m.source.parts@[0]@);
    assert(m.target.parts@.map_values(f)[0] == m.target.parts@[0]@);
}

/// A file keeps its name where that is free; else it gets one with the least number that
/// is free, counted from one.
pub proof fn moved_files_keep_their_names(name: Seq<char>, taken: Seq<Seq<char>>, r: Seq<char>, k: nat)
    requires
        is_free_name(name, taken, r),
    ensures
        !taken.contains(name) ==> r == name,
        taken.contains(name) && 1 <= k && !taken.contains(name + ".legacy."@ + decimal(k)) && (
        forall|j: nat| 1 <= j < k ==> #[trigger] taken.contains(legacy_name(name, j))) ==> r == name
            + ".legacy."@ + decimal(k),
{
    if taken.contains(name) && 1 <= k && !taken.contains(legacy_name(name, k)) && (forall|j: nat|
        1 <= j < k ==> #[trigger] taken.contains(legacy_name(name, j))) {
        let m = choose|m: nat| #[trigger]
            crate::log_dirs::is_first_free(name, taken, m) && r == legacy_name(name, m);
        if m < k {
            assert(taken.contains(legacy_name(name, m)));
        } else if k < m {
            assert(taken.contains(legacy_name(name, k)));
        }
    }
}

} // verus!
