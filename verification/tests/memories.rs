use code_core::json::{json_str, json_strings, JsonValue};
use code_core::memory_items::{
    any_line_uses_mcp_or_web_search, citation_text_count, event_uses_mcp_or_web_search,
    is_memory_excluded_instruction_item, rollout_uses_mcp_or_web_search, sanitize_response_item,
    serialize_memory_relevant_rollout, ContentItem, EventKind, ResponseItem, RolloutItem,
    RolloutLine, StrippedText,
};
use code_core::memory_prompts::{
    build_memory_tool_developer_instructions, build_phase2_user_prompt, build_stage1_user_prompt,
    collect_json_response, consolidated_texts, memory_summary_to_show, phase2_output_schema,
    phase2_prompt, phase2_removed_payload, phase2_selected_payload, rollout_byte_limit,
    rollout_token_limit, snippet_sources, stage1_output_at, stage1_output_schema, stage1_prompt,
    stage1_rollout_contents, stage_one_model, stage_two_model, ConsolidationOutput, MemorySnippet,
    Phase2PromptTexts, ResponseEvent, StageOneModelOutput, PHASE2_ENTRY_SNIPPET_BYTES,
    PHASE2_SELECTED_PAYLOAD_BYTES,
};
use code_core::memory_select::{
    build_phase2_selection, build_phase2_selection_at, Phase2Selection, Phase2State, Phase2Step,
};
use code_core::memory_store::{
    is_entry_idle_enough, load_or_default, max_optional_datetime, memory_md_path, memory_root,
    memory_summary_path, merge_stage1_results, merge_usage_metadata,
    merge_usage_metadata_from_persisted, note_memory_usage, phase2_state_path,
    prune_stage1_outputs_at, stage1_entries_at, stage1_outputs_path, state_dir,
    upsert_stage1_output, EligibleEntry, MemoriesConfig, RefreshClock, SessionIndexEntry,
    SessionSource, Stage1Output, StoredOutputs,
};
use code_core::omap::OrderedMap;
use code_core::protocol::{
    ModelFamily, ReasoningEffort, ReasoningSummary, TruncationPolicy, WebSearchToolType,
};
use code_core::time::Timestamp;

const PREFIX: &str = "# AGENTS.md instructions for ";

fn ts(text: &str) -> Timestamp {
    Timestamp::parse(text).expect("a time")
}

fn id() -> u128 {
    uuid::Uuid::new_v4().as_u128()
}

fn output(session_id: u128, usage_count: u64, at: &str) -> Stage1Output {
    Stage1Output {
        session_id,
        rollout_path: "/tmp/rollout.jsonl".to_string(),
        cwd: "/tmp".to_string(),
        git_branch: None,
        source_updated_at: ts(at),
        generated_at: ts(at),
        raw_memory: "raw".to_string(),
        rollout_summary: "summary".to_string(),
        rollout_slug: Some("slug".to_string()),
        usage_count,
        last_usage: None,
    }
}

/// The text, with its middle left out where it is too long.
fn truncate_middle(text: &str, max_bytes: usize) -> String {
    if text.len() <= max_bytes {
        return text.to_string();
    }
    let half = max_bytes / 2;
    let left = (text.len() - max_bytes) / 4;
    format!("{}…{left} tokens truncated…{}", &text[..half], &text[text.len() - half..])
}

#[test]
fn phase2_selection_prioritizes_usage() {
    let older = output(id(), 10, "2026-01-01T00:00:00Z");
    let newer = output(id(), 1, "2026-02-01T00:00:00Z");
    let now = ts("2026-03-01T00:00:00Z");
    let selection = build_phase2_selection_at(&[newer, older.clone()], 1, 365, &[], now);
    assert_eq!(selection.selected, vec![older]);
}

#[test]
fn phase2_selection_drops_unused_memories_outside_window() {
    let days_ago = |days: i64| {
        let now = Timestamp::now();
        Timestamp::new(now.secs() - days * 86_400, now.nanos()).expect("a time").to_rfc3339()
    };
    let stale = output(id(), 1, &days_ago(90));
    let fresh = output(id(), 1, &days_ago(5));
    let selection = build_phase2_selection(&[stale, fresh.clone()], 5, 30, &[]);
    assert_eq!(selection.selected, vec![fresh]);
}

fn prompt_texts(selection: &Phase2Selection) -> Phase2PromptTexts {
    let snippets: Vec<MemorySnippet> = selection
        .selected
        .iter()
        .map(|o| {
            let (summary, raw_memory) = snippet_sources(o);
            MemorySnippet {
                stem: "stem".to_string(),
                summary: truncate_middle(&summary, PHASE2_ENTRY_SNIPPET_BYTES),
                raw_memory: truncate_middle(&raw_memory, PHASE2_ENTRY_SNIPPET_BYTES),
            }
        })
        .collect();
    let stems: Vec<String> = selection.retained_artifacts.iter().map(|_| "kept".to_string()).collect();
    let selected_payload = phase2_selected_payload(selection, &snippets);
    let removed_payload = phase2_removed_payload(selection, &stems);
    Phase2PromptTexts {
        memory_root: "/tmp/memories".to_string(),
        selected_stems: selection.selected.iter().map(|_| "stem".to_string()).collect(),
        removed_stems: selection.removed.iter().map(|_| "gone".to_string()).collect(),
        selected_payload: truncate_middle(&selected_payload, PHASE2_SELECTED_PAYLOAD_BYTES),
        removed_payload: truncate_middle(&removed_payload, PHASE2_SELECTED_PAYLOAD_BYTES / 2),
    }
}

#[test]
fn phase2_prompt_payload_is_truncated() {
    let mut item = output(id(), 1, "2026-02-01T00:00:00Z");
    item.raw_memory = "x".repeat(PHASE2_SELECTED_PAYLOAD_BYTES * 2);
    item.rollout_summary = "y".repeat(PHASE2_ENTRY_SNIPPET_BYTES * 2);
    let selection = Phase2Selection {
        selected: vec![item.clone()],
        retained_artifacts: vec![item],
        removed: Vec::new(),
    };

    let prompt = build_phase2_user_prompt(&[], &selection, &prompt_texts(&selection));
    assert!(prompt.len() < PHASE2_SELECTED_PAYLOAD_BYTES * 2);
    assert!(prompt.contains("tokens truncated"));
}

#[test]
fn rollout_skip_flag_detects_mcp_function_calls() {
    let item = RolloutItem::ResponseItem(ResponseItem::FunctionCall {
        name: "mcp__context7__resolve".to_string(),
        namespace: None,
        arguments: "{}".to_string(),
        call_id: "call-1".to_string(),
        id: None,
    });

    assert!(rollout_uses_mcp_or_web_search(&item));
}

#[test]
fn rollout_skip_flag_detects_mcp_events() {
    let item = RolloutItem::EventMsg(Some(EventKind::McpToolCallBegin));

    assert!(rollout_uses_mcp_or_web_search(&item));
}

fn message(role: &str, text: &str) -> RolloutItem {
    RolloutItem::ResponseItem(ResponseItem::Message {
        id: None,
        role: role.to_string(),
        content: vec![ContentItem::InputText { text: text.to_string() }],
        end_turn: None,
        phase: None,
    })
}

fn line(item: RolloutItem, json: &str) -> RolloutLine {
    RolloutLine { item, kept_for_memories: true, json: Ok(json.to_string()) }
}

#[test]
fn serialize_memory_relevant_rollout_excludes_agents_instructions() {
    let text = "# AGENTS.md instructions for /tmp\n\n<INSTRUCTIONS>\nbody\n</INSTRUCTIONS>";
    let lines = vec![line(message("user", text), text)];

    assert_eq!(serialize_memory_relevant_rollout(&lines, PREFIX).unwrap(), "");
}

#[test]
fn serialize_memory_relevant_rollout_excludes_skill_payloads() {
    let text = "<skill>\n<name>demo</name>\n<path>skills/demo/SKILL.md</path>\nbody\n</skill>";
    let lines = vec![line(message("user", text), text)];

    assert_eq!(serialize_memory_relevant_rollout(&lines, PREFIX).unwrap(), "");
}

#[test]
fn serialize_memory_relevant_rollout_keeps_regular_user_messages() {
    let text = "normal user request";
    let lines = vec![line(message("user", text), text)];

    let serialized = serialize_memory_relevant_rollout(&lines, PREFIX).unwrap();
    assert!(serialized.contains("normal user request"));
}

#[test]
fn stored_usage_survives_a_refresh() {
    let session = id();
    let stored_usage = Some(ts("2026-02-03T10:00:00Z"));
    let mut stored = output(session, 9, "2026-02-01T00:00:00Z");
    stored.last_usage = stored_usage;
    let mut refreshed = output(session, 2, "2026-02-01T00:00:00Z");
    refreshed.last_usage = Some(ts("2026-02-03T08:00:00Z"));
    let mut outputs = vec![refreshed];
    merge_usage_metadata(&mut outputs, &[stored]);
    assert_eq!(outputs.len(), 1);
    assert_eq!(outputs[0].usage_count, 9);
    assert_eq!(outputs[0].last_usage, stored_usage);
    let once = outputs[0].clone();
    merge_usage_metadata(&mut outputs, &[once.clone()]);
    assert_eq!(outputs[0], once);
}

#[test]
fn nothing_stored_changes_nothing() {
    let session = id();
    let mut outputs = vec![output(session, 3, "2026-02-01T00:00:00Z")];
    merge_usage_metadata(&mut outputs, &[]);
    assert_eq!(outputs[0].session_id, session);
    assert_eq!(outputs[0].usage_count, 3);
}

#[test]
fn what_was_stored_decides_what_is_stored() {
    let session = id();
    let before = output(session, 3, "2026-02-01T00:00:00Z");

    let mut outputs = vec![before.clone()];
    let stored = StoredOutputs::Found(vec![output(session, 9, "2026-02-01T00:00:00Z")]);
    assert_eq!(merge_usage_metadata_from_persisted(&mut outputs, stored), Ok(()));
    assert_eq!(outputs[0].usage_count, 9);

    for stored in [StoredOutputs::Missing, StoredOutputs::Malformed] {
        let mut outputs = vec![before.clone()];
        assert_eq!(merge_usage_metadata_from_persisted(&mut outputs, stored), Ok(()));
        assert_eq!(outputs, vec![before.clone()]);
    }

    let mut outputs = vec![before.clone()];
    let stored = StoredOutputs::Unreadable("no permission".to_string());
    let refused = merge_usage_metadata_from_persisted(&mut outputs, stored);
    assert_eq!(refused, Err("no permission".to_string()));
    assert_eq!(outputs, vec![before.clone()]);

    assert_eq!(load_or_default(StoredOutputs::Found(vec![before.clone()])), vec![before]);
    assert_eq!(load_or_default(StoredOutputs::Unreadable("x".to_string())), vec![]);
    assert_eq!(load_or_default(StoredOutputs::Malformed), vec![]);
}

// ---------------------------------------------------------------------------
// Further cases

#[test]
fn memories_have_their_places() {
    assert_eq!(memory_root("/h").parts, vec!["memories"]);
    assert_eq!(state_dir("/h").parts, vec!["memories", ".state"]);
    assert_eq!(stage1_outputs_path("/h").parts, vec!["memories", ".state", "stage1_outputs.json"]);
    assert_eq!(phase2_state_path("/h").parts, vec!["memories", ".state", "phase2_state.json"]);
    assert_eq!(memory_summary_path("/h").parts, vec!["memories", "memory_summary.md"]);
    assert_eq!(memory_md_path("/h").parts, vec!["memories", "MEMORY.md"]);
    assert_eq!(memory_md_path("/h").base, "/h");
}

#[test]
fn refresh_waits_five_minutes() {
    let mut clock = RefreshClock { last_nanos: None };
    assert!(clock.should_refresh_now(1_000));
    assert!(!clock.should_refresh_now(300_000_000_999));
    assert!(!clock.should_refresh_now(0));
    assert_eq!(clock.last_nanos, Some(1_000));
    assert!(clock.should_refresh_now(300_000_001_000));
    assert_eq!(clock.last_nanos, Some(300_000_001_000));
}

#[test]
fn usage_is_noted() {
    let (a, b) = (id(), id());
    let mut outputs = vec![
        output(a, u64::MAX, "2026-02-01T00:00:00Z"),
        output(b, 1, "2026-02-01T00:00:00Z"),
    ];
    let now = ts("2026-02-02T00:00:00Z");
    assert!(note_memory_usage(&mut outputs, &[a, a], now));
    assert_eq!(outputs[0].usage_count, u64::MAX);
    assert_eq!(outputs[0].last_usage, Some(now));
    assert_eq!(outputs[1].last_usage, None);
    assert!(!note_memory_usage(&mut outputs, &[id()], now));
    assert!(!note_memory_usage(&mut outputs, &[], now));
}

#[test]
fn new_memory_takes_the_place_of_the_old_one() {
    let a = id();
    let mut old = output(a, 5, "2026-02-01T00:00:00Z");
    old.last_usage = Some(ts("2026-02-02T00:00:00Z"));
    let other = output(id(), 1, "2026-02-01T00:00:00Z");
    let mut outputs = vec![old.clone(), other.clone()];
    upsert_stage1_output(&mut outputs, output(a, 0, "2026-03-01T00:00:00Z"));
    assert_eq!(outputs.len(), 2);
    assert_eq!(outputs[0], other);
    assert_eq!(outputs[1].usage_count, 5);
    assert_eq!(outputs[1].last_usage, old.last_usage);
    assert_eq!(outputs[1].source_updated_at, ts("2026-03-01T00:00:00Z"));
    merge_stage1_results(&mut outputs, &[None, Some(output(id(), 0, "2026-03-01T00:00:00Z"))]);
    assert_eq!(outputs.len(), 3);
}

#[test]
fn later_of_two_times() {
    let (a, b) = (ts("2026-01-01T00:00:00Z"), ts("2026-01-02T00:00:00Z"));
    assert_eq!(max_optional_datetime(Some(a), Some(b)), Some(b));
    assert_eq!(max_optional_datetime(None, Some(a)), Some(a));
    assert_eq!(max_optional_datetime(Some(a), None), Some(a));
    assert_eq!(max_optional_datetime(None, None), None);
}

fn entry(session_id: u128, last_event_at: &str) -> SessionIndexEntry {
    SessionIndexEntry {
        session_id,
        rollout_path: "/h/r.jsonl".to_string(),
        cwd_real: "/w".to_string(),
        git_branch: Some("main".to_string()),
        last_event_at: last_event_at.to_string(),
        last_user_snippet: None,
        session_source: SessionSource::Cli,
        deleted: false,
        archived: false,
    }
}

#[test]
fn memories_of_gone_or_old_sessions_are_dropped() {
    let ids: Vec<u128> = (0..5).map(|_| id()).collect();
    let now = ts("2026-02-10T00:00:00Z");
    let mut deleted = entry(ids[1], "2026-02-09T00:00:00Z");
    deleted.deleted = true;
    let mut other = entry(ids[2], "2026-02-09T00:00:00Z");
    other.session_source = SessionSource::Other;
    let entries = [
        entry(ids[0], "2026-02-09T00:00:00Z"),
        deleted,
        other,
        entry(ids[3], "2025-02-09T00:00:00Z"),
        entry(ids[4], "no time"),
    ];
    let mut outputs: Vec<Stage1Output> =
        ids.iter().map(|i| output(*i, 1, "2026-02-01T00:00:00Z")).collect();
    outputs.push(output(id(), 1, "2026-02-01T00:00:00Z"));
    prune_stage1_outputs_at(&mut outputs, &entries, 30, now);
    assert_eq!(outputs.len(), 1);
    assert_eq!(outputs[0].session_id, ids[0]);
    prune_stage1_outputs_at(&mut outputs, &entries, 30, now);
    assert_eq!(outputs.len(), 1);
}

fn memories_config() -> MemoriesConfig {
    MemoriesConfig {
        max_raw_memories_for_global: 10,
        max_unused_days: 30,
        max_rollout_age_days: 30,
        max_rollouts_per_startup: 2,
        min_rollout_idle_hours: 6,
        no_memories_if_mcp_or_web_search: true,
        phase_1_model: None,
        phase_2_model: Some("own".to_string()),
    }
}

#[test]
fn sessions_at_rest_are_looked_at() {
    let ids: Vec<u128> = (0..5).map(|_| id()).collect();
    let now = ts("2026-02-10T00:00:00Z");
    let entries = [
        entry(ids[0], "2026-02-09T23:00:00Z"),
        entry(ids[1], "2026-02-09T00:00:00Z"),
        entry(ids[2], "2026-02-08T00:00:00Z"),
        entry(ids[3], "2026-02-07T00:00:00Z"),
    ];
    let known = [output(ids[1], 1, "2026-02-09T00:00:00Z")];
    let due = stage1_entries_at(&entries, &known, &memories_config(), now);
    assert_eq!(due.len(), 1);
    assert_eq!(due[0].session_id, ids[2]);
    assert_eq!(due[0].rollout_path, "/h/r.jsonl");
    assert!(is_entry_idle_enough(ts("2026-02-09T18:00:00Z"), 6, now));
    assert!(!is_entry_idle_enough(ts("2026-02-09T18:00:01Z"), 6, now));
    assert!(is_entry_idle_enough(now, -3, now));
    assert!(EligibleEntry::from_catalog_entry(&entry(1, "x")).is_none());
}

#[test]
fn selection_says_what_left_it() {
    let now = ts("2026-02-10T00:00:00Z");
    let kept = output(id(), 9, "2026-02-01T00:00:00Z");
    let left = output(id(), 1, "2026-02-02T00:00:00Z");
    let previous = [kept.to_ref(), left.to_ref()];
    let selection =
        build_phase2_selection_at(&[left.clone(), kept.clone()], 1, 30, &previous, now);
    assert_eq!(selection.selected, vec![kept.clone()]);
    assert_eq!(selection.retained_artifacts, vec![left.clone(), kept]);
    assert_eq!(selection.removed, vec![left.to_ref()]);
}

#[test]
fn state_follows_the_selection() {
    let now = ts("2026-02-10T00:00:00Z");
    let a = output(id(), 2, "2026-02-01T00:00:00Z");
    let b = output(id(), 1, "2026-02-05T00:00:00Z");
    let selection = build_phase2_selection_at(&[a.clone(), b.clone()], 5, 30, &[], now);
    let mut state = Phase2State::default();
    assert_eq!(state.begin(&selection), Phase2Step::Consolidate);
    state.complete(&selection);
    assert_eq!(state.selected, vec![a.to_ref(), b.to_ref()]);
    assert_eq!(state.completion_watermark, Some(ts("2026-02-05T00:00:00Z")));

    let none = build_phase2_selection_at(&[], 5, 30, &state.selected, now);
    assert_eq!(state.begin(&none), Phase2Step::RemoveSummary);
    assert_eq!(state, Phase2State::default());
}

#[test]
fn prompt_for_the_summary() {
    let mut item = output(1, 1, "2026-02-01T00:00:00Z");
    item.git_branch = Some("main".to_string());
    let gone = output(2, 1, "2026-01-01T00:00:00Z");
    let selection = Phase2Selection {
        selected: vec![item.clone()],
        retained_artifacts: vec![item, gone.clone()],
        removed: vec![gone.to_ref()],
    };
    let mut recent = entry(3, "2026-02-09T00:00:00Z");
    recent.last_user_snippet = Some("hello".to_string());
    let entries = [recent, entry(4, "2026-02-08T00:00:00Z")];
    let prompt = build_phase2_user_prompt(&entries, &selection, &prompt_texts(&selection));
    assert_eq!(
        prompt,
        "memory_root: /tmp/memories\n\nSelection diff:\n\
         - [selected] session_id=00000000-0000-0000-0000-000000000001, \
         rollout_summary_file=rollout_summaries/stem.md\n\n\
         Removed from previous selection:\n\
         - session_id=00000000-0000-0000-0000-000000000002\n  rollout_summary_file=kept.md\n  \
         rollout_summary=summary\n\n\n\
         Recent session context:\n\
         - 2026-02-09T00:00:00Z | 00000000-0000-0000-0000-000000000003 | hello\n\
         - 2026-02-08T00:00:00Z | 00000000-0000-0000-0000-000000000004 | (no user snippet)\n\n\
         Selected memory inputs:\n\
         ## Session 00000000-0000-0000-0000-000000000001\n\
         updated_at: 2026-02-01T00:00:00+00:00\ncwd: /tmp\ngit_branch: main\n\
         rollout_path: /tmp/rollout.jsonl\nrollout_summary_file: stem.md\n\n\
         Rollout summary:\nsummary\n\nRaw memory:\nraw\n\n\n\n\
         Use the selected inputs to write a concise, searchable MEMORY.md and a compact \
         memory_summary.md."
    );
}

fn family(slug: &str) -> ModelFamily {
    ModelFamily {
        slug: slug.to_string(),
        base_instructions: "built-in".to_string(),
        context_window: Some(1),
        max_output_tokens: Some(2),
        auto_compact_token_limit: Some(3),
        truncation_policy: TruncationPolicy::Tokens(4),
        apply_patch_tool_type: None,
        web_search_tool_type: WebSearchToolType::Text,
        uses_local_shell_tool: false,
        uses_shell_command_tool: true,
        supports_image_detail_original: false,
        supports_image_generation: true,
        additional_speed_tiers: Vec::new(),
        supports_search_tool: false,
        supports_reasoning_summaries: false,
        supports_parallel_tool_calls: true,
        use_responses_lite: false,
        prefer_websockets: false,
        default_reasoning_effort: Some(ReasoningEffort::Low),
        default_reasoning_summary: ReasoningSummary::Auto,
    }
}

#[test]
fn prompt_for_a_session() {
    let e = EligibleEntry::from_catalog_entry(&entry(1, "2026-02-09T01:00:00+01:00")).expect("due");
    assert_eq!(
        build_stage1_user_prompt(&e, "cut"),
        "rollout_path: /h/r.jsonl\nrollout_cwd: /w\ngit_branch: main\n\
         updated_at: 2026-02-09T00:00:00+00:00\n\nRollout:\ncut"
    );
    let prompt = stage1_prompt(&memories_config(), &e, "cut", "system", family("mini"));
    assert_eq!(prompt.model_family_override, Some(family("mini")));
    assert_eq!(prompt.model_override, Some("gpt-5.1-codex-mini".to_string()));
    assert_eq!(prompt.base_instructions_override, Some("system".to_string()));
    assert_eq!(prompt.output_schema, Some(stage1_output_schema()));
    assert!(!prompt.store && !prompt.include_additional_instructions);
    assert_eq!(stage_one_model(&memories_config()), "gpt-5.1-codex-mini");
    assert_eq!(stage_two_model(&memories_config()), "own");
    let selection =
        Phase2Selection { selected: vec![], retained_artifacts: vec![], removed: vec![] };
    let second_texts = prompt_texts(&selection);
    let second = phase2_prompt(
        &memories_config(),
        &[],
        &selection,
        &second_texts,
        "system",
        family("own"),
    );
    assert_eq!(second.model_family_override, Some(family("own")));
    assert_eq!(second.model_override, Some("own".to_string()));
    assert_eq!(second.output_schema, Some(phase2_output_schema()));
}

#[test]
fn a_part_of_the_context_is_used() {
    assert_eq!(rollout_token_limit(None), 150_000);
    assert_eq!(rollout_token_limit(Some(1000)), 700);
    assert_eq!(rollout_token_limit(Some(1)), 1);
    assert_eq!(rollout_byte_limit(Some(1000)), 2800);
    assert_eq!(rollout_token_limit(Some(u64::MAX)), (u64::MAX / 100) as usize);
}

fn obj(entries: Vec<(&str, JsonValue)>) -> JsonValue {
    let mut m = OrderedMap::new();
    for (k, v) in entries {
        m.insert(k.to_string(), v);
    }
    JsonValue::Object(m)
}

fn strings(v: &[&str]) -> Vec<String> {
    v.iter().map(|s| s.to_string()).collect()
}

#[test]
fn answers_have_a_schema() {
    let text = || obj(vec![("type", json_str("string"))]);
    assert_eq!(
        stage1_output_schema(),
        obj(vec![
            ("type", json_str("object")),
            (
                "properties",
                obj(vec![
                    ("raw_memory", text()),
                    ("rollout_summary", text()),
                    ("rollout_slug", obj(vec![("type", json_strings(&strings(&["string", "null"])))])),
                ])
            ),
            ("required", json_strings(&strings(&["raw_memory", "rollout_summary", "rollout_slug"]))),
            ("additionalProperties", JsonValue::Bool(false)),
        ])
    );
    assert_eq!(
        phase2_output_schema(),
        obj(vec![
            ("type", json_str("object")),
            ("properties", obj(vec![("memory_summary", text()), ("memory_body", text())])),
            ("required", json_strings(&strings(&["memory_summary", "memory_body"]))),
            ("additionalProperties", JsonValue::Bool(false)),
        ])
    );
}

#[test]
fn summary_is_shown_in_the_template() {
    assert_eq!(memory_summary_to_show("  a \n"), Some("a".to_string()));
    assert_eq!(memory_summary_to_show(" \n"), None);
    assert_eq!(
        build_memory_tool_developer_instructions(
            "at {{ base_path }}: {{ memory_summary }} / {{ memory_summary }}",
            "/h/memories",
            " s "
        ),
        Some("at /h/memories: s / s".to_string())
    );
    assert_eq!(build_memory_tool_developer_instructions("x", "/h", "  "), None);
}

fn answer(text: &str) -> ResponseItem {
    ResponseItem::Message {
        id: None,
        role: "assistant".to_string(),
        content: vec![
            ContentItem::OutputText { text: text.to_string() },
            ContentItem::InputText { text: "in".to_string() },
            ContentItem::OutputText { text: "b".to_string() },
        ],
        end_turn: None,
        phase: None,
    }
}

#[test]
fn citations_leave_the_answer() {
    assert_eq!(citation_text_count(&answer("a")), 2);
    let stripped = vec![
        StrippedText { text: "A".to_string(), rollout_ids: vec![7] },
        StrippedText { text: "B".to_string(), rollout_ids: vec![8, 9] },
    ];
    let (item, ids) = sanitize_response_item(answer("a"), stripped);
    assert_eq!(ids, vec![7, 8, 9]);
    let ResponseItem::Message { content, .. } = item else {
        panic!("a message");
    };
    assert_eq!(
        content,
        vec![
            ContentItem::OutputText { text: "A".to_string() },
            ContentItem::InputText { text: "in".to_string() },
            ContentItem::OutputText { text: "B".to_string() },
        ]
    );
    let (other, ids) = sanitize_response_item(ResponseItem::WebSearchCall, vec![]);
    assert_eq!(other, ResponseItem::WebSearchCall);
    assert!(ids.is_empty());
}

#[test]
fn searches_and_servers_are_noticed() {
    for kind in [
        EventKind::McpToolCallBegin,
        EventKind::McpToolCallEnd,
        EventKind::WebSearchBegin,
        EventKind::WebSearchComplete,
    ] {
        assert!(event_uses_mcp_or_web_search(kind));
    }
    assert!(!event_uses_mcp_or_web_search(EventKind::Other));
    assert!(rollout_uses_mcp_or_web_search(&RolloutItem::ResponseItem(ResponseItem::WebSearchCall)));
    assert!(!rollout_uses_mcp_or_web_search(&RolloutItem::Event(None)));
    assert!(!rollout_uses_mcp_or_web_search(&message("user", "mcp__")));
    assert!(!is_memory_excluded_instruction_item(
        &message("assistant", "# AGENTS.md instructions for /"),
        PREFIX
    ));
}

#[test]
fn rollout_is_read_for_a_memory() {
    let config = memories_config();
    let plain = || line(message("user", "hi"), "{hi}");
    assert_eq!(
        stage1_rollout_contents(&config, &[plain(), plain()], PREFIX),
        Ok(Some("{hi}\n{hi}".to_string()))
    );
    let search = line(RolloutItem::ResponseItem(ResponseItem::WebSearchCall), "{s}");
    assert!(any_line_uses_mcp_or_web_search(std::slice::from_ref(&search)));
    assert_eq!(stage1_rollout_contents(&config, &[plain(), search], PREFIX), Ok(None));
    let mut dropped = plain();
    dropped.kept_for_memories = false;
    assert_eq!(stage1_rollout_contents(&config, &[dropped], PREFIX), Ok(None));
    let mut broken = plain();
    broken.json = Err("bad".to_string());
    assert_eq!(
        stage1_rollout_contents(&config, &[plain(), broken], PREFIX),
        Err("bad".to_string())
    );
}

#[test]
fn answer_becomes_a_memory() {
    let e = || EligibleEntry::from_catalog_entry(&entry(5, "2026-02-09T00:00:00Z")).expect("due");
    let parsed = |raw: &str, slug: Option<&str>| StageOneModelOutput {
        raw_memory: raw.to_string(),
        rollout_summary: " s ".to_string(),
        rollout_slug: slug.map(str::to_string),
    };
    let at = ts("2026-02-10T00:00:00Z");
    let made = stage1_output_at(e(), &parsed(" r ", Some(" x ")), at).expect("a memory");
    assert_eq!(made.session_id, 5);
    assert_eq!(made.raw_memory, "r");
    assert_eq!(made.rollout_summary, "s");
    assert_eq!(made.rollout_slug, Some("x".to_string()));
    assert_eq!(made.generated_at, at);
    assert_eq!((made.usage_count, made.last_usage), (0, None));
    let blank = stage1_output_at(e(), &parsed("r", Some("  ")), at).expect("a memory");
    assert_eq!(blank.rollout_slug, None);
    assert!(stage1_output_at(e(), &parsed("  ", None), at).is_none());
    assert_eq!(
        consolidated_texts(&ConsolidationOutput {
            memory_summary: " a ".to_string(),
            memory_body: "b\n".to_string(),
        }),
        ("a".to_string(), "b".to_string())
    );
}

#[test]
fn answer_is_collected() {
    let delta = |s: &str| Ok(ResponseEvent::OutputTextDelta(s.to_string()));
    let done = |s: &str| Ok(ResponseEvent::OutputItemDone(Some(s.to_string())));
    assert_eq!(
        collect_json_response(&[delta("a"), delta("b"), done("whole"), Ok(ResponseEvent::Completed), delta("c")]),
        Ok("ab".to_string())
    );
    assert_eq!(
        collect_json_response(&[Ok(ResponseEvent::Other), done("whole"), done("again")]),
        Ok("whole".to_string())
    );
    assert_eq!(
        collect_json_response(&[delta("a"), Err("lost".to_string())]),
        Err("lost".to_string())
    );
    assert_eq!(collect_json_response(&[]), Ok(String::new()));
}
