//! The hooks and commands of a project.

use crate::exec::{
    cut_text, identifier, join_text_chunks, non_empty, project_hook_execution_policy,
    sanitize_identifier, trimmed_non_empty, truncate_payload, ExecParams, SandboxType,
};
use crate::exec_events::{ExecCommandContext, ExecDuration, ExecToolCallOutput, ProjectHookEvent};
use crate::json::{
    json_int, json_map, json_object, json_put, json_str, json_strings, json_uint, strings_view,
    JsonValue, JsonView, NumberView,
};
use crate::json_text::{all_integers, json_text, to_json_text};
use crate::omap::OrderedMap;
use crate::protocol::SandboxPolicy;
use crate::text::{
    clone_strings, concat, decimal, decimal_text, flat, join, joined, opt_text, part_texts, texts,
    trim, trim_text,
};
use vstd::prelude::*;

verus! {

broadcast use vstd::seq_lib::group_seq_properties;

/// A moment at which hooks may run, with its name and its short name.
#[derive(Debug, PartialEq, Eq)]
pub struct HookMoment {
    pub event: ProjectHookEvent,
    pub name: String,
    pub slug: String,
}

/// A hook of a project.
#[derive(Debug, PartialEq)]
pub struct ProjectHook {
    pub event: ProjectHookEvent,
    pub name: Option<String>,
    pub command: Vec<String>,
    pub env: OrderedMap<String>,
    pub timeout_ms: Option<u64>,
}

/// A command of a project.
#[derive(Debug, PartialEq)]
pub struct ProjectCommand {
    pub name: String,
    pub description: Option<String>,
    pub command: Vec<String>,
    pub env: OrderedMap<String>,
    pub timeout_ms: Option<u64>,
}

/// The number of milliseconds.
pub open spec fn millis(d: ExecDuration) -> int {
    d.secs * 1000 + d.nanos / 1_000_000
}

impl ExecDuration {
    /// The number of milliseconds.
    pub fn as_millis(&self) -> (r: u64)
        requires
            millis(*self) <= u64::MAX,
        ensures
            r == millis(*self),
    {
        self.secs * 1000 + (self.nanos / 1_000_000) as u64
    }
}

/// A number that may be missing, as JSON.
pub open spec fn optional_number(n: Option<u64>) -> JsonView {
    match n {
        Some(x) => JsonView::Number(NumberView::Int(x as int)),
        None => JsonView::Null,
    }
}

/// A text that may be missing, as JSON.
pub open spec fn optional_text(t: Option<Seq<char>>) -> JsonView {
    match t {
        Some(x) => JsonView::String(x),
        None => JsonView::Null,
    }
}

fn optional_number_value(n: Option<u64>) -> (v: JsonValue)
    ensures
        v.view() == optional_number(n),
{
    match n {
        Some(x) => json_uint(x),
        None => JsonValue::Null,
    }
}

fn optional_text_value(t: Option<&str>) -> (v: JsonValue)
    ensures
        v.view() == optional_text(
            match t {
                Some(x) => Some(x@),
                None => None,
            },
        ),
{
    match t {
        Some(x) => json_str(x),
        None => JsonValue::Null,
    }
}

/// What every hook around a command is told.
pub open spec fn exec_payload_base(
    name: Seq<char>,
    ctx: ExecCommandContext,
    params: ExecParams,
) -> Map<Seq<char>, JsonView> {
    Map::<Seq<char>, JsonView>::empty().insert("event"@, JsonView::String(name)).insert(
        "call_id"@,
        JsonView::String(ctx.call_id@),
    ).insert("cwd"@, JsonView::String(ctx.cwd@)).insert(
        "command"@,
        strings_view(texts(params.command@)),
    ).insert("timeout_ms"@, optional_number(params.timeout_ms))
}

/// What a hook after a command is told of what it put out. At most `limit`
/// characters of each stream are told.
pub open spec fn with_output(
    m: Map<Seq<char>, JsonView>,
    out: ExecToolCallOutput,
    limit: int,
) -> Map<Seq<char>, JsonView> {
    m.insert("exit_code"@, JsonView::Number(NumberView::Int(out.exit_code as int))).insert(
        "duration_ms"@,
        JsonView::Number(NumberView::Int(millis(out.duration))),
    ).insert("timed_out"@, JsonView::Bool(out.timed_out)).insert(
        "stdout"@,
        JsonView::String(cut_text(out.stdout@, limit)),
    ).insert("stderr"@, JsonView::String(cut_text(out.stderr@, limit)))
}

/// The changes of a patch, as JSON; null where there is no patch, or where they
/// cannot be written.
pub open spec fn changes_json(ctx: ExecCommandContext) -> JsonView {
    match ctx.apply_patch {
        Some(p) => match p.changes {
            Some(m) => JsonView::Object(json_map(m)),
            None => JsonView::Null,
        },
        None => JsonView::Null,
    }
}

/// What a hook around a command is told.
pub open spec fn exec_payload(
    event: ProjectHookEvent,
    name: Seq<char>,
    ctx: ExecCommandContext,
    params: ExecParams,
    output: Option<ExecToolCallOutput>,
    limit: int,
) -> Map<Seq<char>, JsonView> {
    let base = exec_payload_base(name, ctx, params);
    match (event, output) {
        (ProjectHookEvent::ToolAfter, Some(out)) => with_output(base, out, limit),
        (ProjectHookEvent::FileBeforeWrite, _) => base.insert("changes"@, changes_json(ctx)),
        (ProjectHookEvent::FileAfterWrite, Some(out)) => with_output(
            base.insert("changes"@, changes_json(ctx)),
            out,
            limit,
        ).insert("success"@, JsonView::Bool(out.exit_code == 0)),
        (ProjectHookEvent::FileAfterWrite, None) => base.insert("changes"@, changes_json(ctx)),
        _ => base,
    }
}

fn put_output(m: &mut OrderedMap<JsonValue>, out: &ExecToolCallOutput, limit: usize)
    requires
        millis(out.duration) <= u64::MAX,
    ensures
        json_map(*final(m)) == with_output(json_map(*old(m)), *out, limit as int),
{
    json_put(m, "exit_code", json_int(out.exit_code as i64));
    json_put(m, "duration_ms", json_uint(out.duration.as_millis()));
    json_put(m, "timed_out", JsonValue::Bool(out.timed_out));
    json_put(m, "stdout", json_str(truncate_payload(out.stdout.as_str(), limit).as_str()));
    json_put(m, "stderr", json_str(truncate_payload(out.stderr.as_str(), limit).as_str()));
}

fn copy_object(m: &OrderedMap<JsonValue>) -> (r: JsonValue)
    ensures
        r.view() == JsonView::Object(json_map(*m)),
{
    let entries = m.entries();
    let mut out = json_object();
    let mut i: usize = 0;
    assert(json_map(out) =~= crate::json::json_entries(entries@.take(0)));
    while i < entries.len()
        invariant
            i <= entries@.len(),
            entries@ == m.spec_entries(),
            json_map(out) == crate::json::json_entries(entries@.take(i as int)),
        decreases entries@.len() - i,
    {
        assert(entries@.take(i + 1).drop_last() =~= entries@.take(i as int));
        json_put(&mut out, entries[i].0.as_str(), entries[i].1.clone());
        i = i + 1;
    }
    assert(entries@.take(entries@.len() as int) =~= entries@);
    JsonValue::Object(out)
}

fn changes_value(ctx: &ExecCommandContext) -> (v: JsonValue)
    ensures
        v.view() == changes_json(*ctx),
{
    match &ctx.apply_patch {
        Some(p) => match &p.changes {
            Some(m) => copy_object(m),
            None => JsonValue::Null,
        },
        None => JsonValue::Null,
    }
}

/// What a hook around a command is told. `output_limit` is how many characters of
/// each stream are told.
pub fn build_exec_hook_payload(
    moment: &HookMoment,
    ctx: &ExecCommandContext,
    params: &ExecParams,
    output: Option<&ExecToolCallOutput>,
    output_limit: usize,
) -> (v: JsonValue)
    requires
        output matches Some(out) ==> millis(out.duration) <= u64::MAX,
    ensures
        v.view() == JsonView::Object(
            exec_payload(
                moment.event,
                moment.name@,
                *ctx,
                *params,
                match output {
                    Some(out) => Some(*out),
                    None => None,
                },
                output_limit as int,
            ),
        ),
{
    let mut m = json_object();
    json_put(&mut m, "event", json_str(moment.name.as_str()));
    json_put(&mut m, "call_id", json_str(ctx.call_id.as_str()));
    json_put(&mut m, "cwd", json_str(ctx.cwd.as_str()));
    json_put(&mut m, "command", json_strings(&params.command));
    json_put(&mut m, "timeout_ms", optional_number_value(params.timeout_ms));
    match moment.event {
        ProjectHookEvent::ToolAfter => {
            if let Some(out) = output {
                put_output(&mut m, out, output_limit);
            }
        },
        ProjectHookEvent::FileBeforeWrite => {
            json_put(&mut m, "changes", changes_value(ctx));
        },
        ProjectHookEvent::FileAfterWrite => {
            json_put(&mut m, "changes", changes_value(ctx));
            if let Some(out) = output {
                put_output(&mut m, out, output_limit);
                json_put(&mut m, "success", JsonValue::Bool(out.exit_code == 0));
            }
        },
        _ => {},
    }
    JsonValue::Object(m)
}

/// What hooks are told of the session.
#[derive(Debug, PartialEq, Eq)]
pub struct SessionFacts {
    /// The id of the session, as it is written.
    pub session_id: String,
    /// The file of its recording, where there is one.
    pub transcript_path: Option<String>,
    pub cwd: String,
    pub model: String,
    /// The sandbox policy, as it is shown.
    pub sandbox_policy: String,
    /// The approval policy, as it is shown.
    pub approval_policy: String,
}

/// What a hook at the start or the end of a session is told. At another moment it
/// is told the moment alone.
pub open spec fn session_payload(event: ProjectHookEvent, name: Seq<char>, s: SessionFacts) -> Map<
    Seq<char>,
    JsonView,
> {
    let base = Map::<Seq<char>, JsonView>::empty().insert("event"@, JsonView::String(name));
    if event == ProjectHookEvent::SessionStart || event == ProjectHookEvent::SessionEnd {
        base.insert("session_id"@, JsonView::String(s.session_id@)).insert(
            "transcript_path"@,
            optional_text(opt_text(s.transcript_path)),
        ).insert("cwd"@, JsonView::String(s.cwd@)).insert("model"@, JsonView::String(s.model@)).insert(
            "sandbox_policy"@,
            JsonView::String(s.sandbox_policy@),
        ).insert("approval_policy"@, JsonView::String(s.approval_policy@))
    } else {
        base
    }
}

fn opt_str(t: &Option<String>) -> (r: Option<&str>)
    ensures
        opt_text(*t) == (match r {
            Some(x) => Some(x@),
            None => None,
        }),
{
    match t {
        Some(s) => Some(s.as_str()),
        None => None,
    }
}

/// What a hook at the start or the end of a session is told.
pub fn build_session_payload(moment: &HookMoment, session: &SessionFacts) -> (v: JsonValue)
    ensures
        v.view() == JsonView::Object(session_payload(moment.event, moment.name@, *session)),
{
    let mut m = json_object();
    json_put(&mut m, "event", json_str(moment.name.as_str()));
    let whole = match moment.event {
        ProjectHookEvent::SessionStart => true,
        ProjectHookEvent::SessionEnd => true,
        _ => false,
    };
    if whole {
        json_put(&mut m, "session_id", json_str(session.session_id.as_str()));
        json_put(
            &mut m,
            "transcript_path",
            optional_text_value(opt_str(&session.transcript_path)),
        );
        json_put(&mut m, "cwd", json_str(session.cwd.as_str()));
        json_put(&mut m, "model", json_str(session.model.as_str()));
        json_put(&mut m, "sandbox_policy", json_str(session.sandbox_policy.as_str()));
        json_put(&mut m, "approval_policy", json_str(session.approval_policy.as_str()));
    }
    JsonValue::Object(m)
}

/// What the user sends.
#[derive(Debug, PartialEq, Eq)]
pub enum InputItem {
    Text { text: String },
    /// Anything but text.
    Other,
}

/// The texts that the user sent, without the white space around them and without
/// empty ones.
pub open spec fn prompt_texts(items: Seq<InputItem>) -> Seq<Seq<char>>
    decreases items.len(),
{
    if items.len() == 0 {
        Seq::empty()
    } else {
        let before = prompt_texts(items.drop_last());
        match items.last() {
            InputItem::Text { text } => if trim_text(text@).len() > 0 {
                before.push(trim_text(text@))
            } else {
                before
            },
            InputItem::Other => before,
        }
    }
}

/// What the user sent, as one text.
pub fn user_prompt_text(items: &[InputItem]) -> (r: String)
    ensures
        r@ == joined(prompt_texts(items@), "\n\n"@),
{
    let mut found: Vec<String> = Vec::new();
    let mut i: usize = 0;
    assert(items@.take(0) =~= Seq::empty());
    while i < items.len()
        invariant
            i <= items@.len(),
            texts(found@) =~= prompt_texts(items@.take(i as int)),
        decreases items@.len() - i,
    {
        proof {
            assert(items@.take(i + 1).drop_last() =~= items@.take(i as int));
            assert(items@.take(i + 1).last() == items@[i as int]);
        }
        if let InputItem::Text { text } = &items[i] {
            let t = trim(text.as_str());
            if !t.as_str().is_empty() {
                let ghost before = texts(found@);
                let ghost tv = t@;
                found.push(t);
                assert(texts(found@) =~= before.push(tv));
            }
        }
        i = i + 1;
    }
    assert(items@.take(items@.len() as int) =~= items@);
    join(&found, "\n\n")
}

/// What every hook of a turn is told.
pub open spec fn turn_payload(name: Seq<char>, turn_id: Seq<char>, s: SessionFacts) -> Map<
    Seq<char>,
    JsonView,
> {
    Map::<Seq<char>, JsonView>::empty().insert("event"@, JsonView::String(name)).insert(
        "session_id"@,
        JsonView::String(s.session_id@),
    ).insert("turn_id"@, JsonView::String(turn_id)).insert(
        "transcript_path"@,
        optional_text(opt_text(s.transcript_path)),
    ).insert("cwd"@, JsonView::String(s.cwd@)).insert("model"@, JsonView::String(s.model@))
}

fn turn_object(name: &str, turn_id: &str, s: &SessionFacts) -> (m: OrderedMap<JsonValue>)
    ensures
        json_map(m) == turn_payload(name@, turn_id@, *s),
{
    let mut m = json_object();
    json_put(&mut m, "event", json_str(name));
    json_put(&mut m, "session_id", json_str(s.session_id.as_str()));
    json_put(&mut m, "turn_id", json_str(turn_id));
    json_put(&mut m, "transcript_path", optional_text_value(opt_str(&s.transcript_path)));
    json_put(&mut m, "cwd", json_str(s.cwd.as_str()));
    json_put(&mut m, "model", json_str(s.model.as_str()));
    m
}

/// What a hook is told when the user sends something.
pub open spec fn user_prompt_members(
    name: Seq<char>,
    turn_id: Seq<char>,
    s: SessionFacts,
    prompt: Seq<char>,
) -> Map<Seq<char>, JsonView> {
    turn_payload(name, turn_id, s).insert("prompt"@, JsonView::String(prompt))
}

/// What a hook is told when the model stops.
pub open spec fn stop_members(
    name: Seq<char>,
    turn_id: Seq<char>,
    s: SessionFacts,
    stop_hook_active: bool,
    last_assistant_message: Option<Seq<char>>,
) -> Map<Seq<char>, JsonView> {
    turn_payload(name, turn_id, s).insert(
        "stop_hook_active"@,
        JsonView::Bool(stop_hook_active),
    ).insert("last_assistant_message"@, optional_text(last_assistant_message))
}

/// What a hook is told when the user sends something. `name` is the name of that
/// moment.
pub fn user_prompt_payload(
    name: &str,
    sub_id: &str,
    session: &SessionFacts,
    items: &[InputItem],
) -> (v: JsonValue)
    ensures
        v.view() == JsonView::Object(
            user_prompt_members(
                name@,
                sub_id@,
                *session,
                joined(prompt_texts(items@), "\n\n"@),
            ),
        ),
{
    let mut m = turn_object(name, sub_id, session);
    json_put(&mut m, "prompt", json_str(user_prompt_text(items).as_str()));
    JsonValue::Object(m)
}

/// What a hook is told when the model stops. `name` is the name of that moment.
pub fn stop_payload(
    name: &str,
    sub_id: &str,
    session: &SessionFacts,
    stop_hook_active: bool,
    last_assistant_message: Option<&str>,
) -> (v: JsonValue)
    ensures
        v.view() == JsonView::Object(
            stop_members(
                name@,
                sub_id@,
                *session,
                stop_hook_active,
                match last_assistant_message {
                    Some(t) => Some(t@),
                    None => None,
                },
            ),
        ),
{
    let mut m = turn_object(name, sub_id, session);
    json_put(&mut m, "stop_hook_active", JsonValue::Bool(stop_hook_active));
    json_put(&mut m, "last_assistant_message", optional_text_value(last_assistant_message));
    JsonValue::Object(m)
}

/// What a hook put out. Without an exit code it could not be run.
#[derive(Debug, PartialEq, Eq)]
pub struct ProjectHookCommandResult {
    pub stdout: String,
    pub stderr: String,
    pub exit_code: Option<i32>,
}

/// What the hooks say of what the user sent.
#[derive(Debug, PartialEq, Eq)]
pub struct UserPromptSubmitHookOutcome {
    pub blocked: bool,
    pub block_reason: Option<String>,
    pub additional_contexts: Vec<String>,
}

/// What the hooks say when the model stops.
#[derive(Debug, PartialEq, Eq)]
pub struct StopHookOutcome {
    pub blocked: bool,
    pub continuation_prompt: Option<String>,
}

/// What the hooks wrote to the standard output, without empty texts.
pub open spec fn outputs_of(results: Seq<ProjectHookCommandResult>) -> Seq<Seq<char>>
    decreases results.len(),
{
    if results.len() == 0 {
        Seq::empty()
    } else {
        let before = outputs_of(results.drop_last());
        match non_empty(results.last().stdout@) {
            Some(t) => before.push(t),
            None => before,
        }
    }
}

/// What the hooks that object wrote to the standard error, without empty texts. A
/// hook objects by the exit code 2.
pub open spec fn objections_of(results: Seq<ProjectHookCommandResult>) -> Seq<Seq<char>>
    decreases results.len(),
{
    if results.len() == 0 {
        Seq::empty()
    } else {
        let before = objections_of(results.drop_last());
        match non_empty(results.last().stderr@) {
            Some(t) if results.last().exit_code == Some(2i32) => before.push(t),
            _ => before,
        }
    }
}

/// The objections as one text, where there is one.
pub open spec fn objection(results: Seq<ProjectHookCommandResult>) -> Option<Seq<char>> {
    if objections_of(results).len() == 0 {
        None
    } else {
        Some(joined(objections_of(results), "\n\n"@))
    }
}

fn find_outputs(results: &[ProjectHookCommandResult]) -> (r: Vec<String>)
    ensures
        texts(r@) == outputs_of(results@),
{
    let mut found: Vec<String> = Vec::new();
    let mut i: usize = 0;
    assert(results@.take(0) =~= Seq::empty());
    while i < results.len()
        invariant
            i <= results@.len(),
            texts(found@) =~= outputs_of(results@.take(i as int)),
        decreases results@.len() - i,
    {
        proof {
            assert(results@.take(i + 1).drop_last() =~= results@.take(i as int));
            assert(results@.take(i + 1).last() == results@[i as int]);
        }
        if let Some(t) = trimmed_non_empty(results[i].stdout.as_str()) {
            let ghost before = texts(found@);
            let ghost tv = t@;
            found.push(t);
            assert(texts(found@) =~= before.push(tv));
        }
        i = i + 1;
    }
    assert(results@.take(results@.len() as int) =~= results@);
    found
}

fn find_objections(results: &[ProjectHookCommandResult]) -> (r: Vec<String>)
    ensures
        texts(r@) == objections_of(results@),
{
    let mut found: Vec<String> = Vec::new();
    let mut i: usize = 0;
    assert(results@.take(0) =~= Seq::empty());
    while i < results.len()
        invariant
            i <= results@.len(),
            texts(found@) =~= objections_of(results@.take(i as int)),
        decreases results@.len() - i,
    {
        proof {
            assert(results@.take(i + 1).drop_last() =~= results@.take(i as int));
            assert(results@.take(i + 1).last() == results@[i as int]);
        }
        let objects = match results[i].exit_code {
            Some(c) => c == 2,
            None => false,
        };
        if objects {
            if let Some(t) = trimmed_non_empty(results[i].stderr.as_str()) {
                let ghost before = texts(found@);
                let ghost tv = t@;
                found.push(t);
                assert(texts(found@) =~= before.push(tv));
            }
        }
        i = i + 1;
    }
    assert(results@.take(results@.len() as int) =~= results@);
    found
}

/// What the hooks say of what the user sent: what they wrote goes with it, and it
/// is blocked where one of them objects and says why.
pub fn user_prompt_submit_outcome(results: &[ProjectHookCommandResult]) -> (r:
    UserPromptSubmitHookOutcome)
    ensures
        r.blocked == (objections_of(results@).len() > 0),
        opt_text(r.block_reason) == objection(results@),
        texts(r.additional_contexts@) == outputs_of(results@),
{
    let additional_contexts = find_outputs(results);
    let objections = find_objections(results);
    assert(texts(objections@).len() == objections@.len());
    let block_reason = join_text_chunks(objections);
    UserPromptSubmitHookOutcome { blocked: block_reason.is_some(), block_reason, additional_contexts }
}

/// What the hooks say when the model stops: it goes on where one of them objects
/// and says why.
pub fn stop_outcome(results: &[ProjectHookCommandResult]) -> (r: StopHookOutcome)
    ensures
        r.blocked == (objections_of(results@).len() > 0),
        opt_text(r.continuation_prompt) == objection(results@),
{
    let prompts = find_objections(results);
    assert(texts(prompts@).len() == prompts@.len());
    let continuation_prompt = join_text_chunks(prompts);
    StopHookOutcome { blocked: continuation_prompt.is_some(), continuation_prompt }
}

/// The places of the hooks of a moment.
pub open spec fn hook_places(hooks: Seq<ProjectHook>, event: ProjectHookEvent) -> Seq<int>
    decreases hooks.len(),
{
    if hooks.len() == 0 {
        Seq::empty()
    } else {
        let before = hook_places(hooks.drop_last(), event);
        if hooks.last().event == event {
            before.push(hooks.len() - 1)
        } else {
            before
        }
    }
}

/// The hooks that run at a moment, by their places: those of the moment, in order.
/// None runs while another hook does.
pub fn hooks_to_run(hooks: &[ProjectHook], event: ProjectHookEvent, hook_running: bool) -> (r: Vec<
    usize,
>)
    ensures
        r@.map_values(|i: usize| i as int) == (if hook_running {
            Seq::empty()
        } else {
            hook_places(hooks@, event)
        }),
        forall|i: int| 0 <= i < r@.len() ==> #[trigger] r@[i] < hooks@.len(),
{
    let mut places: Vec<usize> = Vec::new();
    let ghost f = |i: usize| i as int;
    if hook_running {
        assert(places@.map_values(f) =~= Seq::empty());
        return places;
    }
    let mut i: usize = 0;
    assert(hooks@.take(0) =~= Seq::empty());
    while i < hooks.len()
        invariant
            i <= hooks@.len(),
            f == (|i: usize| i as int),
            places@.map_values(f) =~= hook_places(hooks@.take(i as int), event),
            forall|j: int| 0 <= j < places@.len() ==> #[trigger] places@[j] < hooks@.len(),
        decreases hooks@.len() - i,
    {
        proof {
            assert(hooks@.take(i + 1).drop_last() =~= hooks@.take(i as int));
            assert(hooks@.take(i + 1).last() == hooks@[i as int]);
        }
        if hooks[i].event == event {
            let ghost before = places@.map_values(f);
            places.push(i);
            assert(places@.map_values(f) =~= before.push(i as int));
        }
        i = i + 1;
    }
    assert(hooks@.take(hooks@.len() as int) =~= hooks@);
    places
}

/// The variables and their values.
pub open spec fn env_view(m: OrderedMap<String>) -> Map<Seq<char>, Seq<char>> {
    m@.map_values(|s: String| s@)
}

/// A variable that is set unless it is set already.
pub open spec fn or_set(m: Map<Seq<char>, Seq<char>>, k: Seq<char>, v: Seq<char>) -> Map<
    Seq<char>,
    Seq<char>,
> {
    if m.contains_key(k) {
        m
    } else {
        m.insert(k, v)
    }
}

fn env_set(m: &mut OrderedMap<String>, k: &str, v: &str)
    ensures
        env_view(*final(m)) == env_view(*old(m)).insert(k@, v@),
{
    let ghost before = *m;
    m.insert(k.to_string(), v.to_string());
    assert(env_view(*m) =~= env_view(before).insert(k@, v@));
}

fn env_or_set(m: &mut OrderedMap<String>, k: &str, v: &str)
    ensures
        env_view(*final(m)) == or_set(env_view(*old(m)), k@, v@),
{
    if !m.contains_key(k) {
        env_set(m, k, v);
    }
}

fn copy_env(m: &OrderedMap<String>) -> (r: OrderedMap<String>)
    ensures
        env_view(r) == env_view(*m),
{
    let entries = m.entries();
    let mut out: OrderedMap<String> = OrderedMap::new();
    let ghost id = |s: String| s;
    let mut i: usize = 0;
    assert(out@ =~= crate::omap::entry_map(entries@.take(0), id));
    while i < entries.len()
        invariant
            i <= entries@.len(),
            entries@ == m.spec_entries(),
            id == (|s: String| s),
            out@ == crate::omap::entry_map(entries@.take(i as int), id),
        decreases entries@.len() - i,
    {
        assert(entries@.take(i + 1).drop_last() =~= entries@.take(i as int));
        out.insert(entries[i].0.clone(), entries[i].1.clone());
        i = i + 1;
    }
    assert(entries@.take(entries@.len() as int) =~= entries@);
    proof {
        OrderedMap::view_is_entry_map(*m);
    }
    out
}

/// The submission that a hook belongs to: that of the command it runs around, else
/// the given one, else the first one of the session.
pub open spec fn hook_sub_id(
    base_ctx: Option<ExecCommandContext>,
    fallback_sub_id: Option<Seq<char>>,
    initial_submit_id: Seq<char>,
) -> Seq<char> {
    match base_ctx {
        Some(ctx) => ctx.sub_id@,
        None => match fallback_sub_id {
            Some(s) => s,
            None => initial_submit_id,
        },
    }
}

/// The parts of the call id of a hook: that of the command it runs around, or the
/// moment, and its place among the hooks of the moment.
pub open spec fn hook_call_id_parts(
    base_ctx: Option<ExecCommandContext>,
    slug: Seq<char>,
    index: int,
) -> Seq<Seq<char>> {
    seq![
        match base_ctx {
            Some(ctx) => identifier(ctx.call_id@),
            None => slug,
        },
        "_hook_"@,
        slug,
        "_"@,
        decimal((index + 1) as nat),
    ]
}

/// The call id of a hook.
pub open spec fn hook_call_id(
    base_ctx: Option<ExecCommandContext>,
    slug: Seq<char>,
    index: int,
) -> Seq<char> {
    flat(hook_call_id_parts(base_ctx, slug, index))
}

/// The variables that a hook is run with. What tells it about its run is always
/// set; the rest only where the hook does not set it itself.
pub open spec fn hook_env(
    hook: ProjectHook,
    moment: HookMoment,
    payload: Seq<char>,
    base_ctx: Option<ExecCommandContext>,
    sub_id: Seq<char>,
    call_id: Seq<char>,
    index: int,
    session_cwd: Seq<char>,
) -> Map<Seq<char>, Seq<char>> {
    let e1 = or_set(env_view(hook.env), "CODE_HOOK_EVENT"@, moment.name@);
    let e2 = or_set(e1, "CODE_HOOK_TRIGGER"@, moment.slug@);
    let e3 = e2.insert("CODE_HOOK_CALL_ID"@, call_id).insert("CODE_HOOK_SUB_ID"@, sub_id).insert(
        "CODE_HOOK_INDEX"@,
        decimal((index + 1) as nat),
    ).insert("CODE_HOOK_PAYLOAD"@, payload);
    let e4 = or_set(e3, "CODE_SESSION_CWD"@, session_cwd);
    let e5 = match hook.name {
        Some(name) => or_set(e4, "CODE_HOOK_NAME"@, name@),
        None => e4,
    };
    match base_ctx {
        Some(ctx) => or_set(e5, "CODE_HOOK_SOURCE_CALL_ID"@, ctx.call_id@),
        None => e5,
    }
}

/// A command that is ready to be run.
#[derive(Debug, PartialEq)]
pub struct PreparedExec {
    pub params: ExecParams,
    pub context: ExecCommandContext,
    pub sandbox_type: SandboxType,
    pub sandbox_policy: SandboxPolicy,
}

/// The command is made of the given arguments, runs in the given directory for at
/// most the given time, and without more rights than usual.
pub open spec fn is_plain_exec(
    p: PreparedExec,
    command: Seq<Seq<char>>,
    cwd: Seq<char>,
    timeout_ms: Option<u64>,
    sub_id: Seq<char>,
    call_id: Seq<char>,
) -> bool {
    &&& texts(p.params.command@) == command
    &&& p.params.shell_script is None
    &&& p.params.cwd@ == cwd
    &&& p.params.timeout_ms == timeout_ms
    &&& p.params.with_escalated_permissions == Some(false)
    &&& p.params.justification is None
    &&& p.context.sub_id@ == sub_id
    &&& p.context.call_id@ == call_id
    &&& texts(p.context.command_for_display@) == command
    &&& p.context.cwd@ == cwd
    &&& p.context.apply_patch is None
}

/// What a run of a hook goes by, beside the hook and the moment.
pub struct HookRun<'a> {
    /// The command that the hook runs around, if it does.
    pub base_ctx: Option<&'a ExecCommandContext>,
    /// The submission that the hook belongs to, if it runs around no command.
    pub fallback_sub_id: Option<&'a str>,
    /// The first submission of a session.
    pub initial_submit_id: &'a str,
    /// The place of the hook among those of the moment.
    pub index: usize,
    /// The directory of the session.
    pub session_cwd: &'a str,
    /// The directory that the hook runs in.
    pub hook_cwd: &'a str,
}

/// The command that a hook runs around, if it does.
pub open spec fn base_of(run: HookRun) -> Option<ExecCommandContext> {
    match run.base_ctx {
        Some(c) => Some(*c),
        None => None,
    }
}

/// The submission that a run of a hook belongs to.
pub open spec fn sub_id_of(run: HookRun) -> Seq<char> {
    hook_sub_id(
        base_of(run),
        match run.fallback_sub_id {
            Some(s) => Some(s@),
            None => None,
        },
        run.initial_submit_id@,
    )
}

/// Readies a hook to be run, outside any sandbox, with what it is told.
pub fn prepare_hook_command(
    hook: &ProjectHook,
    moment: &HookMoment,
    payload: &JsonValue,
    run: &HookRun,
) -> (p: PreparedExec)
    requires
        run.index < u64::MAX,
    ensures
        ({
            let call_id = hook_call_id(base_of(*run), moment.slug@, run.index as int);
            &&& is_plain_exec(
                p,
                texts(hook.command@),
                run.hook_cwd@,
                hook.timeout_ms,
                sub_id_of(*run),
                call_id,
            )
            &&& p.sandbox_type == SandboxType::Unsandboxed
            &&& p.sandbox_policy == SandboxPolicy::DangerFullAccess
            &&& all_integers(payload.view()) ==> env_view(p.params.env) == hook_env(
                *hook,
                *moment,
                json_text(payload.view()),
                base_of(*run),
                sub_id_of(*run),
                call_id,
                run.index as int,
                run.session_cwd@,
            )
            &&& exists|text: Seq<char>|
                env_view(p.params.env) == #[trigger] hook_env(
                    *hook,
                    *moment,
                    text,
                    base_of(*run),
                    sub_id_of(*run),
                    call_id,
                    run.index as int,
                    run.session_cwd@,
                )
        }),
{
    let sub_id = match run.base_ctx {
        Some(ctx) => ctx.sub_id.clone(),
        None => match run.fallback_sub_id {
            Some(s) => s.to_string(),
            None => run.initial_submit_id.to_string(),
        },
    };
    let base_slug = match run.base_ctx {
        Some(ctx) => sanitize_identifier(ctx.call_id.as_str()),
        None => moment.slug.clone(),
    };
    let number = decimal_text(run.index as u64 + 1);
    let parts: [&str; 5] = [
        base_slug.as_str(),
        "_hook_",
        moment.slug.as_str(),
        "_",
        number.as_str(),
    ];
    let call_id = concat(&parts);
    assert(part_texts(parts@) =~= hook_call_id_parts(
        base_of(*run),
        moment.slug@,
        run.index as int,
    ));
    let text = to_json_text(payload);
    let mut env = copy_env(&hook.env);
    env_or_set(&mut env, "CODE_HOOK_EVENT", moment.name.as_str());
    env_or_set(&mut env, "CODE_HOOK_TRIGGER", moment.slug.as_str());
    env_set(&mut env, "CODE_HOOK_CALL_ID", call_id.as_str());
    env_set(&mut env, "CODE_HOOK_SUB_ID", sub_id.as_str());
    env_set(&mut env, "CODE_HOOK_INDEX", number.as_str());
    env_set(&mut env, "CODE_HOOK_PAYLOAD", text.as_str());
    env_or_set(&mut env, "CODE_SESSION_CWD", run.session_cwd);
    if let Some(name) = &hook.name {
        env_or_set(&mut env, "CODE_HOOK_NAME", name.as_str());
    }
    if let Some(ctx) = run.base_ctx {
        env_or_set(&mut env, "CODE_HOOK_SOURCE_CALL_ID", ctx.call_id.as_str());
    }
    let params = ExecParams {
        command: clone_strings(&hook.command),
        shell_script: None,
        cwd: run.hook_cwd.to_string(),
        timeout_ms: hook.timeout_ms,
        env,
        with_escalated_permissions: Some(false),
        justification: None,
    };
    let context = ExecCommandContext {
        sub_id,
        call_id,
        command_for_display: clone_strings(&hook.command),
        cwd: run.hook_cwd.to_string(),
        apply_patch: None,
    };
    let (sandbox_type, sandbox_policy) = project_hook_execution_policy();
    let p = PreparedExec { params, context, sandbox_type, sandbox_policy };
    proof {
        let call = hook_call_id(base_of(*run), moment.slug@, run.index as int);
        assert(env_view(p.params.env) == hook_env(
            *hook,
            *moment,
            text@,
            base_of(*run),
            sub_id_of(*run),
            call,
            run.index as int,
            run.session_cwd@,
        ));
    }
    p
}

/// How a hook is called where it failed: by its name, else by its program, else
/// just a hook.
pub open spec fn hook_label(hook: ProjectHook) -> Seq<char> {
    match hook.name {
        Some(name) => name@,
        None => if hook.command@.len() > 0 {
            hook.command@[0]@
        } else {
            "hook"@
        },
    }
}

/// What is told where a hook could not be run.
pub open spec fn hook_failure_text(hook: ProjectHook, error: Seq<char>) -> Seq<char> {
    flat(seq!["Hook `"@, hook_label(hook), "` failed: "@, error])
}

/// What is told where a hook could not be run. `error` says why.
pub fn hook_failure_message(hook: &ProjectHook, error: &str) -> (r: String)
    ensures
        r@ == hook_failure_text(*hook, error@),
{
    let label = match &hook.name {
        Some(name) => name.clone(),
        None => if hook.command.len() > 0 {
            hook.command[0].clone()
        } else {
            "hook".to_string()
        },
    };
    let parts: [&str; 4] = ["Hook `", label.as_str(), "` failed: ", error];
    assert(part_texts(parts@) =~= seq!["Hook `"@, hook_label(*hook), "` failed: "@, error@]);
    concat(&parts)
}

/// What comes of a hook: what it put out, or why it could not be run. `error` is
/// how its failure is told to the user.
pub fn hook_result(hook: &ProjectHook, result: Result<ExecToolCallOutput, String>) -> (r:
    ProjectHookCommandResult)
    ensures
        match result {
            Ok(output) => r.stdout == output.stdout && r.stderr == output.stderr && r.exit_code
                == Some(output.exit_code),
            Err(error) => r.stdout@.len() == 0 && r.stderr@ == hook_failure_text(*hook, error@)
                && r.exit_code is None,
        },
{
    match result {
        Ok(output) => ProjectHookCommandResult {
            stdout: output.stdout,
            stderr: output.stderr,
            exit_code: Some(output.exit_code),
        },
        Err(error) => ProjectHookCommandResult {
            stdout: String::new(),
            stderr: hook_failure_message(hook, error.as_str()),
            exit_code: None,
        },
    }
}

/// The place of the first command that was found to match; the length where none
/// was.
pub open spec fn first_match(matched: Seq<bool>) -> int
    decreases matched.len(),
{
    if matched.len() == 0 {
        0
    } else if matched[0] {
        0
    } else {
        1 + first_match(matched.drop_first())
    }
}

/// The first command that a name matches. `matched` says of each command whether
/// the name matches it.
pub fn find_project_command<'a>(commands: &'a [ProjectCommand], matched: &[bool]) -> (r: Option<
    &'a ProjectCommand,
>)
    requires
        commands@.len() == matched@.len(),
    ensures
        match r {
            Some(c) => 0 <= first_match(matched@) < commands@.len() && *c == commands@[first_match(
                matched@,
            )],
            None => first_match(matched@) == commands@.len(),
        },
{
    let mut i: usize = 0;
    assert(matched@.skip(0) =~= matched@);
    while i < matched.len()
        invariant
            i <= matched@.len(),
            commands@.len() == matched@.len(),
            first_match(matched@) == i + first_match(matched@.skip(i as int)),
        decreases matched@.len() - i,
    {
        assert(matched@.skip(i as int)[0] == matched@[i as int]);
        assert(matched@.skip(i as int).drop_first() =~= matched@.skip(i + 1));
        if matched[i] {
            return Some(&commands[i]);
        }
        i = i + 1;
    }
    None
}

/// What is told where no command of a project has the name.
pub fn unknown_command_message(name: &str) -> (r: String)
    ensures
        r@ == flat(seq!["Unknown project command `"@, trim_text(name@), "`"@]),
{
    let t = trim(name);
    let parts: [&str; 3] = ["Unknown project command `", t.as_str(), "`"];
    assert(part_texts(parts@) =~= seq!["Unknown project command `"@, trim_text(name@), "`"@]);
    concat(&parts)
}

/// What is told where a command of a project failed. `error` says why.
pub fn command_failure_message(command: &ProjectCommand, error: &str) -> (r: String)
    ensures
        r@ == flat(seq!["Project command `"@, command.name@, "` failed: "@, error@]),
{
    let parts: [&str; 4] = ["Project command `", command.name.as_str(), "` failed: ", error];
    assert(part_texts(parts@) =~= seq![
        "Project command `"@,
        command.name@,
        "` failed: "@,
        error@,
    ]);
    concat(&parts)
}

/// The variables that a command of a project is run with, where it does not set
/// them itself.
pub open spec fn command_env(c: ProjectCommand, session_cwd: Seq<char>) -> Map<
    Seq<char>,
    Seq<char>,
> {
    let e1 = or_set(env_view(c.env), "CODE_PROJECT_COMMAND_NAME"@, c.name@);
    let e2 = match c.description {
        Some(d) => or_set(e1, "CODE_PROJECT_COMMAND_DESCRIPTION"@, d@),
        None => e1,
    };
    or_set(e2, "CODE_SESSION_CWD"@, session_cwd)
}

/// Readies a command of a project to be run, confined as commands of the program
/// itself are.
pub fn prepare_project_command(
    command: &ProjectCommand,
    sub_id: &str,
    session_cwd: &str,
    command_cwd: &str,
    sandbox_type: SandboxType,
    sandbox_policy: &SandboxPolicy,
) -> (p: PreparedExec)
    ensures
        is_plain_exec(
            p,
            texts(command.command@),
            command_cwd@,
            command.timeout_ms,
            sub_id@,
            "project_cmd_"@ + identifier(command.name@),
        ),
        env_view(p.params.env) == command_env(*command, session_cwd@),
        p.sandbox_type == sandbox_type,
        p.sandbox_policy.view() == sandbox_policy.view(),
{
    let mut env = copy_env(&command.env);
    env_or_set(&mut env, "CODE_PROJECT_COMMAND_NAME", command.name.as_str());
    if let Some(d) = &command.description {
        env_or_set(&mut env, "CODE_PROJECT_COMMAND_DESCRIPTION", d.as_str());
    }
    env_or_set(&mut env, "CODE_SESSION_CWD", session_cwd);
    let mut call_id = "project_cmd_".to_string();
    call_id.append(sanitize_identifier(command.name.as_str()).as_str());
    let params = ExecParams {
        command: clone_strings(&command.command),
        shell_script: None,
        cwd: command_cwd.to_string(),
        timeout_ms: command.timeout_ms,
        env,
        with_escalated_permissions: Some(false),
        justification: None,
    };
    let context = ExecCommandContext {
        sub_id: sub_id.to_string(),
        call_id,
        command_for_display: clone_strings(&command.command),
        cwd: command_cwd.to_string(),
        apply_patch: None,
    };
    PreparedExec { params, context, sandbox_type, sandbox_policy: sandbox_policy.clone() }
}

} // verus!
