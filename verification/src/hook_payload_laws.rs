//! What hooks and commands of a project are told, and what comes of what they say.

use crate::exec::{cut_text, identifier, ExecParams};
use crate::exec_events::{ExecCommandContext, ExecToolCallOutput, ProjectHookEvent};
use crate::hooks::{
    command_env, env_view, exec_payload, first_match, hook_call_id, hook_env, hook_failure_text,
    hook_label, hook_places, hook_sub_id, is_plain_exec, objection, objections_of, outputs_of,
    prompt_texts, session_payload, stop_members, user_prompt_members, HookMoment, InputItem,
    PreparedExec, ProjectCommand, ProjectHook, ProjectHookCommandResult, SessionFacts,
};
use crate::json::{json_map, JsonView, NumberView};
use crate::text::{decimal, flat, joined, texts, trim_text};
use vstd::prelude::*;

verus! {

broadcast use vstd::seq_lib::group_seq_properties;

proof fn exec_names_differ()
    ensures
        "event"@ != "call_id"@,
        "event"@ != "cwd"@,
        "event"@ != "command"@,
        "event"@ != "timeout_ms"@,
        "event"@ != "exit_code"@,
        "event"@ != "duration_ms"@,
        "event"@ != "timed_out"@,
        "event"@ != "stdout"@,
        "event"@ != "stderr"@,
        "event"@ != "changes"@,
        "event"@ != "success"@,
        "call_id"@ != "cwd"@,
        "call_id"@ != "command"@,
        "call_id"@ != "timeout_ms"@,
        "call_id"@ != "exit_code"@,
        "call_id"@ != "duration_ms"@,
        "call_id"@ != "timed_out"@,
        "call_id"@ != "stdout"@,
        "call_id"@ != "stderr"@,
        "call_id"@ != "changes"@,
        "call_id"@ != "success"@,
        "cwd"@ != "command"@,
        "cwd"@ != "timeout_ms"@,
        "cwd"@ != "exit_code"@,
        "cwd"@ != "duration_ms"@,
        "cwd"@ != "timed_out"@,
        "cwd"@ != "stdout"@,
        "cwd"@ != "stderr"@,
        "cwd"@ != "changes"@,
        "cwd"@ != "success"@,
        "command"@ != "timeout_ms"@,
        "command"@ != "exit_code"@,
        "command"@ != "duration_ms"@,
        "command"@ != "timed_out"@,
        "command"@ != "stdout"@,
        "command"@ != "stderr"@,
        "command"@ != "changes"@,
        "command"@ != "success"@,
        "timeout_ms"@ != "exit_code"@,
        "timeout_ms"@ != "duration_ms"@,
        "timeout_ms"@ != "timed_out"@,
        "timeout_ms"@ != "stdout"@,
        "timeout_ms"@ != "stderr"@,
        "timeout_ms"@ != "changes"@,
        "timeout_ms"@ != "success"@,
        "exit_code"@ != "duration_ms"@,
        "exit_code"@ != "timed_out"@,
        "exit_code"@ != "stdout"@,
        "exit_code"@ != "stderr"@,
        "exit_code"@ != "changes"@,
        "exit_code"@ != "success"@,
        "duration_ms"@ != "timed_out"@,
        "duration_ms"@ != "stdout"@,
        "duration_ms"@ != "stderr"@,
        "duration_ms"@ != "changes"@,
        "duration_ms"@ != "success"@,
        "timed_out"@ != "stdout"@,
        "timed_out"@ != "stderr"@,
        "timed_out"@ != "changes"@,
        "timed_out"@ != "success"@,
        "stdout"@ != "stderr"@,
        "stdout"@ != "changes"@,
        "stdout"@ != "success"@,
        "stderr"@ != "changes"@,
        "stderr"@ != "success"@,
        "changes"@ != "success"@,
{
    reveal_strlit("event");
    reveal_strlit("call_id");
    reveal_strlit("cwd");
    reveal_strlit("command");
    reveal_strlit("timeout_ms");
    reveal_strlit("exit_code");
    reveal_strlit("duration_ms");
    reveal_strlit("timed_out");
    reveal_strlit("stdout");
    reveal_strlit("stderr");
    reveal_strlit("changes");
    reveal_strlit("success");
    assert("event"@.len() == 5 && "call_id"@.len() == 7 && "cwd"@.len() == 3);
    assert("command"@.len() == 7 && "timeout_ms"@.len() == 10 && "exit_code"@.len() == 9);
    assert("duration_ms"@.len() == 11 && "timed_out"@.len() == 9 && "stdout"@.len() == 6);
    assert("stderr"@.len() == 6 && "changes"@.len() == 7 && "success"@.len() == 7);
    assert("call_id"@[1] == 'a' && "command"@[1] == 'o' && "changes"@[1] == 'h');
    assert("success"@[0] == 's' && "call_id"@[0] == 'c' && "command"@[0] == 'c');
    assert("changes"@[0] == 'c' && "exit_code"@[0] == 'e' && "timed_out"@[0] == 't');
    assert("stdout"@[3] == 'o' && "stderr"@[3] == 'e');
}

/// A hook around a command is told which command that is, where it runs and for how long
/// it may.
pub proof fn hooks_are_told_the_command(
    event: ProjectHookEvent,
    name: Seq<char>,
    ctx: ExecCommandContext,
    params: ExecParams,
    output: Option<ExecToolCallOutput>,
    limit: int,
)
    ensures
        ({
            let m = exec_payload(event, name, ctx, params, output, limit);
            &&& m["event"@] == JsonView::String(name)
            &&& m["call_id"@] == JsonView::String(ctx.call_id@)
            &&& m["cwd"@] == JsonView::String(ctx.cwd@)
            &&& m["command"@] is Array
            &&& m["command"@]->Array_0.len() == params.command@.len()
            &&& forall|i: int|
                0 <= i < params.command@.len() ==> #[trigger] m["command"@]->Array_0[i]
                    == JsonView::String(params.command@[i]@)
            &&& params.timeout_ms is None ==> m["timeout_ms"@] is Null
            &&& params.timeout_ms matches Some(n) ==> m["timeout_ms"@] == JsonView::Number(
                NumberView::Int(n as int),
            )
        }),
{
    exec_names_differ();
}

/// A hook behind a command that ran is told what it put out, as much as may be told, and
/// how it ended; one behind a patch, whether it went well too. No other hook is.
pub proof fn hooks_behind_are_told_the_output(
    event: ProjectHookEvent,
    name: Seq<char>,
    ctx: ExecCommandContext,
    params: ExecParams,
    out: ExecToolCallOutput,
    limit: int,
)
    ensures
        ({
            let m = exec_payload(event, name, ctx, params, Some(out), limit);
            let behind = event == ProjectHookEvent::ToolAfter || event
                == ProjectHookEvent::FileAfterWrite;
            &&& behind ==> {
                &&& m["exit_code"@] == JsonView::Number(NumberView::Int(out.exit_code as int))
                &&& m["duration_ms"@] == JsonView::Number(
                    NumberView::Int(out.duration.secs * 1000 + out.duration.nanos / 1_000_000),
                )
                &&& m["timed_out"@] == JsonView::Bool(out.timed_out)
                &&& m["stdout"@] == JsonView::String(cut_text(out.stdout@, limit))
                &&& m["stderr"@] == JsonView::String(cut_text(out.stderr@, limit))
            }
            &&& event == ProjectHookEvent::FileAfterWrite ==> m["success"@] == JsonView::Bool(
                out.exit_code == 0,
            )
            &&& event != ProjectHookEvent::FileAfterWrite ==> !m.contains_key("success"@)
            &&& !behind ==> !m.contains_key("exit_code"@) && !m.contains_key("stdout"@)
                && !m.contains_key("stderr"@)
        }),
{
    exec_names_differ();
}

/// Where nothing was put out, nothing is told of it.
pub proof fn hooks_before_are_told_no_output(
    event: ProjectHookEvent,
    name: Seq<char>,
    ctx: ExecCommandContext,
    params: ExecParams,
    limit: int,
)
    ensures
        ({
            let m = exec_payload(event, name, ctx, params, None, limit);
            !m.contains_key("exit_code"@) && !m.contains_key("stdout"@) && !m.contains_key(
                "stderr"@,
            ) && !m.contains_key("success"@)
        }),
{
    exec_names_differ();
}

/// A hook around a patch is told what it changes, and only such a hook is.
pub proof fn hooks_around_patches_are_told_the_changes(
    event: ProjectHookEvent,
    name: Seq<char>,
    ctx: ExecCommandContext,
    params: ExecParams,
    output: Option<ExecToolCallOutput>,
    limit: int,
)
    ensures
        ({
            let m = exec_payload(event, name, ctx, params, output, limit);
            let around = event == ProjectHookEvent::FileBeforeWrite || event
                == ProjectHookEvent::FileAfterWrite;
            &&& m.contains_key("changes"@) <==> around
            &&& around ==> (ctx.apply_patch matches Some(p) ==> (p.changes matches Some(c)
                ==> m["changes"@] == JsonView::Object(json_map(c))))
            &&& around && ctx.apply_patch is None ==> m["changes"@] is Null
            &&& around ==> (ctx.apply_patch matches Some(p) ==> (p.changes is None
                ==> m["changes"@] is Null))
        }),
{
    exec_names_differ();
}

proof fn session_names_differ()
    ensures
        "event"@ != "session_id"@,
        "event"@ != "turn_id"@,
        "event"@ != "transcript_path"@,
        "event"@ != "cwd"@,
        "event"@ != "model"@,
        "event"@ != "sandbox_policy"@,
        "event"@ != "approval_policy"@,
        "event"@ != "prompt"@,
        "event"@ != "stop_hook_active"@,
        "event"@ != "last_assistant_message"@,
        "session_id"@ != "turn_id"@,
        "session_id"@ != "transcript_path"@,
        "session_id"@ != "cwd"@,
        "session_id"@ != "model"@,
        "session_id"@ != "sandbox_policy"@,
        "session_id"@ != "approval_policy"@,
        "session_id"@ != "prompt"@,
        "session_id"@ != "stop_hook_active"@,
        "session_id"@ != "last_assistant_message"@,
        "turn_id"@ != "transcript_path"@,
        "turn_id"@ != "cwd"@,
        "turn_id"@ != "model"@,
        "turn_id"@ != "prompt"@,
        "turn_id"@ != "stop_hook_active"@,
        "turn_id"@ != "last_assistant_message"@,
        "transcript_path"@ != "cwd"@,
        "transcript_path"@ != "model"@,
        "transcript_path"@ != "sandbox_policy"@,
        "transcript_path"@ != "approval_policy"@,
        "transcript_path"@ != "prompt"@,
        "transcript_path"@ != "stop_hook_active"@,
        "transcript_path"@ != "last_assistant_message"@,
        "cwd"@ != "model"@,
        "cwd"@ != "sandbox_policy"@,
        "cwd"@ != "approval_policy"@,
        "cwd"@ != "prompt"@,
        "cwd"@ != "stop_hook_active"@,
        "cwd"@ != "last_assistant_message"@,
        "model"@ != "sandbox_policy"@,
        "model"@ != "approval_policy"@,
        "model"@ != "prompt"@,
        "model"@ != "stop_hook_active"@,
        "model"@ != "last_assistant_message"@,
        "sandbox_policy"@ != "approval_policy"@,
        "stop_hook_active"@ != "last_assistant_message"@,
{
    reveal_strlit("event");
    reveal_strlit("session_id");
    reveal_strlit("turn_id");
    reveal_strlit("transcript_path");
    reveal_strlit("cwd");
    reveal_strlit("model");
    reveal_strlit("sandbox_policy");
    reveal_strlit("approval_policy");
    reveal_strlit("prompt");
    reveal_strlit("stop_hook_active");
    reveal_strlit("last_assistant_message");
    assert("event"@.len() == 5 && "session_id"@.len() == 10 && "turn_id"@.len() == 7);
    assert("transcript_path"@.len() == 15 && "cwd"@.len() == 3 && "model"@.len() == 5);
    assert("sandbox_policy"@.len() == 14 && "approval_policy"@.len() == 15);
    assert("prompt"@.len() == 6 && "stop_hook_active"@.len() == 16);
    assert("last_assistant_message"@.len() == 22);
    assert("event"@[0] == 'e' && "model"@[0] == 'm' && "transcript_path"@[0] == 't');
    assert("approval_policy"@[0] == 'a');
}

/// The optional text is told as it is, or as null.
pub open spec fn is_told_text(v: JsonView, t: Option<String>) -> bool {
    match t {
        Some(s) => v == JsonView::String(s@),
        None => v is Null,
    }
}

/// A hook at the start or the end of a session is told of the session; one at another
/// moment, only which moment that is.
pub proof fn hooks_are_told_the_session(event: ProjectHookEvent, name: Seq<char>, s: SessionFacts)
    ensures
        ({
            let m = session_payload(event, name, s);
            let of_session = event == ProjectHookEvent::SessionStart || event
                == ProjectHookEvent::SessionEnd;
            &&& m["event"@] == JsonView::String(name)
            &&& of_session ==> {
                &&& m["session_id"@] == JsonView::String(s.session_id@)
                &&& is_told_text(m["transcript_path"@], s.transcript_path)
                &&& m["cwd"@] == JsonView::String(s.cwd@)
                &&& m["model"@] == JsonView::String(s.model@)
                &&& m["sandbox_policy"@] == JsonView::String(s.sandbox_policy@)
                &&& m["approval_policy"@] == JsonView::String(s.approval_policy@)
            }
            &&& !of_session ==> m.dom() == set!["event"@]
        }),
{
    session_names_differ();
    let m = session_payload(event, name, s);
    if event != ProjectHookEvent::SessionStart && event != ProjectHookEvent::SessionEnd {
        assert(m.dom() =~= set!["event"@]);
    }
}

/// A hook is told what the user sends, and where.
pub proof fn hooks_are_told_the_prompt(
    name: Seq<char>,
    turn_id: Seq<char>,
    s: SessionFacts,
    prompt: Seq<char>,
)
    ensures
        ({
            let m = user_prompt_members(name, turn_id, s, prompt);
            &&& m["event"@] == JsonView::String(name)
            &&& m["session_id"@] == JsonView::String(s.session_id@)
            &&& m["turn_id"@] == JsonView::String(turn_id)
            &&& is_told_text(m["transcript_path"@], s.transcript_path)
            &&& m["cwd"@] == JsonView::String(s.cwd@)
            &&& m["model"@] == JsonView::String(s.model@)
            &&& m["prompt"@] == JsonView::String(prompt)
        }),
{
    session_names_differ();
}

/// A hook is told that the model stops, what it said last, and whether that was on a
/// hook's account.
pub proof fn hooks_are_told_the_stop(
    name: Seq<char>,
    turn_id: Seq<char>,
    s: SessionFacts,
    active: bool,
    last: Option<Seq<char>>,
)
    ensures
        ({
            let m = stop_members(name, turn_id, s, active, last);
            &&& m["event"@] == JsonView::String(name)
            &&& m["session_id"@] == JsonView::String(s.session_id@)
            &&& m["turn_id"@] == JsonView::String(turn_id)
            &&& is_told_text(m["transcript_path"@], s.transcript_path)
            &&& m["cwd"@] == JsonView::String(s.cwd@)
            &&& m["model"@] == JsonView::String(s.model@)
            &&& m["stop_hook_active"@] == JsonView::Bool(active)
            &&& last matches Some(t) ==> m["last_assistant_message"@] == JsonView::String(t)
            &&& last is None ==> m["last_assistant_message"@] is Null
        }),
{
    session_names_differ();
}

/// What the user sends is told text by text, in order, without white space around them
/// and without blank ones.
pub proof fn prompts_are_told_text_by_text(items: Seq<InputItem>, item: InputItem)
    ensures
        prompt_texts(Seq::empty()).len() == 0,
        item is Other ==> prompt_texts(items.push(item)) == prompt_texts(items),
        item matches InputItem::Text { text } ==> {
            &&& trim_text(text@).len() == 0 ==> prompt_texts(items.push(item)) == prompt_texts(items)
            &&& trim_text(text@).len() > 0 ==> prompt_texts(items.push(item)) == prompt_texts(
                items,
            ).push(trim_text(text@))
        },
{
    assert(items.push(item).drop_last() =~= items);
}

// ---------------------------------------------------------------------------
// What comes of what hooks say

/// What a hook puts out is added, unless it is blank, whatever its exit code.
pub proof fn outputs_of_hooks_are_added(
    results: Seq<ProjectHookCommandResult>,
    r: ProjectHookCommandResult,
)
    ensures
        outputs_of(Seq::empty()).len() == 0,
        trim_text(r.stdout@).len() == 0 ==> outputs_of(results.push(r)) == outputs_of(results),
        trim_text(r.stdout@).len() > 0 ==> outputs_of(results.push(r)) == outputs_of(results).push(
            trim_text(r.stdout@),
        ),
{
    assert(results.push(r).drop_last() =~= results);
}

/// A hook objects by an exit code of two and a reason; with another code, or without a
/// reason, it does not.
pub proof fn objections_of_hooks_are_added(
    results: Seq<ProjectHookCommandResult>,
    r: ProjectHookCommandResult,
)
    ensures
        objections_of(Seq::empty()).len() == 0,
        r.exit_code == Some(2i32) && trim_text(r.stderr@).len() > 0 ==> objections_of(
            results.push(r),
        ) == objections_of(results).push(trim_text(r.stderr@)),
        r.exit_code != Some(2i32) || trim_text(r.stderr@).len() == 0 ==> objections_of(
            results.push(r),
        ) == objections_of(results),
{
    assert(results.push(r).drop_last() =~= results);
}

/// The reasons of all hooks that object are told together, with a blank line between
/// them; where none objects, there is none.
pub proof fn reasons_are_told_together(results: Seq<ProjectHookCommandResult>)
    ensures
        objections_of(results).len() == 0 ==> objection(results) is None,
        objections_of(results).len() > 0 ==> objection(results) == Some(
            joined(objections_of(results), "\n\n"@),
        ),
{
}

/// The hooks of a moment run in the order in which they are listed.
pub proof fn hooks_run_in_order(hooks: Seq<ProjectHook>, event: ProjectHookEvent)
    ensures
        forall|k: int, l: int|
            0 <= k < l < hook_places(hooks, event).len() ==> #[trigger] hook_places(hooks, event)[k]
                < #[trigger] hook_places(hooks, event)[l],
        forall|k: int|
            0 <= k < hook_places(hooks, event).len() ==> 0 <= #[trigger] hook_places(
                hooks,
                event,
            )[k] < hooks.len() && hooks[hook_places(hooks, event)[k]].event == event,
    decreases hooks.len(),
{
    if hooks.len() > 0 {
        let t = hooks.drop_last();
        hooks_run_in_order(t, event);
        let before = hook_places(t, event);
        let places = hook_places(hooks, event);
        assert forall|k: int| 0 <= k < places.len() implies 0 <= #[trigger] places[k] < hooks.len()
            && hooks[places[k]].event == event by {
            if k < before.len() {
                assert(places[k] == before[k]);
                assert(t[before[k]] == hooks[before[k]]);
            }
        }
        assert forall|k: int, l: int| 0 <= k < l < places.len() implies #[trigger] places[k]
            < #[trigger] places[l] by {
            assert(places[k] == before[k]);
            if l < before.len() {
                assert(places[l] == before[l]);
            }
        }
    }
}

/// Of the commands of a project the first one that matches is run.
pub proof fn first_matching_command_is_run(matched: Seq<bool>, i: int)
    ensures
        0 <= i < matched.len() && matched[i] && (forall|j: int| 0 <= j < i ==> !#[trigger] matched[j])
            ==> first_match(matched) == i,
        (forall|j: int| 0 <= j < matched.len() ==> !#[trigger] matched[j]) ==> first_match(matched)
            == matched.len(),
    decreases matched.len(),
{
    if matched.len() > 0 && !matched[0] {
        let t = matched.drop_first();
        first_matching_command_is_run(t, i - 1);
        if 0 <= i < matched.len() && matched[i] && (forall|j: int|
            0 <= j < i ==> !#[trigger] matched[j]) {
            assert(t[i - 1] == matched[i]);
            assert forall|j: int| 0 <= j < i - 1 implies !#[trigger] t[j] by {
                assert(t[j] == matched[j + 1]);
            }
        }
        if forall|j: int| 0 <= j < matched.len() ==> !#[trigger] matched[j] {
            assert forall|j: int| 0 <= j < t.len() implies !#[trigger] t[j] by {
                assert(t[j] == matched[j + 1]);
            }
        }
    }
}

// ---------------------------------------------------------------------------
// How they are run

/// A hook belongs to the submission of the command that it runs around, else to the one
/// that it is run for, else to the first one.
pub proof fn hooks_belong_to_a_submission(
    base_ctx: Option<ExecCommandContext>,
    fallback: Option<Seq<char>>,
    initial: Seq<char>,
)
    ensures
        base_ctx matches Some(ctx) ==> hook_sub_id(base_ctx, fallback, initial) == ctx.sub_id@,
        base_ctx is None ==> (fallback matches Some(s) ==> hook_sub_id(base_ctx, fallback, initial)
            == s),
        base_ctx is None && fallback is None ==> hook_sub_id(base_ctx, fallback, initial)
            == initial,
{
}

/// A hook is called by the command that it runs around, or by the moment, and by its place
/// among the hooks of the moment, counted from one.
pub proof fn hooks_are_called_by_their_place(
    base_ctx: Option<ExecCommandContext>,
    slug: Seq<char>,
    index: int,
)
    requires
        0 <= index,
    ensures
        base_ctx matches Some(ctx) ==> hook_call_id(base_ctx, slug, index) == identifier(
            ctx.call_id@,
        ) + "_hook_"@ + slug + "_"@ + decimal((index + 1) as nat),
        base_ctx is None ==> hook_call_id(base_ctx, slug, index) == slug + "_hook_"@ + slug + "_"@
            + decimal((index + 1) as nat),
{
    reveal_with_fuel(flat, 6);
    let parts = crate::hooks::hook_call_id_parts(base_ctx, slug, index);
    assert(flat(parts) =~= parts[0] + "_hook_"@ + slug + "_"@ + decimal((index + 1) as nat));
}

proof fn env_names_differ()
    ensures
        "CODE_HOOK_EVENT"@ != "CODE_HOOK_TRIGGER"@,
        "CODE_HOOK_EVENT"@ != "CODE_HOOK_CALL_ID"@,
        "CODE_HOOK_EVENT"@ != "CODE_HOOK_SUB_ID"@,
        "CODE_HOOK_EVENT"@ != "CODE_HOOK_INDEX"@,
        "CODE_HOOK_EVENT"@ != "CODE_HOOK_PAYLOAD"@,
        "CODE_HOOK_EVENT"@ != "CODE_SESSION_CWD"@,
        "CODE_HOOK_EVENT"@ != "CODE_HOOK_NAME"@,
        "CODE_HOOK_EVENT"@ != "CODE_HOOK_SOURCE_CALL_ID"@,
        "CODE_HOOK_TRIGGER"@ != "CODE_HOOK_CALL_ID"@,
        "CODE_HOOK_TRIGGER"@ != "CODE_HOOK_SUB_ID"@,
        "CODE_HOOK_TRIGGER"@ != "CODE_HOOK_INDEX"@,
        "CODE_HOOK_TRIGGER"@ != "CODE_HOOK_PAYLOAD"@,
        "CODE_HOOK_TRIGGER"@ != "CODE_SESSION_CWD"@,
        "CODE_HOOK_TRIGGER"@ != "CODE_HOOK_NAME"@,
        "CODE_HOOK_TRIGGER"@ != "CODE_HOOK_SOURCE_CALL_ID"@,
        "CODE_HOOK_INDEX"@ != "CODE_HOOK_PAYLOAD"@,
        "CODE_HOOK_INDEX"@ != "CODE_HOOK_SUB_ID"@,
        "CODE_HOOK_INDEX"@ != "CODE_HOOK_CALL_ID"@,
        "CODE_SESSION_CWD"@ != "CODE_HOOK_CALL_ID"@,
        "CODE_SESSION_CWD"@ != "CODE_HOOK_SUB_ID"@,
        "CODE_SESSION_CWD"@ != "CODE_HOOK_INDEX"@,
        "CODE_SESSION_CWD"@ != "CODE_HOOK_PAYLOAD"@,
        "CODE_SESSION_CWD"@ != "CODE_HOOK_NAME"@,
        "CODE_SESSION_CWD"@ != "CODE_HOOK_SOURCE_CALL_ID"@,
        "CODE_HOOK_NAME"@ != "CODE_HOOK_CALL_ID"@,
        "CODE_HOOK_NAME"@ != "CODE_HOOK_SUB_ID"@,
        "CODE_HOOK_NAME"@ != "CODE_HOOK_INDEX"@,
        "CODE_HOOK_NAME"@ != "CODE_HOOK_PAYLOAD"@,
        "CODE_HOOK_NAME"@ != "CODE_HOOK_SOURCE_CALL_ID"@,
        "CODE_HOOK_SOURCE_CALL_ID"@ != "CODE_HOOK_CALL_ID"@,
        "CODE_HOOK_SOURCE_CALL_ID"@ != "CODE_HOOK_SUB_ID"@,
        "CODE_HOOK_SOURCE_CALL_ID"@ != "CODE_HOOK_INDEX"@,
        "CODE_HOOK_SOURCE_CALL_ID"@ != "CODE_HOOK_PAYLOAD"@,
{
    reveal_strlit("CODE_HOOK_EVENT");
    reveal_strlit("CODE_HOOK_TRIGGER");
    reveal_strlit("CODE_HOOK_CALL_ID");
    reveal_strlit("CODE_HOOK_SUB_ID");
    reveal_strlit("CODE_HOOK_INDEX");
    reveal_strlit("CODE_HOOK_PAYLOAD");
    reveal_strlit("CODE_SESSION_CWD");
    reveal_strlit("CODE_HOOK_NAME");
    reveal_strlit("CODE_HOOK_SOURCE_CALL_ID");
    assert("CODE_HOOK_EVENT"@.len() == 15 && "CODE_HOOK_TRIGGER"@.len() == 17);
    assert("CODE_HOOK_CALL_ID"@.len() == 17 && "CODE_HOOK_SUB_ID"@.len() == 16);
    assert("CODE_HOOK_INDEX"@.len() == 15 && "CODE_HOOK_PAYLOAD"@.len() == 17);
    assert("CODE_SESSION_CWD"@.len() == 16 && "CODE_HOOK_NAME"@.len() == 14);
    assert("CODE_HOOK_SOURCE_CALL_ID"@.len() == 24);
    assert("CODE_HOOK_EVENT"@[10] == 'E' && "CODE_HOOK_INDEX"@[10] == 'I');
    assert("CODE_HOOK_TRIGGER"@[10] == 'T' && "CODE_HOOK_CALL_ID"@[10] == 'C');
    assert("CODE_HOOK_PAYLOAD"@[10] == 'P');
    assert("CODE_SESSION_CWD"@[5] == 'S' && "CODE_HOOK_SUB_ID"@[5] == 'H');
}

/// A hook's environment tells it the moment, its place, the directory of the session, its
/// name and the command that it runs around, each unless it sets that itself.
pub proof fn hooks_are_told_where_they_run(
    hook: ProjectHook,
    moment: HookMoment,
    payload: Seq<char>,
    base_ctx: Option<ExecCommandContext>,
    sub_id: Seq<char>,
    call_id: Seq<char>,
    index: int,
    session_cwd: Seq<char>,
)
    requires
        0 <= index,
    ensures
        ({
            let own = env_view(hook.env);
            let env = hook_env(
                hook,
                moment,
                payload,
                base_ctx,
                sub_id,
                call_id,
                index,
                session_cwd,
            );
            &&& !own.contains_key("CODE_HOOK_EVENT"@) ==> env["CODE_HOOK_EVENT"@] == moment.name@
            &&& !own.contains_key("CODE_HOOK_TRIGGER"@) ==> env["CODE_HOOK_TRIGGER"@]
                == moment.slug@
            &&& env["CODE_HOOK_INDEX"@] == decimal((index + 1) as nat)
            &&& !own.contains_key("CODE_SESSION_CWD"@) ==> env["CODE_SESSION_CWD"@] == session_cwd
            &&& !own.contains_key("CODE_HOOK_NAME"@) ==> (hook.name matches Some(n)
                ==> env["CODE_HOOK_NAME"@] == n@)
            &&& !own.contains_key("CODE_HOOK_NAME"@) && hook.name is None ==> !env.contains_key(
                "CODE_HOOK_NAME"@,
            )
            &&& !own.contains_key("CODE_HOOK_SOURCE_CALL_ID"@) ==> (base_ctx matches Some(ctx)
                ==> env["CODE_HOOK_SOURCE_CALL_ID"@] == ctx.call_id@)
            &&& !own.contains_key("CODE_HOOK_SOURCE_CALL_ID"@) && base_ctx is None
                ==> !env.contains_key("CODE_HOOK_SOURCE_CALL_ID"@)
        }),
{
    env_names_differ();
}

/// The environment of a command of the project tells it its name, its description and the
/// directory of the session, each unless it sets that itself; and all that it sets stays.
pub proof fn commands_are_told_where_they_run(
    c: ProjectCommand,
    session_cwd: Seq<char>,
    k: Seq<char>,
)
    ensures
        ({
            let own = env_view(c.env);
            let env = command_env(c, session_cwd);
            &&& own.contains_key(k) ==> env.contains_key(k) && env[k] == own[k]
            &&& !own.contains_key("CODE_PROJECT_COMMAND_NAME"@)
                ==> env["CODE_PROJECT_COMMAND_NAME"@] == c.name@
            &&& !own.contains_key("CODE_SESSION_CWD"@) ==> env["CODE_SESSION_CWD"@] == session_cwd
            &&& !own.contains_key("CODE_PROJECT_COMMAND_DESCRIPTION"@) ==> (
            c.description matches Some(d) ==> env["CODE_PROJECT_COMMAND_DESCRIPTION"@] == d@)
        }),
{
    reveal_strlit("CODE_PROJECT_COMMAND_NAME");
    reveal_strlit("CODE_PROJECT_COMMAND_DESCRIPTION");
    reveal_strlit("CODE_SESSION_CWD");
    assert("CODE_PROJECT_COMMAND_NAME"@.len() == 25 && "CODE_SESSION_CWD"@.len() == 16);
    assert("CODE_PROJECT_COMMAND_DESCRIPTION"@.len() == 32);
}

/// What is run is the command itself, in its directory, for as long as it may, shown as
/// what it is, and without asking for more than is allowed.
pub proof fn what_is_run_is_the_command(
    p: PreparedExec,
    command: Seq<Seq<char>>,
    cwd: Seq<char>,
    timeout_ms: Option<u64>,
    sub_id: Seq<char>,
    call_id: Seq<char>,
)
    requires
        is_plain_exec(p, command, cwd, timeout_ms, sub_id, call_id),
    ensures
        texts(p.params.command@) == command,
        texts(p.context.command_for_display@) == command,
        p.params.cwd@ == cwd,
        p.context.cwd@ == cwd,
        p.params.timeout_ms == timeout_ms,
        p.params.with_escalated_permissions == Some(false),
        p.params.shell_script is None,
        p.context.sub_id@ == sub_id,
        p.context.call_id@ == call_id,
        p.context.apply_patch is None,
{
}

/// A hook that fails is told of by its name, else by its program.
pub proof fn failing_hooks_are_named(hook: ProjectHook, error: Seq<char>)
    ensures
        hook.name matches Some(n) ==> hook_failure_text(hook, error) == "Hook `"@ + n@
            + "` failed: "@ + error,
        hook.name is None && hook.command@.len() > 0 ==> hook_failure_text(hook, error)
            == "Hook `"@ + hook.command@[0]@ + "` failed: "@ + error,
        hook.name is None && hook.command@.len() == 0 ==> hook_failure_text(hook, error)
            == "Hook `"@ + "hook"@ + "` failed: "@ + error,
{
    reveal_with_fuel(flat, 5);
    let label = hook_label(hook);
    assert(flat(seq!["Hook `"@, label, "` failed: "@, error]) =~= "Hook `"@ + label
        + "` failed: "@ + error);
}

} // verus!
