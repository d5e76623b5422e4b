//! What holds of the hooks of a project.

use crate::exec::{cut_text, non_empty};
use crate::exec_events::{ExecCommandContext, ExecToolCallOutput, ProjectHookEvent};
use crate::exec::ExecParams;
use crate::hooks::{
    changes_json, exec_payload, exec_payload_base, hook_env, hook_places, objections_of,
    optional_number, optional_text, session_payload, stop_members, turn_payload,
    user_prompt_members, with_output, HookMoment, ProjectHook, ProjectHookCommandResult,
    SessionFacts,
};
use crate::json::{strings_view, JsonView};
use crate::json_text::all_integers;
use crate::text::{opt_text, texts};
use vstd::prelude::*;

verus! {

broadcast use vstd::seq_lib::group_seq_properties;

proof fn member_added(m: Map<Seq<char>, JsonView>, k: Seq<char>, v: JsonView)
    requires
        all_integers(JsonView::Object(m)),
        all_integers(v),
    ensures
        all_integers(JsonView::Object(m.insert(k, v))),
{
    let n = m.insert(k, v);
    assert forall|l: Seq<char>| #[trigger] n.contains_key(l) implies all_integers(n[l]) by {
        if l != k {
            assert(m.contains_key(l));
            assert(JsonView::Object(m)->Object_0 == m);
            assert(all_integers(m[l]));
            assert(n[l] == m[l]);
        } else {
            assert(n[l] == v);
        }
    }
}

proof fn strings_hold_integers(s: Seq<Seq<char>>)
    ensures
        all_integers(strings_view(s)),
{
    let items = strings_view(s)->Array_0;
    assert forall|i: int| 0 <= i < items.len() implies all_integers(#[trigger] items[i]) by {
        assert(items[i] is String);
    }
}

/// All numbers that a hook around a command is told are integers, where those in
/// the changes of a patch are.
pub proof fn exec_payload_holds_integers(
    event: ProjectHookEvent,
    name: Seq<char>,
    ctx: ExecCommandContext,
    params: ExecParams,
    output: Option<ExecToolCallOutput>,
    limit: int,
)
    requires
        all_integers(changes_json(ctx)),
    ensures
        all_integers(JsonView::Object(exec_payload(event, name, ctx, params, output, limit))),
{
    let m0 = Map::<Seq<char>, JsonView>::empty();
    assert(all_integers(JsonView::Object(m0)));
    let m1 = m0.insert("event"@, JsonView::String(name));
    member_added(m0, "event"@, JsonView::String(name));
    let m2 = m1.insert("call_id"@, JsonView::String(ctx.call_id@));
    member_added(m1, "call_id"@, JsonView::String(ctx.call_id@));
    let m3 = m2.insert("cwd"@, JsonView::String(ctx.cwd@));
    member_added(m2, "cwd"@, JsonView::String(ctx.cwd@));
    strings_hold_integers(texts(params.command@));
    let m4 = m3.insert("command"@, strings_view(texts(params.command@)));
    member_added(m3, "command"@, strings_view(texts(params.command@)));
    member_added(m4, "timeout_ms"@, optional_number(params.timeout_ms));
    let base = exec_payload_base(name, ctx, params);
    let changed = base.insert("changes"@, changes_json(ctx));
    member_added(base, "changes"@, changes_json(ctx));
    if let Some(out) = output {
        output_holds_integers(base, out, limit);
        output_holds_integers(changed, out, limit);
        member_added(
            with_output(changed, out, limit),
            "success"@,
            JsonView::Bool(out.exit_code == 0),
        );
    }
}

proof fn output_holds_integers(m: Map<Seq<char>, JsonView>, out: ExecToolCallOutput, limit: int)
    requires
        all_integers(JsonView::Object(m)),
    ensures
        all_integers(JsonView::Object(with_output(m, out, limit))),
{
    let code = JsonView::Number(crate::json::NumberView::Int(out.exit_code as int));
    let duration = JsonView::Number(
        crate::json::NumberView::Int(crate::hooks::millis(out.duration)),
    );
    let m1 = m.insert("exit_code"@, code);
    member_added(m, "exit_code"@, code);
    let m2 = m1.insert("duration_ms"@, duration);
    member_added(m1, "duration_ms"@, duration);
    let m3 = m2.insert("timed_out"@, JsonView::Bool(out.timed_out));
    member_added(m2, "timed_out"@, JsonView::Bool(out.timed_out));
    let m4 = m3.insert("stdout"@, JsonView::String(cut_text(out.stdout@, limit)));
    member_added(m3, "stdout"@, JsonView::String(cut_text(out.stdout@, limit)));
    member_added(m4, "stderr"@, JsonView::String(cut_text(out.stderr@, limit)));
}

proof fn optional_text_holds_integers(t: Option<Seq<char>>)
    ensures
        all_integers(optional_text(t)),
{
}

/// All numbers that a hook at the start or the end of a session is told are integers.
pub proof fn session_payload_holds_integers(
    event: ProjectHookEvent,
    name: Seq<char>,
    s: SessionFacts,
)
    ensures
        all_integers(JsonView::Object(session_payload(event, name, s))),
{
    let m0 = Map::<Seq<char>, JsonView>::empty();
    assert(all_integers(JsonView::Object(m0)));
    let m1 = m0.insert("event"@, JsonView::String(name));
    member_added(m0, "event"@, JsonView::String(name));
    let m2 = m1.insert("session_id"@, JsonView::String(s.session_id@));
    member_added(m1, "session_id"@, JsonView::String(s.session_id@));
    let path = optional_text(opt_text(s.transcript_path));
    optional_text_holds_integers(opt_text(s.transcript_path));
    let m3 = m2.insert("transcript_path"@, path);
    member_added(m2, "transcript_path"@, path);
    let m4 = m3.insert("cwd"@, JsonView::String(s.cwd@));
    member_added(m3, "cwd"@, JsonView::String(s.cwd@));
    let m5 = m4.insert("model"@, JsonView::String(s.model@));
    member_added(m4, "model"@, JsonView::String(s.model@));
    let m6 = m5.insert("sandbox_policy"@, JsonView::String(s.sandbox_policy@));
    member_added(m5, "sandbox_policy"@, JsonView::String(s.sandbox_policy@));
    member_added(m6, "approval_policy"@, JsonView::String(s.approval_policy@));
}

proof fn turn_payload_holds_integers(name: Seq<char>, turn_id: Seq<char>, s: SessionFacts)
    ensures
        all_integers(JsonView::Object(turn_payload(name, turn_id, s))),
{
    let m0 = Map::<Seq<char>, JsonView>::empty();
    assert(all_integers(JsonView::Object(m0)));
    let m1 = m0.insert("event"@, JsonView::String(name));
    member_added(m0, "event"@, JsonView::String(name));
    let m2 = m1.insert("session_id"@, JsonView::String(s.session_id@));
    member_added(m1, "session_id"@, JsonView::String(s.session_id@));
    let m3 = m2.insert("turn_id"@, JsonView::String(turn_id));
    member_added(m2, "turn_id"@, JsonView::String(turn_id));
    let path = optional_text(opt_text(s.transcript_path));
    optional_text_holds_integers(opt_text(s.transcript_path));
    let m4 = m3.insert("transcript_path"@, path);
    member_added(m3, "transcript_path"@, path);
    let m5 = m4.insert("cwd"@, JsonView::String(s.cwd@));
    member_added(m4, "cwd"@, JsonView::String(s.cwd@));
    member_added(m5, "model"@, JsonView::String(s.model@));
}

/// All numbers that a hook is told when the user sends something are integers.
pub proof fn user_prompt_payload_holds_integers(
    name: Seq<char>,
    turn_id: Seq<char>,
    s: SessionFacts,
    prompt: Seq<char>,
)
    ensures
        all_integers(JsonView::Object(user_prompt_members(name, turn_id, s, prompt))),
{
    turn_payload_holds_integers(name, turn_id, s);
    member_added(turn_payload(name, turn_id, s), "prompt"@, JsonView::String(prompt));
}

/// All numbers that a hook is told when the model stops are integers.
pub proof fn stop_payload_holds_integers(
    name: Seq<char>,
    turn_id: Seq<char>,
    s: SessionFacts,
    stop_hook_active: bool,
    last_assistant_message: Option<Seq<char>>,
)
    ensures
        all_integers(
            JsonView::Object(
                stop_members(name, turn_id, s, stop_hook_active, last_assistant_message),
            ),
        ),
{
    turn_payload_holds_integers(name, turn_id, s);
    let base = turn_payload(name, turn_id, s);
    let active = base.insert("stop_hook_active"@, JsonView::Bool(stop_hook_active));
    member_added(base, "stop_hook_active"@, JsonView::Bool(stop_hook_active));
    optional_text_holds_integers(last_assistant_message);
    member_added(active, "last_assistant_message"@, optional_text(last_assistant_message));
}

/// What a hook is told about its run cannot be overridden; what it sets itself of
/// the rest is kept.
pub proof fn hook_env_tells_the_run(
    hook: ProjectHook,
    moment: HookMoment,
    payload: Seq<char>,
    base_ctx: Option<ExecCommandContext>,
    sub_id: Seq<char>,
    call_id: Seq<char>,
    index: int,
    session_cwd: Seq<char>,
    own: Seq<char>,
)
    ensures
        ({
            let env = hook_env(
                hook,
                moment,
                payload,
                base_ctx,
                sub_id,
                call_id,
                index,
                session_cwd,
            );
            &&& env.contains_key("CODE_HOOK_CALL_ID"@) && env["CODE_HOOK_CALL_ID"@] == call_id
            &&& env.contains_key("CODE_HOOK_SUB_ID"@) && env["CODE_HOOK_SUB_ID"@] == sub_id
            &&& env.contains_key("CODE_HOOK_PAYLOAD"@) && env["CODE_HOOK_PAYLOAD"@] == payload
            &&& crate::hooks::env_view(hook.env).contains_key(own) && own != "CODE_HOOK_CALL_ID"@
                && own != "CODE_HOOK_SUB_ID"@ && own != "CODE_HOOK_INDEX"@ && own
                != "CODE_HOOK_PAYLOAD"@ ==> env.contains_key(own) && env[own]
                == crate::hooks::env_view(hook.env)[own]
        }),
{
    reveal_strlit("CODE_HOOK_CALL_ID");
    reveal_strlit("CODE_HOOK_SUB_ID");
    reveal_strlit("CODE_HOOK_INDEX");
    reveal_strlit("CODE_HOOK_PAYLOAD");
    assert("CODE_HOOK_CALL_ID"@.len() == 17 && "CODE_HOOK_SUB_ID"@.len() == 16);
    assert("CODE_HOOK_INDEX"@.len() == 15 && "CODE_HOOK_PAYLOAD"@.len() == 17);
    assert("CODE_HOOK_CALL_ID"@[10] == 'C' && "CODE_HOOK_PAYLOAD"@[10] == 'P');
}

/// A turn is blocked exactly where a hook objects and says why.
pub proof fn objections_need_a_reason(results: Seq<ProjectHookCommandResult>)
    ensures
        (objections_of(results).len() > 0) == exists|i: int|
            0 <= i < results.len() && (#[trigger] results[i]).exit_code == Some(2i32) && non_empty(
                results[i].stderr@,
            ) is Some,
    decreases results.len(),
{
    if results.len() > 0 {
        let t = results.drop_last();
        objections_need_a_reason(t);
        let l = results.last();
        if objections_of(t).len() > 0 {
            let i = choose|i: int|
                0 <= i < t.len() && (#[trigger] t[i]).exit_code == Some(2i32) && non_empty(
                    t[i].stderr@,
                ) is Some;
            assert(results[i] == t[i]);
        }
        if l.exit_code == Some(2i32) && non_empty(l.stderr@) is Some {
            assert(results[results.len() - 1] == l);
        }
        if exists|i: int|
            0 <= i < results.len() && (#[trigger] results[i]).exit_code == Some(2i32) && non_empty(
                results[i].stderr@,
            ) is Some {
            let i = choose|i: int|
                0 <= i < results.len() && (#[trigger] results[i]).exit_code == Some(2i32)
                    && non_empty(results[i].stderr@) is Some;
            if i < t.len() {
                assert(t[i] == results[i]);
            }
        }
    }
}

/// The hooks that run are all of the moment, and each of the moment runs.
pub proof fn hooks_of_the_moment_run(hooks: Seq<ProjectHook>, event: ProjectHookEvent, i: int)
    requires
        0 <= i < hooks.len(),
    ensures
        hook_places(hooks, event).contains(i) == (hooks[i].event == event),
    decreases hooks.len(),
{
    let t = hooks.drop_last();
    let before = hook_places(t, event);
    let places = hook_places(hooks, event);
    if i < t.len() {
        hooks_of_the_moment_run(t, event, i);
        assert(t[i] == hooks[i]);
        if before.contains(i) {
            let k = choose|k: int| 0 <= k < before.len() && before[k] == i;
            assert(places[k] == i);
        }
        if places.contains(i) {
            let k = choose|k: int| 0 <= k < places.len() && places[k] == i;
            assert(before[k] == i);
        }
    } else {
        places_are_in_range(t, event);
        if hooks[i].event == event {
            assert(places[places.len() - 1] == i);
        } else if places.contains(i) {
            let k = choose|k: int| 0 <= k < places.len() && places[k] == i;
            assert(before[k] < t.len());
        }
    }
}

proof fn places_are_in_range(hooks: Seq<ProjectHook>, event: ProjectHookEvent)
    ensures
        forall|k: int|
            0 <= k < hook_places(hooks, event).len() ==> 0 <= #[trigger] hook_places(
                hooks,
                event,
            )[k] < hooks.len(),
    decreases hooks.len(),
{
    if hooks.len() > 0 {
        let t = hooks.drop_last();
        places_are_in_range(t, event);
        let places = hook_places(hooks, event);
        assert forall|k: int| 0 <= k < places.len() implies 0 <= #[trigger] places[k]
            < hooks.len() by {
            if k < hook_places(t, event).len() {
                assert(places[k] == hook_places(t, event)[k]);
            }
        }
    }
}

} // verus!
