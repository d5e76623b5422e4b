use code_core::exec::{ExecParams, SandboxType};
use code_core::exec_events::{
    ApplyPatchCommandContext, ExecCommandContext, ExecDuration, ExecToolCallOutput,
    ProjectHookEvent,
};
use code_core::hooks::{
    build_exec_hook_payload, build_session_payload, command_failure_message, find_project_command,
    hook_failure_message, hook_result, hooks_to_run, prepare_hook_command,
    prepare_project_command, stop_outcome, stop_payload, unknown_command_message,
    user_prompt_payload, user_prompt_submit_outcome, user_prompt_text, HookMoment, HookRun,
    InputItem, ProjectCommand, ProjectHook, ProjectHookCommandResult, SessionFacts,
};
use code_core::json::{json_int, json_str, json_strings, json_uint, JsonValue};
use code_core::json_text::to_json_text;
use code_core::omap::OrderedMap;
use code_core::protocol::SandboxPolicy;

fn strings(v: &[&str]) -> Vec<String> {
    v.iter().map(|s| s.to_string()).collect()
}

fn obj(entries: Vec<(&str, JsonValue)>) -> JsonValue {
    let mut m = OrderedMap::new();
    for (k, v) in entries {
        m.insert(k.to_string(), v);
    }
    JsonValue::Object(m)
}

fn moment(event: ProjectHookEvent, name: &str, slug: &str) -> HookMoment {
    HookMoment { event, name: name.to_string(), slug: slug.to_string() }
}

fn context() -> ExecCommandContext {
    ExecCommandContext {
        sub_id: "sub".to_string(),
        call_id: "Call-1".to_string(),
        command_for_display: strings(&["ls"]),
        cwd: "/w".to_string(),
        apply_patch: None,
    }
}

fn params() -> ExecParams {
    ExecParams {
        command: strings(&["ls", "-l"]),
        shell_script: None,
        cwd: "/w".to_string(),
        timeout_ms: Some(1000),
        env: OrderedMap::new(),
        with_escalated_permissions: None,
        justification: None,
    }
}

fn output() -> ExecToolCallOutput {
    ExecToolCallOutput {
        exit_code: 1,
        stdout: "abcdef".to_string(),
        stderr: "e".to_string(),
        aggregated_output: String::new(),
        duration: ExecDuration { secs: 2, nanos: 345_678_901 },
        timed_out: true,
    }
}

#[test]
fn payload_before_a_tool() {
    let m = moment(ProjectHookEvent::ToolBefore, "tool.before", "tool_before");
    assert_eq!(
        build_exec_hook_payload(&m, &context(), &params(), None, 4),
        obj(vec![
            ("event", json_str("tool.before")),
            ("call_id", json_str("Call-1")),
            ("cwd", json_str("/w")),
            ("command", json_strings(&strings(&["ls", "-l"]))),
            ("timeout_ms", json_uint(1000)),
        ])
    );
}

#[test]
fn payload_after_a_tool() {
    let m = moment(ProjectHookEvent::ToolAfter, "tool.after", "tool_after");
    assert_eq!(
        build_exec_hook_payload(&m, &context(), &params(), Some(&output()), 4),
        obj(vec![
            ("event", json_str("tool.after")),
            ("call_id", json_str("Call-1")),
            ("cwd", json_str("/w")),
            ("command", json_strings(&strings(&["ls", "-l"]))),
            ("timeout_ms", json_uint(1000)),
            ("exit_code", json_int(1)),
            ("duration_ms", json_uint(2345)),
            ("timed_out", JsonValue::Bool(true)),
            ("stdout", json_str("abcd…")),
            ("stderr", json_str("e")),
        ])
    );
}

#[test]
fn payload_after_a_write_says_what_changed() {
    let m = moment(ProjectHookEvent::FileAfterWrite, "file.after_write", "file_after_write");
    let mut ctx = context();
    let mut changes = OrderedMap::new();
    changes.insert("a.txt".to_string(), json_str("added"));
    ctx.apply_patch = Some(ApplyPatchCommandContext {
        user_explicitly_approved_this_action: false,
        changes: Some(changes),
    });
    let payload = build_exec_hook_payload(&m, &ctx, &params(), Some(&output()), 100);
    let JsonValue::Object(map) = payload else {
        panic!("an object");
    };
    assert_eq!(map.get("changes"), Some(&obj(vec![("a.txt", json_str("added"))])));
    assert_eq!(map.get("success"), Some(&JsonValue::Bool(false)));
    assert_eq!(map.get("stdout"), Some(&json_str("abcdef")));

    let before = moment(ProjectHookEvent::FileBeforeWrite, "file.before_write", "x");
    let JsonValue::Object(map) = build_exec_hook_payload(&before, &context(), &params(), None, 9)
    else {
        panic!("an object");
    };
    assert_eq!(map.get("changes"), Some(&JsonValue::Null));
}

fn session() -> SessionFacts {
    SessionFacts {
        session_id: "id".to_string(),
        transcript_path: None,
        cwd: "/w".to_string(),
        model: "gpt-5.5".to_string(),
        sandbox_policy: "read-only".to_string(),
        approval_policy: "never".to_string(),
    }
}

#[test]
fn payload_of_a_session() {
    let m = moment(ProjectHookEvent::SessionStart, "session.start", "session_start");
    assert_eq!(
        build_session_payload(&m, &session()),
        obj(vec![
            ("event", json_str("session.start")),
            ("session_id", json_str("id")),
            ("transcript_path", JsonValue::Null),
            ("cwd", json_str("/w")),
            ("model", json_str("gpt-5.5")),
            ("sandbox_policy", json_str("read-only")),
            ("approval_policy", json_str("never")),
        ])
    );
    let m = moment(ProjectHookEvent::Stop, "stop", "stop");
    assert_eq!(build_session_payload(&m, &session()), obj(vec![("event", json_str("stop"))]));
}

#[test]
fn prompt_is_made_of_the_texts() {
    let items = [
        InputItem::Text { text: "  one ".to_string() },
        InputItem::Other,
        InputItem::Text { text: "  ".to_string() },
        InputItem::Text { text: "two".to_string() },
    ];
    assert_eq!(user_prompt_text(&items), "one\n\ntwo");
    assert_eq!(
        user_prompt_payload("user.prompt_submit", "turn", &session(), &items),
        obj(vec![
            ("event", json_str("user.prompt_submit")),
            ("session_id", json_str("id")),
            ("turn_id", json_str("turn")),
            ("transcript_path", JsonValue::Null),
            ("cwd", json_str("/w")),
            ("model", json_str("gpt-5.5")),
            ("prompt", json_str("one\n\ntwo")),
        ])
    );
    assert_eq!(
        stop_payload("stop", "turn", &session(), true, Some("bye")),
        obj(vec![
            ("event", json_str("stop")),
            ("session_id", json_str("id")),
            ("turn_id", json_str("turn")),
            ("transcript_path", JsonValue::Null),
            ("cwd", json_str("/w")),
            ("model", json_str("gpt-5.5")),
            ("stop_hook_active", JsonValue::Bool(true)),
            ("last_assistant_message", json_str("bye")),
        ])
    );
}

fn result(stdout: &str, stderr: &str, exit_code: Option<i32>) -> ProjectHookCommandResult {
    ProjectHookCommandResult {
        stdout: stdout.to_string(),
        stderr: stderr.to_string(),
        exit_code,
    }
}

#[test]
fn hooks_object_with_a_reason_only() {
    let outcome = user_prompt_submit_outcome(&[
        result(" note ", "ignored", Some(0)),
        result("", " why ", Some(2)),
        result("", " also ", Some(2)),
        result("", "", Some(2)),
    ]);
    assert!(outcome.blocked);
    assert_eq!(outcome.block_reason, Some("why\n\nalso".to_string()));
    assert_eq!(outcome.additional_contexts, strings(&["note"]));

    let fine = user_prompt_submit_outcome(&[result("", "  ", Some(2)), result("", "x", Some(1))]);
    assert!(!fine.blocked);
    assert_eq!(fine.block_reason, None);

    let stop = stop_outcome(&[result("", "go on", Some(2))]);
    assert!(stop.blocked);
    assert_eq!(stop.continuation_prompt, Some("go on".to_string()));
    assert!(!stop_outcome(&[result("", "go on", None)]).blocked);
}

fn hook(event: ProjectHookEvent, name: Option<&str>) -> ProjectHook {
    ProjectHook {
        event,
        name: name.map(str::to_string),
        command: strings(&["run.sh"]),
        env: OrderedMap::new(),
        timeout_ms: Some(5),
    }
}

#[test]
fn hooks_of_the_moment_run_in_order() {
    let hooks = [
        hook(ProjectHookEvent::Stop, None),
        hook(ProjectHookEvent::ToolBefore, None),
        hook(ProjectHookEvent::Stop, None),
    ];
    assert_eq!(hooks_to_run(&hooks, ProjectHookEvent::Stop, false), vec![0, 2]);
    assert!(hooks_to_run(&hooks, ProjectHookEvent::Stop, true).is_empty());
    assert!(hooks_to_run(&hooks, ProjectHookEvent::SessionEnd, false).is_empty());
}

#[test]
fn hook_is_prepared() {
    let m = moment(ProjectHookEvent::ToolBefore, "tool.before", "tool_before");
    let payload = obj(vec![("a", json_uint(1)), ("b", json_strings(&strings(&["x\"y"])))]);
    let mut h = hook(ProjectHookEvent::ToolBefore, Some("lint"));
    h.env.insert("CODE_HOOK_EVENT".to_string(), "mine".to_string());
    h.env.insert("CODE_HOOK_INDEX".to_string(), "99".to_string());
    let ctx = context();
    let run = HookRun {
        base_ctx: Some(&ctx),
        fallback_sub_id: None,
        initial_submit_id: "",
        index: 0,
        session_cwd: "/w",
        hook_cwd: "/w/hooks",
    };
    let prepared = prepare_hook_command(&h, &m, &payload, &run);
    assert_eq!(prepared.context.call_id, "call_1_hook_tool_before_1");
    assert_eq!(prepared.context.sub_id, "sub");
    assert_eq!(prepared.context.cwd, "/w/hooks");
    assert_eq!(prepared.params.timeout_ms, Some(5));
    assert_eq!(prepared.params.with_escalated_permissions, Some(false));
    assert_eq!(prepared.sandbox_type, SandboxType::Unsandboxed);
    assert_eq!(prepared.sandbox_policy, SandboxPolicy::DangerFullAccess);
    let env = |k: &str| prepared.params.env.get(k).map(String::as_str);
    assert_eq!(env("CODE_HOOK_EVENT"), Some("mine"));
    assert_eq!(env("CODE_HOOK_TRIGGER"), Some("tool_before"));
    assert_eq!(env("CODE_HOOK_CALL_ID"), Some("call_1_hook_tool_before_1"));
    assert_eq!(env("CODE_HOOK_SUB_ID"), Some("sub"));
    assert_eq!(env("CODE_HOOK_INDEX"), Some("1"));
    assert_eq!(env("CODE_HOOK_PAYLOAD"), Some(r#"{"a":1,"b":["x\"y"]}"#));
    assert_eq!(env("CODE_SESSION_CWD"), Some("/w"));
    assert_eq!(env("CODE_HOOK_NAME"), Some("lint"));
    assert_eq!(env("CODE_HOOK_SOURCE_CALL_ID"), Some("Call-1"));
}

#[test]
fn hook_outside_a_command_is_prepared() {
    let m = moment(ProjectHookEvent::Stop, "stop", "stop");
    let run = HookRun {
        base_ctx: None,
        fallback_sub_id: Some("turn"),
        initial_submit_id: "first",
        index: 2,
        session_cwd: "/w",
        hook_cwd: "/w",
    };
    let h = hook(ProjectHookEvent::Stop, None);
    let prepared = prepare_hook_command(&h, &m, &JsonValue::Null, &run);
    assert_eq!(prepared.context.call_id, "stop_hook_stop_3");
    assert_eq!(prepared.context.sub_id, "turn");
    assert!(!prepared.params.env.contains_key("CODE_HOOK_NAME"));
    assert!(!prepared.params.env.contains_key("CODE_HOOK_SOURCE_CALL_ID"));
    let run = HookRun { fallback_sub_id: None, ..run };
    assert_eq!(prepare_hook_command(&h, &m, &JsonValue::Null, &run).context.sub_id, "first");
}

#[test]
fn hook_that_fails_says_so() {
    let named = hook(ProjectHookEvent::Stop, Some("lint"));
    assert_eq!(hook_failure_message(&named, "boom"), "Hook `lint` failed: boom");
    let mut plain = hook(ProjectHookEvent::Stop, None);
    assert_eq!(hook_failure_message(&plain, "boom"), "Hook `run.sh` failed: boom");
    plain.command = Vec::new();
    assert_eq!(hook_failure_message(&plain, "boom"), "Hook `hook` failed: boom");

    let failed = hook_result(&named, Err("boom".to_string()));
    assert_eq!(failed, result("", "Hook `lint` failed: boom", None));
    assert_eq!(hook_result(&named, Ok(output())), result("abcdef", "e", Some(1)));
}

fn command(name: &str) -> ProjectCommand {
    ProjectCommand {
        name: name.to_string(),
        description: Some("what it does".to_string()),
        command: strings(&["make"]),
        env: OrderedMap::new(),
        timeout_ms: None,
    }
}

#[test]
fn first_command_that_matches_is_found() {
    let commands = [command("a"), command("b"), command("c")];
    let found = find_project_command(&commands, &[false, true, true]).expect("a match");
    assert_eq!(found.name, "b");
    assert!(find_project_command(&commands, &[false, false, false]).is_none());
    assert_eq!(unknown_command_message(" x "), "Unknown project command `x`");
    assert_eq!(command_failure_message(&command("b"), "boom"), "Project command `b` failed: boom");
}

#[test]
fn project_command_is_prepared() {
    let policy = SandboxPolicy::ReadOnly;
    let prepared = prepare_project_command(
        &command("Run It"),
        "sub",
        "/w",
        "/w/x",
        SandboxType::LinuxSeccomp,
        &policy,
    );
    assert_eq!(prepared.context.call_id, "project_cmd_run_it");
    assert_eq!(prepared.params.cwd, "/w/x");
    assert_eq!(prepared.sandbox_type, SandboxType::LinuxSeccomp);
    assert_eq!(prepared.sandbox_policy, SandboxPolicy::ReadOnly);
    let env = |k: &str| prepared.params.env.get(k).map(String::as_str);
    assert_eq!(env("CODE_PROJECT_COMMAND_NAME"), Some("Run It"));
    assert_eq!(env("CODE_PROJECT_COMMAND_DESCRIPTION"), Some("what it does"));
    assert_eq!(env("CODE_SESSION_CWD"), Some("/w"));
}

#[test]
fn json_is_written_as_text() {
    let value = obj(vec![
        ("z", JsonValue::Null),
        ("a", JsonValue::Array(vec![JsonValue::Bool(true), json_int(-3)])),
        ("q", json_str("line\n\"x\"")),
    ]);
    assert_eq!(to_json_text(&value), r#"{"a":[true,-3],"q":"line\n\"x\"","z":null}"#);
}
