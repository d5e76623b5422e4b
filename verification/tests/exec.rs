use code_core::exec::{
    is_bash_executable, is_bash_name, join_text_chunks, materialize_shell_script,
    maybe_run_with_user_profile, project_hook_execution_policy, resolve_internal_sandbox,
    sanitize_identifier, suppress_bash_job_control, suppress_job_control, trimmed_non_empty,
    truncate_payload, BashShell, DeferredShellScript, ExecParams, OtherShell, SafetyCheck,
    SandboxType, Shell,
};
use code_core::exec_events::{
    notify_background_event_with_order, notify_stream_error, on_exec_command_begin,
    on_exec_command_end, order_for_end, run_exec_steps, told_output, turn_diff_event,
    ApplyPatchCommandContext, EventMsg, ExecCommandContext, ExecDuration, ExecFailure, ExecStep,
    ExecToolCallOutput, OrderMeta, ProjectHookEvent, MAX_STREAM_OUTPUT,
};
use code_core::exec_registry::{
    synthetic_exec_end_payload, ExecDropGuard, ExecFlags, FlagTable, Session,
};
use code_core::omap::OrderedMap;
use code_core::protocol::SandboxPolicy;

fn base_params(command: &str) -> ExecParams {
    ExecParams {
        command: vec![command.to_string()],
        shell_script: None,
        cwd: "/tmp".to_string(),
        timeout_ms: None,
        env: OrderedMap::new(),
        with_escalated_permissions: None,
        justification: None,
    }
}

fn bash() -> Shell {
    Shell::Bash(BashShell {
        shell_path: "/bin/bash".to_string(),
        bashrc_path: "/home/test/.bashrc".to_string(),
    })
}

fn strings(v: &[&str]) -> Vec<String> {
    v.iter().map(|s| s.to_string()).collect()
}

#[test]
fn materialize_shell_script_uses_plain_shell_argv_until_exec() {
    let shell = bash();
    let command = "apply_patch <<'PATCH'\n*** Begin Patch\n*** End Patch\nPATCH";
    let mut params = base_params(command);
    params.shell_script = Some(DeferredShellScript {
        command: command.to_string(),
        use_login_shell: true,
    });

    let materialized = materialize_shell_script(&shell, params);

    assert_eq!(
        materialized.command,
        vec![
            "/bin/bash".to_string(),
            "-lc".to_string(),
            command.to_string(),
        ]
    );
}

#[test]
fn materialize_shell_script_honors_login_false() {
    let shell = bash();
    let mut params = base_params("printf hello");
    params.shell_script = Some(DeferredShellScript {
        command: "printf hello".to_string(),
        use_login_shell: false,
    });

    let materialized = materialize_shell_script(&shell, params);

    assert_eq!(
        materialized.command,
        vec![
            "/bin/bash".to_string(),
            "-c".to_string(),
            "printf hello".to_string(),
        ]
    );
}

#[test]
fn project_hooks_run_without_sandboxing() {
    let (sandbox_type, sandbox_policy) = project_hook_execution_policy();

    assert_eq!(sandbox_type, SandboxType::Unsandboxed);
    assert_eq!(sandbox_policy, SandboxPolicy::DangerFullAccess);
}

#[test]
fn project_hooks_do_not_inherit_read_only_or_workspace_write_restrictions() {
    let (sandbox_type, sandbox_policy) = project_hook_execution_policy();

    assert_ne!(sandbox_type, SandboxType::LinuxSeccomp);
    assert!(!matches!(sandbox_policy, SandboxPolicy::ReadOnly));
    assert!(!matches!(sandbox_policy, SandboxPolicy::WorkspaceWrite { .. }));
}

// ---------------------------------------------------------------------------
// Further cases

#[test]
fn script_runs_in_another_shell_too() {
    let shell = Shell::Other(OtherShell {
        login_prefix: strings(&["zsh", "-lc"]),
        plain_prefix: strings(&["zsh", "-c"]),
    });
    let mut params = base_params("ls");
    params.shell_script =
        Some(DeferredShellScript { command: "ls".to_string(), use_login_shell: true });
    assert_eq!(materialize_shell_script(&shell, params).command, strings(&["zsh", "-lc", "ls"]));
}

#[test]
fn command_without_script_stays() {
    assert_eq!(materialize_shell_script(&bash(), base_params("ls")).command, strings(&["ls"]));
}

#[test]
fn profile_applies_only_without_a_script() {
    let profile = || Some(strings(&["/bin/bash", "-lc", "source rc && ls"]));
    let run = maybe_run_with_user_profile(base_params("ls"), &bash(), true, profile());
    assert_eq!(run.command, strings(&["/bin/bash", "-lc", "set +m; source rc && ls"]));

    let mut scripted = base_params("ls");
    scripted.shell_script =
        Some(DeferredShellScript { command: "pwd".to_string(), use_login_shell: true });
    let run = maybe_run_with_user_profile(scripted, &bash(), true, profile());
    assert_eq!(run.command, strings(&["/bin/bash", "-lc", "set +m; pwd"]));

    let run = maybe_run_with_user_profile(base_params("ls"), &bash(), false, profile());
    assert_eq!(run.command, strings(&["ls"]));
}

#[test]
fn job_control_is_switched_off_once() {
    let mut command = strings(&["/usr/bin/bash", "-lc", "sleep 1 &"]);
    suppress_bash_job_control(&mut command);
    assert_eq!(command[2], "set +m; sleep 1 &");
    suppress_bash_job_control(&mut command);
    assert_eq!(command[2], "set +m; sleep 1 &");

    let mut plain = strings(&["bash", "-c", "x"]);
    suppress_bash_job_control(&mut plain);
    assert_eq!(plain[2], "x");

    let mut zsh = strings(&["/bin/zsh", "-lc", "x"]);
    suppress_bash_job_control(&mut zsh);
    assert_eq!(zsh[2], "x");

    let mut four = strings(&["bash", "-lc", "x", "y"]);
    suppress_bash_job_control(&mut four);
    assert_eq!(four, strings(&["bash", "-lc", "x", "y"]));

    let mut told = strings(&["sh", "-lc", "  set +m\nx"]);
    suppress_job_control(&mut told, true);
    assert_eq!(told[2], "  set +m\nx");
}

#[test]
fn bash_is_recognised_by_its_file_name() {
    assert!(is_bash_executable("/bin/bash"));
    assert!(is_bash_executable("'/opt/x/BASH.EXE'"));
    assert!(is_bash_executable("\"bash\""));
    assert!(!is_bash_executable("/bin/bash/sh"));
    assert!(is_bash_executable("/bin/bash/"));
    assert!(is_bash_executable("/bin/bash/.//"));
    assert!(!is_bash_executable("/bin/bash/.."));
    assert!(!is_bash_executable("/"));
    assert!(!is_bash_executable("/bin/rbash"));
    assert!(is_bash_name(None, "bash"));
    assert!(!is_bash_name(Some("zsh".to_string()), "bash"));
}

#[test]
fn identifiers_hold_letters_digits_and_underscores() {
    assert_eq!(sanitize_identifier("Call-1.X"), "call_1_x");
    assert_eq!(sanitize_identifier("__a"), "a");
    assert_eq!(sanitize_identifier("***"), "hook");
    assert_eq!(sanitize_identifier(""), "hook");
    let once = sanitize_identifier("-Ab c-");
    assert_eq!(sanitize_identifier(&once), once);
}

#[test]
fn long_payload_is_cut_and_marked() {
    assert_eq!(truncate_payload("abc", 3), "abc");
    assert_eq!(truncate_payload("abcd", 3), "abc…");
    assert_eq!(truncate_payload("äöü", 2), "äö…");
}

#[test]
fn blank_text_is_none() {
    assert_eq!(trimmed_non_empty(" a b "), Some("a b".to_string()));
    assert_eq!(trimmed_non_empty(" \n\t"), None);
    assert_eq!(join_text_chunks(vec![]), None);
    assert_eq!(join_text_chunks(strings(&["a", "b"])), Some("a\n\nb".to_string()));
}

#[test]
fn sandbox_falls_back_to_the_platforms() {
    let approve = SafetyCheck::AutoApprove { sandbox_type: SandboxType::MacosSeatbelt };
    assert_eq!(resolve_internal_sandbox(&approve, None), SandboxType::MacosSeatbelt);
    assert_eq!(
        resolve_internal_sandbox(&SafetyCheck::AskUser, Some(SandboxType::LinuxSeccomp)),
        SandboxType::LinuxSeccomp
    );
    let reject = SafetyCheck::Reject { reason: "no".to_string() };
    assert_eq!(resolve_internal_sandbox(&reject, None), SandboxType::Unsandboxed);
}

fn context(apply_patch: Option<ApplyPatchCommandContext>) -> ExecCommandContext {
    ExecCommandContext {
        sub_id: "sub".to_string(),
        call_id: "call".to_string(),
        command_for_display: strings(&["ls"]),
        cwd: "/w".to_string(),
        apply_patch,
    }
}

fn output(exit_code: i32, stdout: &str) -> ExecToolCallOutput {
    ExecToolCallOutput {
        exit_code,
        stdout: stdout.to_string(),
        stderr: "err".to_string(),
        aggregated_output: String::new(),
        duration: ExecDuration { secs: 1, nanos: 500_000_000 },
        timed_out: false,
    }
}

#[test]
fn begin_of_a_command_is_told() {
    let event = on_exec_command_begin(context(None), Vec::new(), Some(7), Some(2), 3);
    assert_eq!(event.sub_id, "sub");
    assert_eq!(
        event.order,
        Some(OrderMeta { request_ordinal: 3, output_index: Some(2), sequence_number: Some(7) })
    );
    assert_eq!(event.seq_hint, Some(7));
    assert_eq!(
        event.msg,
        EventMsg::ExecCommandBegin {
            call_id: "call".to_string(),
            command: strings(&["ls"]),
            cwd: "/w".to_string(),
            parsed_cmd: Vec::new(),
        }
    );
}

#[test]
fn begin_of_a_patch_is_told() {
    let patch = ApplyPatchCommandContext {
        user_explicitly_approved_this_action: true,
        changes: None,
    };
    let event = on_exec_command_begin(context(Some(patch)), Vec::new(), None, None, 1);
    assert_eq!(
        event.msg,
        EventMsg::PatchApplyBegin {
            call_id: "call".to_string(),
            auto_approved: false,
            changes: None,
        }
    );
}

#[test]
fn end_of_a_command_is_told_with_its_output_cut() {
    let long = "x".repeat(MAX_STREAM_OUTPUT + 1);
    let event = on_exec_command_end("sub", "call", &output(3, &long), false, Some(8), None, 1);
    assert_eq!(
        event.msg,
        EventMsg::ExecCommandEnd {
            call_id: "call".to_string(),
            stdout: "x".repeat(5120),
            stderr: "err".to_string(),
            exit_code: 3,
            duration: ExecDuration { secs: 1, nanos: 500_000_000 },
        }
    );
    let event = on_exec_command_end("sub", "call", &output(0, "ok"), true, None, None, 1);
    assert_eq!(
        event.msg,
        EventMsg::PatchApplyEnd {
            call_id: "call".to_string(),
            stdout: "ok".to_string(),
            stderr: "err".to_string(),
            success: true,
        }
    );
}

#[test]
fn diff_is_told_after_a_patch_only() {
    let diff = || Ok(Some("d".to_string()));
    let event = turn_diff_event("sub", true, diff()).expect("a diff");
    assert_eq!(event.msg, EventMsg::TurnDiff { unified_diff: "d".to_string() });
    assert!(turn_diff_event("sub", false, diff()).is_none());
    assert!(turn_diff_event("sub", true, Ok(None)).is_none());
    assert!(turn_diff_event("sub", true, Err("e".to_string())).is_none());
}

#[test]
fn failure_is_told_as_output() {
    let told = told_output(&Err(ExecFailure::Failed { message: "boom".to_string() }));
    assert_eq!(told.exit_code, -1);
    assert_eq!(told.stdout, "");
    assert_eq!(told.stderr, "boom");
    let timed = told_output(&Err(ExecFailure::Timeout { output: output(124, "part") }));
    assert_eq!(timed.stdout, "part");
    assert_eq!(told_output(&Ok(output(0, "fine"))).stdout, "fine");
}

#[test]
fn end_comes_after_begin_in_order() {
    assert_eq!(order_for_end(4, Some(1), Some(9)).sequence_number, Some(10));
    assert_eq!(order_for_end(4, Some(1), None).sequence_number, None);
    assert_eq!(order_for_end(4, None, Some(u64::MAX)).sequence_number, Some(u64::MAX));
}

#[test]
fn steps_of_a_command() {
    assert_eq!(
        run_exec_steps(false, true, true),
        vec![
            ExecStep::Track,
            ExecStep::RunHooks { event: ProjectHookEvent::ToolBefore, with_output: false },
            ExecStep::TellBegin,
            ExecStep::Execute,
            ExecStep::TellEnd,
            ExecStep::MarkCompleted,
            ExecStep::FinalizeCancelled,
            ExecStep::RunHooks { event: ProjectHookEvent::ToolAfter, with_output: true },
            ExecStep::NoteExecution,
        ]
    );
    let steps = run_exec_steps(true, true, false);
    assert!(steps.contains(&ExecStep::RunHooks {
        event: ProjectHookEvent::FileBeforeWrite,
        with_output: false
    }));
    assert!(!steps.contains(&ExecStep::NoteExecution));
    assert!(!run_exec_steps(true, false, true)
        .iter()
        .any(|s| matches!(s, ExecStep::RunHooks { .. })));
}

#[test]
fn messages_are_told() {
    let order = OrderMeta { request_ordinal: 1, output_index: None, sequence_number: None };
    let event = notify_background_event_with_order("s", order, "hello".to_string());
    assert_eq!(event.msg, EventMsg::BackgroundEvent { message: "hello".to_string() });
    assert_eq!(event.seq_hint, None);
    let event = notify_stream_error("s", "bad".to_string());
    assert_eq!(event.msg, EventMsg::Error { message: "bad".to_string() });
    assert_eq!(event.order, None);
}

// ---------------------------------------------------------------------------
// Commands that run

fn order(n: u64) -> OrderMeta {
    OrderMeta { request_ordinal: n, output_index: None, sequence_number: Some(n) }
}

#[test]
fn end_of_a_command_that_did_not_end() {
    assert_eq!(synthetic_exec_end_payload(true), (130, "Command cancelled by user.".to_string()));
    assert_eq!(
        synthetic_exec_end_payload(false),
        (130, "Command interrupted before completion.".to_string())
    );
}

#[test]
fn cancelled_commands_are_ended_once() {
    let mut table = FlagTable::new();
    let mut session = Session::new();
    let a = table.register();
    let b = table.register();
    assert_ne!(a, b);
    session.track_running_exec("call-a", "turn", order(1), a);
    session.track_running_exec("call-b", "other", order(2), b);

    let events = session.finalize_cancelled_execs(&mut table, "turn");
    assert_eq!(events.len(), 1);
    assert_eq!(
        events[0].msg,
        EventMsg::ExecCommandEnd {
            call_id: "call-a".to_string(),
            stdout: String::new(),
            stderr: "Command cancelled by user.".to_string(),
            exit_code: 130,
            duration: ExecDuration { secs: 0, nanos: 0 },
        }
    );
    assert_eq!(table.flags[a], ExecFlags { cancelled: true, end_emitted: true });
    assert_eq!(table.flags[b], ExecFlags { cancelled: false, end_emitted: false });
    assert!(session.finalize_cancelled_execs(&mut table, "turn").is_empty());
    assert!(session.running_execs.contains_key("call-b"));
}

#[test]
fn marking_tells_nothing_and_keeps_commands() {
    let mut table = FlagTable::new();
    let mut session = Session::new();
    let a = table.register();
    let b = table.register();
    session.track_running_exec("call-a", "turn", order(1), a);
    session.track_running_exec("call-b", "other", order(2), b);
    session.mark_running_exec_as_cancelled(&mut table, "turn");
    assert!(table.flags[a].cancelled);
    assert!(!table.flags[b].cancelled);
    session.mark_all_running_execs_as_cancelled(&mut table);
    assert!(table.flags[b].cancelled);
    assert_eq!(session.running_execs.len(), 2);
    session.unregister_running_exec("call-a");
    assert!(!session.running_execs.contains_key("call-a"));
}

#[test]
fn guard_tells_the_end_unless_it_was_told() {
    let mut table = FlagTable::new();
    let mut session = Session::new();
    let a = table.register();
    session.track_running_exec("call", "turn", order(1), a);
    let guard = ExecDropGuard::new("turn".to_string(), "call".to_string(), order(1), a);
    let dropped = guard.give_up(&mut table, &mut session, true).expect("an end");
    assert!(!dropped.session_gone);
    assert_eq!(
        dropped.event.msg,
        EventMsg::ExecCommandEnd {
            call_id: "call".to_string(),
            stdout: String::new(),
            stderr: "Command interrupted before completion.".to_string(),
            exit_code: 130,
            duration: ExecDuration { secs: 0, nanos: 0 },
        }
    );
    assert!(!session.running_execs.contains_key("call"));

    let b = table.register();
    session.track_running_exec("call", "turn", order(1), b);
    let mut guard = ExecDropGuard::new("turn".to_string(), "call".to_string(), order(1), b);
    guard.mark_completed(&mut table, &mut session, true);
    assert!(table.flags[b].end_emitted);
    assert!(guard.give_up(&mut table, &mut session, true).is_none());

    let c = table.register();
    let guard = ExecDropGuard::new("turn".to_string(), "call".to_string(), order(1), c);
    let dropped = guard.give_up(&mut table, &mut session, false).expect("an end");
    assert!(dropped.session_gone);
}
