//! What is told of a command: that it begins, that it ends, and what it changed.

use crate::json::JsonValue;
use crate::omap::OrderedMap;
use crate::text::{first_chars, take_chars};
use vstd::prelude::*;

verus! {

/// Where an event stands among the others.
#[derive(Debug, PartialEq, Eq, Clone, Copy, Structural)]
pub struct OrderMeta {
    pub request_ordinal: u64,
    pub output_index: Option<u32>,
    pub sequence_number: Option<u64>,
}

/// How long something took.
#[derive(Debug, PartialEq, Eq, Clone, Copy, Structural)]
pub struct ExecDuration {
    pub secs: u64,
    pub nanos: u32,
}

/// The changes that a patch makes, each as JSON, by the path of its file. There
/// are none where a path is no text.
#[derive(Debug, PartialEq)]
pub struct ApplyPatchCommandContext {
    pub user_explicitly_approved_this_action: bool,
    pub changes: Option<OrderedMap<JsonValue>>,
}

/// The command that is about to be run.
#[derive(Debug, PartialEq)]
pub struct ExecCommandContext {
    pub sub_id: String,
    pub call_id: String,
    pub command_for_display: Vec<String>,
    pub cwd: String,
    pub apply_patch: Option<ApplyPatchCommandContext>,
}

/// What a command put out.
#[derive(Debug, PartialEq, Eq)]
pub struct ExecToolCallOutput {
    pub exit_code: i32,
    pub stdout: String,
    pub stderr: String,
    pub aggregated_output: String,
    pub duration: ExecDuration,
    pub timed_out: bool,
}

/// What is told.
#[derive(Debug, PartialEq)]
pub enum EventMsg {
    ExecCommandBegin {
        call_id: String,
        command: Vec<String>,
        cwd: String,
        /// What the command was recognised as.
        parsed_cmd: Vec<JsonValue>,
    },
    ExecCommandEnd {
        call_id: String,
        stdout: String,
        stderr: String,
        exit_code: i32,
        duration: ExecDuration,
    },
    PatchApplyBegin {
        call_id: String,
        auto_approved: bool,
        changes: Option<OrderedMap<JsonValue>>,
    },
    PatchApplyEnd { call_id: String, stdout: String, stderr: String, success: bool },
    TurnDiff { unified_diff: String },
    BackgroundEvent { message: String },
    Error { message: String },
}

/// An event with the submission that it belongs to, and its place.
#[derive(Debug, PartialEq)]
pub struct OrderedEvent {
    pub sub_id: String,
    pub msg: EventMsg,
    pub order: Option<OrderMeta>,
    /// The number that the event should get among those of the submission.
    pub seq_hint: Option<u64>,
}

/// The place of an event.
pub open spec fn order_of(
    attempt_req: u64,
    output_index: Option<u32>,
    seq_hint: Option<u64>,
) -> OrderMeta {
    OrderMeta { request_ordinal: attempt_req, output_index, sequence_number: seq_hint }
}

/// The event stands at its place.
pub open spec fn stands_at(
    e: OrderedEvent,
    sub_id: Seq<char>,
    attempt_req: u64,
    output_index: Option<u32>,
    seq_hint: Option<u64>,
) -> bool {
    &&& e.sub_id@ == sub_id
    &&& e.order == Some(order_of(attempt_req, output_index, seq_hint))
    &&& e.seq_hint == seq_hint
}

/// Tells that a command begins; of a patch, what it changes, and whether the user
/// had to approve it. `parsed_cmd` is what the command was recognised as.
pub fn on_exec_command_begin(
    ctx: ExecCommandContext,
    parsed_cmd: Vec<JsonValue>,
    seq_hint: Option<u64>,
    output_index: Option<u32>,
    attempt_req: u64,
) -> (e: OrderedEvent)
    ensures
        stands_at(e, ctx.sub_id@, attempt_req, output_index, seq_hint),
        match ctx.apply_patch {
            Some(p) => e.msg == (EventMsg::PatchApplyBegin {
                call_id: ctx.call_id,
                auto_approved: !p.user_explicitly_approved_this_action,
                changes: p.changes,
            }),
            None => e.msg == (EventMsg::ExecCommandBegin {
                call_id: ctx.call_id,
                command: ctx.command_for_display,
                cwd: ctx.cwd,
                parsed_cmd,
            }),
        },
{
    let msg = match ctx.apply_patch {
        Some(p) => EventMsg::PatchApplyBegin {
            call_id: ctx.call_id,
            auto_approved: !p.user_explicitly_approved_this_action,
            changes: p.changes,
        },
        None => EventMsg::ExecCommandBegin {
            call_id: ctx.call_id,
            command: ctx.command_for_display,
            cwd: ctx.cwd,
            parsed_cmd,
        },
    };
    let order = OrderMeta { request_ordinal: attempt_req, output_index, sequence_number: seq_hint };
    OrderedEvent { sub_id: ctx.sub_id, msg, order: Some(order), seq_hint }
}

/// How many characters of each stream are told when a command ends.
pub const MAX_STREAM_OUTPUT: usize = 5_120;

/// What is told when a command ends: the start of what it put out, and how it
/// ended.
pub open spec fn is_end_msg(
    msg: EventMsg,
    call_id: Seq<char>,
    output: ExecToolCallOutput,
    is_apply_patch: bool,
) -> bool {
    match msg {
        EventMsg::PatchApplyEnd { call_id: id, stdout, stderr, success } => is_apply_patch && id@
            == call_id && stdout@ == first_chars(output.stdout@, MAX_STREAM_OUTPUT as int)
            && stderr@ == first_chars(output.stderr@, MAX_STREAM_OUTPUT as int) && success == (
        output.exit_code == 0),
        EventMsg::ExecCommandEnd { call_id: id, stdout, stderr, exit_code, duration } => {
            !is_apply_patch && id@ == call_id && stdout@ == first_chars(
                output.stdout@,
                MAX_STREAM_OUTPUT as int,
            ) && stderr@ == first_chars(output.stderr@, MAX_STREAM_OUTPUT as int) && exit_code
                == output.exit_code && duration == output.duration
        },
        _ => false,
    }
}

/// Tells that a command ended.
pub fn on_exec_command_end(
    sub_id: &str,
    call_id: &str,
    output: &ExecToolCallOutput,
    is_apply_patch: bool,
    seq_hint: Option<u64>,
    output_index: Option<u32>,
    attempt_req: u64,
) -> (e: OrderedEvent)
    ensures
        stands_at(e, sub_id@, attempt_req, output_index, seq_hint),
        is_end_msg(e.msg, call_id@, *output, is_apply_patch),
{
    let stdout = take_chars(output.stdout.as_str(), MAX_STREAM_OUTPUT);
    let stderr = take_chars(output.stderr.as_str(), MAX_STREAM_OUTPUT);
    let msg = if is_apply_patch {
        EventMsg::PatchApplyEnd {
            call_id: call_id.to_string(),
            stdout,
            stderr,
            success: output.exit_code == 0,
        }
    } else {
        EventMsg::ExecCommandEnd {
            call_id: call_id.to_string(),
            stdout,
            stderr,
            exit_code: output.exit_code,
            duration: output.duration,
        }
    };
    let order = OrderMeta { request_ordinal: attempt_req, output_index, sequence_number: seq_hint };
    OrderedEvent { sub_id: sub_id.to_string(), msg, order: Some(order), seq_hint }
}

/// Tells, behind the end of a patch, what the turn has changed so far, where that
/// is known and there is something. `unified_diff` is what was found of it.
pub fn turn_diff_event(
    sub_id: &str,
    is_apply_patch: bool,
    unified_diff: Result<Option<String>, String>,
) -> (e: Option<OrderedEvent>)
    ensures
        match (is_apply_patch, unified_diff) {
            (true, Ok(Some(diff))) => e matches Some(ev) && ev.sub_id@ == sub_id@ && ev.order is None
                && ev.seq_hint is None && ev.msg == (EventMsg::TurnDiff { unified_diff: diff }),
            _ => e is None,
        },
{
    if !is_apply_patch {
        return None;
    }
    match unified_diff {
        Ok(Some(unified_diff)) => Some(
            OrderedEvent {
                sub_id: sub_id.to_string(),
                msg: EventMsg::TurnDiff { unified_diff },
                order: None,
                seq_hint: None,
            },
        ),
        _ => None,
    }
}

/// Tells something at a place among the events.
pub fn notify_background_event_with_order(sub_id: &str, order: OrderMeta, message: String) -> (e:
    OrderedEvent)
    ensures
        e.sub_id@ == sub_id@,
        e.order == Some(order),
        e.seq_hint is None,
        e.msg == (EventMsg::BackgroundEvent { message }),
{
    OrderedEvent {
        sub_id: sub_id.to_string(),
        msg: EventMsg::BackgroundEvent { message },
        order: Some(order),
        seq_hint: None,
    }
}

/// Tells that the stream of a model failed.
pub fn notify_stream_error(sub_id: &str, message: String) -> (e: OrderedEvent)
    ensures
        e.sub_id@ == sub_id@,
        e.order is None,
        e.seq_hint is None,
        e.msg == (EventMsg::Error { message }),
{
    OrderedEvent {
        sub_id: sub_id.to_string(),
        msg: EventMsg::Error { message },
        order: None,
        seq_hint: None,
    }
}

/// How running a command failed.
#[derive(Debug, PartialEq, Eq)]
pub enum ExecFailure {
    /// It ran out of time, with what it had put out.
    Timeout { output: ExecToolCallOutput },
    /// It could not be run; how that is told to the user.
    Failed { message: String },
}

/// What is told of a command that was run: what it put out, also where it ran out
/// of time. Where it could not be run, why stands in its place.
pub open spec fn is_told_output(
    told: ExecToolCallOutput,
    result: Result<ExecToolCallOutput, ExecFailure>,
) -> bool {
    match result {
        Ok(output) => told == output,
        Err(ExecFailure::Timeout { output }) => told == output,
        Err(ExecFailure::Failed { message }) => told.exit_code == -1 && told.stdout@
            == Seq::<char>::empty() && told.stderr == message && told.aggregated_output == message
            && told.duration == (ExecDuration { secs: 0, nanos: 0 }) && !told.timed_out,
    }
}

impl Clone for ExecToolCallOutput {
    fn clone(&self) -> (r: Self)
        ensures
            r == *self,
    {
        ExecToolCallOutput {
            exit_code: self.exit_code,
            stdout: self.stdout.clone(),
            stderr: self.stderr.clone(),
            aggregated_output: self.aggregated_output.clone(),
            duration: self.duration,
            timed_out: self.timed_out,
        }
    }
}

/// What is told of a command that was run.
pub fn told_output(result: &Result<ExecToolCallOutput, ExecFailure>) -> (told: ExecToolCallOutput)
    ensures
        is_told_output(told, *result),
{
    match result {
        Ok(output) => output.clone(),
        Err(ExecFailure::Timeout { output }) => output.clone(),
        Err(ExecFailure::Failed { message }) => ExecToolCallOutput {
            exit_code: -1,
            stdout: String::new(),
            stderr: message.clone(),
            aggregated_output: message.clone(),
            duration: ExecDuration { secs: 0, nanos: 0 },
            timed_out: false,
        },
    }
}

/// The number that the end of a command gets: the one behind that of its begin.
pub open spec fn end_number(seq_hint: Option<u64>) -> Option<u64> {
    match seq_hint {
        Some(n) => Some(
            if n < u64::MAX {
                (n + 1) as u64
            } else {
                u64::MAX
            },
        ),
        None => None,
    }
}

/// The place of the end of a command.
pub fn order_for_end(attempt_req: u64, output_index: Option<u32>, seq_hint: Option<u64>) -> (r:
    OrderMeta)
    ensures
        r == order_of(attempt_req, output_index, end_number(seq_hint)),
{
    let sequence_number = match seq_hint {
        Some(n) => Some(n.saturating_add(1)),
        None => None,
    };
    OrderMeta { request_ordinal: attempt_req, output_index, sequence_number }
}

/// The moments at which the hooks of a project may run.
#[derive(Debug, PartialEq, Eq, Clone, Copy, Structural)]
pub enum ProjectHookEvent {
    SessionStart,
    SessionEnd,
    ToolBefore,
    ToolAfter,
    FileBeforeWrite,
    FileAfterWrite,
    UserPromptSubmit,
    Stop,
}

/// What is done, one after the other, when a command is run.
#[derive(Debug, PartialEq, Eq, Clone, Copy, Structural)]
pub enum ExecStep {
    /// The command is listed as running, and its end is watched for.
    Track,
    /// The hooks of the moment run; with what the command put out, where it ran.
    RunHooks { event: ProjectHookEvent, with_output: bool },
    /// It is told that the command begins.
    TellBegin,
    /// The command runs.
    Execute,
    /// It is told that the command ended.
    TellEnd,
    /// The command is no longer listed, and its end is no longer watched for.
    MarkCompleted,
    /// It is told of every other command of the submission that it was cancelled.
    FinalizeCancelled,
    /// What the command was recognised as is noted.
    NoteExecution,
}

/// The moment before a command, or before a patch.
pub open spec fn before_event(is_apply_patch: bool) -> ProjectHookEvent {
    if is_apply_patch {
        ProjectHookEvent::FileBeforeWrite
    } else {
        ProjectHookEvent::ToolBefore
    }
}

/// The moment after a command, or after a patch.
pub open spec fn after_event(is_apply_patch: bool) -> ProjectHookEvent {
    if is_apply_patch {
        ProjectHookEvent::FileAfterWrite
    } else {
        ProjectHookEvent::ToolAfter
    }
}

/// What is done when a command is run, in order. Hooks run around it where they
/// are enabled; a command that was recognised is noted.
pub open spec fn exec_steps(is_apply_patch: bool, enable_hooks: bool, recognised: bool) -> Seq<
    ExecStep,
> {
    let hooks_before = if enable_hooks {
        seq![ExecStep::RunHooks { event: before_event(is_apply_patch), with_output: false }]
    } else {
        Seq::empty()
    };
    let hooks_after = if enable_hooks {
        seq![ExecStep::RunHooks { event: after_event(is_apply_patch), with_output: true }]
    } else {
        Seq::empty()
    };
    let note = if recognised {
        seq![ExecStep::NoteExecution]
    } else {
        Seq::empty()
    };
    seq![ExecStep::Track] + hooks_before + seq![
        ExecStep::TellBegin,
        ExecStep::Execute,
        ExecStep::TellEnd,
        ExecStep::MarkCompleted,
        ExecStep::FinalizeCancelled,
    ] + hooks_after + note
}

/// What is done when a command is run, in order.
pub fn run_exec_steps(is_apply_patch: bool, enable_hooks: bool, recognised: bool) -> (r: Vec<ExecStep>)
    ensures
        r@ == exec_steps(is_apply_patch, enable_hooks, recognised),
{
    let mut steps: Vec<ExecStep> = Vec::new();
    steps.push(ExecStep::Track);
    if enable_hooks {
        let event = if is_apply_patch {
            ProjectHookEvent::FileBeforeWrite
        } else {
            ProjectHookEvent::ToolBefore
        };
        steps.push(ExecStep::RunHooks { event, with_output: false });
    }
    steps.push(ExecStep::TellBegin);
    steps.push(ExecStep::Execute);
    steps.push(ExecStep::TellEnd);
    steps.push(ExecStep::MarkCompleted);
    steps.push(ExecStep::FinalizeCancelled);
    if enable_hooks {
        let event = if is_apply_patch {
            ProjectHookEvent::FileAfterWrite
        } else {
            ProjectHookEvent::ToolAfter
        };
        steps.push(ExecStep::RunHooks { event, with_output: true });
    }
    if recognised {
        steps.push(ExecStep::NoteExecution);
    }
    assert(steps@ =~= exec_steps(is_apply_patch, enable_hooks, recognised));
    steps
}

/// Whatever is run, its begin is told before it runs and its end right after it,
/// each once; and it is listed as running all the while.
pub proof fn begin_and_end_are_told(is_apply_patch: bool, enable_hooks: bool, recognised: bool)
    ensures
        ({
            let s = exec_steps(is_apply_patch, enable_hooks, recognised);
            let i = if enable_hooks {
                3int
            } else {
                2int
            };
            &&& s[0] == ExecStep::Track
            &&& s[i - 1] == ExecStep::TellBegin
            &&& s[i] == ExecStep::Execute
            &&& s[i + 1] == ExecStep::TellEnd
            &&& s[i + 2] == ExecStep::MarkCompleted
            &&& forall|j: int|
                0 <= j < s.len() && #[trigger] s[j] == ExecStep::TellEnd ==> j == i + 1
            &&& forall|j: int|
                0 <= j < s.len() && #[trigger] s[j] == ExecStep::TellBegin ==> j == i - 1
        }),
{
}

/// A hook never has hooks of its own: without hooks, none runs.
pub proof fn no_hooks_unless_enabled(is_apply_patch: bool, recognised: bool, i: int)
    requires
        0 <= i < exec_steps(is_apply_patch, false, recognised).len(),
    ensures
        !(exec_steps(is_apply_patch, false, recognised)[i] is RunHooks),
{
}

} // verus!
