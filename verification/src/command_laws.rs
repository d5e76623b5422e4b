//! What is told of a command, how it is run, and what becomes of it when it is given up.

use crate::exec::{
    cut_text, file_name_of, identifier, identifier_char, last_part, leads_to_bash, materialized,
    may_be_bash, may_be_suppressed, may_lead_to, profile_arguments, same_but_command, unquoted,
    without_job_control, ExecParams, Shell,
};
use crate::exec_events::{
    end_number, exec_steps, is_end_msg, is_told_output, order_of, stands_at, EventMsg, ExecFailure,
    ExecStep, ExecToolCallOutput, OrderedEvent, ProjectHookEvent,
};
use crate::exec_registry::{
    cancelled_flags, finalized_flags, is_finalized, is_open, is_running, is_synthetic_end,
    numbers_fit, open_execs, still_running, tell_cancelled, ExecFlags, RunningExecMeta,
};
use crate::order::filter_places;
use crate::text::{ascii_lower_text, starts, strip_end, strip_start, texts, trim_start_text};
use vstd::prelude::*;

verus! {

broadcast use vstd::seq_lib::group_seq_properties;

// ---------------------------------------------------------------------------
// What is told

/// The text is the beginning of the other, and as much of it as may be told.
pub open spec fn is_beginning(told: Seq<char>, whole: Seq<char>) -> bool {
    &&& told.len() <= 5_120
    &&& told.len() <= whole.len()
    &&& told.len() < whole.len() ==> told.len() == 5_120
    &&& forall|i: int| 0 <= i < told.len() ==> #[trigger] told[i] == whole[i]
}

/// The end of a command is told with what it put out, as far as it may be told, and with
/// how it ended; that of a patch with whether it went well.
pub proof fn ends_tell_how_it_went(
    msg: EventMsg,
    call_id: Seq<char>,
    output: ExecToolCallOutput,
    is_apply_patch: bool,
)
    requires
        is_end_msg(msg, call_id, output, is_apply_patch),
    ensures
        is_apply_patch <==> msg is PatchApplyEnd,
        !is_apply_patch <==> msg is ExecCommandEnd,
        msg matches EventMsg::PatchApplyEnd { call_id: id, stdout, stderr, success } ==> {
            &&& id@ == call_id
            &&& is_beginning(stdout@, output.stdout@)
            &&& is_beginning(stderr@, output.stderr@)
            &&& success <==> output.exit_code == 0
        },
        msg matches EventMsg::ExecCommandEnd { call_id: id, stdout, stderr, exit_code, duration }
            ==> {
            &&& id@ == call_id
            &&& is_beginning(stdout@, output.stdout@)
            &&& is_beginning(stderr@, output.stderr@)
            &&& exit_code == output.exit_code
            &&& duration == output.duration
        },
{
}

/// What is told of a command that ran is what it put out, in time or not; of one that
/// could not be run, that it failed, and why.
pub proof fn failures_are_told(
    told: ExecToolCallOutput,
    result: Result<ExecToolCallOutput, ExecFailure>,
)
    requires
        is_told_output(told, result),
    ensures
        result matches Ok(output) ==> told == output,
        result matches Err(ExecFailure::Timeout { output }) ==> told == output,
        result matches Err(ExecFailure::Failed { message }) ==> {
            &&& told.exit_code == -1
            &&& told.stderr@ == message@
            &&& told.aggregated_output@ == message@
            &&& told.stdout@.len() == 0
            &&& told.duration.secs == 0 && told.duration.nanos == 0
            &&& !told.timed_out
        },
{
}

/// An event stands where it is put: in its submission, its attempt, its place in the
/// answer, and at its number.
pub proof fn events_stand_where_they_are_put(
    e: OrderedEvent,
    sub_id: Seq<char>,
    attempt_req: u64,
    output_index: Option<u32>,
    seq_hint: Option<u64>,
)
    requires
        stands_at(e, sub_id, attempt_req, output_index, seq_hint),
    ensures
        e.sub_id@ == sub_id,
        e.order is Some,
        e.order->0.request_ordinal == attempt_req,
        e.order->0.output_index == output_index,
        e.order->0.sequence_number == seq_hint,
        e.seq_hint == seq_hint,
{
}

/// The end of a command has the number after that of its begin, unless there is none
/// after it.
pub proof fn ends_come_one_later(attempt_req: u64, output_index: Option<u32>, begin: Option<u64>)
    ensures
        ({
            let o = order_of(attempt_req, output_index, end_number(begin));
            &&& o.request_ordinal == attempt_req
            &&& o.output_index == output_index
            &&& begin is None ==> o.sequence_number is None
            &&& begin matches Some(n) ==> n < u64::MAX ==> o.sequence_number == Some((n + 1) as u64)
            &&& begin matches Some(n) ==> n == u64::MAX ==> o.sequence_number == Some(u64::MAX)
        }),
{
}

/// Hooks run before the begin is told and after the end is, those for files around a
/// patch and those for tools around any other command; only the later ones are told what
/// it put out. Other commands that were cancelled are told of before the later hooks run,
/// and what was recognised is noted last.
pub proof fn hooks_run_around_the_command(is_apply_patch: bool, recognised: bool)
    ensures
        ({
            let s = exec_steps(is_apply_patch, true, recognised);
            let before = if is_apply_patch {
                ProjectHookEvent::FileBeforeWrite
            } else {
                ProjectHookEvent::ToolBefore
            };
            let after = if is_apply_patch {
                ProjectHookEvent::FileAfterWrite
            } else {
                ProjectHookEvent::ToolAfter
            };
            &&& s.len() == if recognised {
                9int
            } else {
                8int
            }
            &&& s[0] == ExecStep::Track
            &&& s[1] == ExecStep::RunHooks { event: before, with_output: false }
            &&& s[2] == ExecStep::TellBegin
            &&& s[3] == ExecStep::Execute
            &&& s[4] == ExecStep::TellEnd
            &&& s[5] == ExecStep::MarkCompleted
            &&& s[6] == ExecStep::FinalizeCancelled
            &&& s[7] == ExecStep::RunHooks { event: after, with_output: true }
            &&& recognised ==> s[8] == ExecStep::NoteExecution
        }),
        ({
            let s = exec_steps(is_apply_patch, false, recognised);
            &&& s.len() == if recognised {
                7int
            } else {
                6int
            }
            &&& s[0] == ExecStep::Track && s[1] == ExecStep::TellBegin && s[2] == ExecStep::Execute
            &&& s[3] == ExecStep::TellEnd && s[4] == ExecStep::MarkCompleted
            &&& s[5] == ExecStep::FinalizeCancelled
            &&& recognised ==> s[6] == ExecStep::NoteExecution
        }),
{
}

// ---------------------------------------------------------------------------
// Commands that are given up

/// The end of a command that is given up says so, by a code and in words: that the user
/// cancelled it, or that it was interrupted.
pub proof fn ends_of_given_up_commands(
    e: OrderedEvent,
    sub_id: Seq<char>,
    call_id: Seq<char>,
    order_meta: crate::exec_events::OrderMeta,
    cancelled: bool,
)
    requires
        is_synthetic_end(e, sub_id, call_id, order_meta, cancelled),
    ensures
        e.sub_id@ == sub_id,
        e.order == Some(order_meta),
        e.seq_hint == order_meta.sequence_number,
        e.msg is ExecCommandEnd,
        e.msg->ExecCommandEnd_call_id@ == call_id,
        e.msg->exit_code == 130,
        e.msg->ExecCommandEnd_stdout@.len() == 0,
        cancelled ==> e.msg->ExecCommandEnd_stderr@ == "Command cancelled by user."@,
        !cancelled ==> e.msg->ExecCommandEnd_stderr@ == "Command interrupted before completion."@,
{
}

/// Cancelling a submission marks just the commands of that submission that run; where
/// none is named, it marks all that run.
pub proof fn cancelling_marks_what_runs(
    flags: Seq<ExecFlags>,
    execs: Map<Seq<char>, RunningExecMeta>,
    k: Seq<char>,
    sub_id: Seq<char>,
)
    requires
        numbers_fit(execs, flags.len()),
        execs.contains_key(k),
    ensures
        ({
            let n = execs[k].flags as int;
            &&& cancelled_flags(flags, execs, None)[n].cancelled
            &&& execs[k].sub_id@ == sub_id ==> cancelled_flags(flags, execs, Some(
                sub_id,
            ))[n].cancelled
            &&& execs[k].sub_id@ != sub_id ==> cancelled_flags(flags, execs, Some(
                sub_id,
            ))[n].cancelled == flags[n].cancelled
        }),
{
    let n = execs[k].flags as int;
    assert(is_running(execs, n, None));
    if execs[k].sub_id@ == sub_id {
        assert(is_running(execs, n, Some(sub_id)));
    } else if is_running(execs, n, Some(sub_id)) {
        let l = choose|l: Seq<char>|
            #[trigger] execs.contains_key(l) && execs[l].flags == n
                && crate::exec_registry::belongs(execs[l], Some(sub_id));
        assert(l == k);
    }
}

/// A mark of no command that runs stays as it is.
pub proof fn cancelling_leaves_what_does_not_run(
    flags: Seq<ExecFlags>,
    execs: Map<Seq<char>, RunningExecMeta>,
    sub_id: Option<Seq<char>>,
    n: int,
)
    requires
        0 <= n < flags.len(),
        forall|k: Seq<char>| #[trigger] execs.contains_key(k) ==> execs[k].flags != n,
    ensures
        cancelled_flags(flags, execs, sub_id)[n] == flags[n],
        cancelled_flags(flags, execs, sub_id).len() == flags.len(),
{
}

/// A command of the submission whose end was not told is taken off the list, marked as
/// cancelled and as ended; one whose end was told stays, and so does that of another
/// submission.
pub proof fn finalizing_ends_what_is_open(
    flags: Seq<ExecFlags>,
    execs: Map<Seq<char>, RunningExecMeta>,
    sub_id: Seq<char>,
    k: Seq<char>,
)
    requires
        numbers_fit(execs, flags.len()),
        execs.contains_key(k),
    ensures
        ({
            let n = execs[k].flags as int;
            let open = execs[k].sub_id@ == sub_id && !flags[n].end_emitted;
            let after = finalized_flags(flags, execs, sub_id);
            let left = still_running(execs, flags, sub_id);
            &&& open ==> !left.contains_key(k) && after[n].cancelled && after[n].end_emitted
            &&& !open ==> left.contains_key(k) && left[k] == execs[k] && after[n] == flags[n]
        }),
{
    let n = execs[k].flags as int;
    if is_open(execs[k], flags, sub_id) {
        assert(is_finalized(execs, flags, sub_id, n));
    } else if is_finalized(execs, flags, sub_id, n) {
        let l = choose|l: Seq<char>|
            #[trigger] execs.contains_key(l) && execs[l].flags == n && is_open(
                execs[l],
                flags,
                sub_id,
            );
        assert(l == k);
    }
}

/// Of each command of the submission that is still open it is told that it was cancelled,
/// and of no other.
pub proof fn finalizing_tells_of_what_is_open(
    events: Seq<OrderedEvent>,
    entries: Seq<(String, RunningExecMeta)>,
    flags: Seq<ExecFlags>,
    sub_id: Seq<char>,
    i: int,
)
    requires
        tell_cancelled(events, open_execs(entries, flags, sub_id), sub_id),
        0 <= i < entries.len(),
        entries[i].1.sub_id@ == sub_id,
        !flags[entries[i].1.flags as int].end_emitted,
    ensures
        exists|j: int|
            0 <= j < events.len() && is_synthetic_end(
                #[trigger] events[j],
                sub_id,
                entries[i].0@,
                entries[i].1.order_meta,
                true,
            ),
        events.len() <= entries.len(),
{
    let f = |e: (String, RunningExecMeta)| is_open(e.1, flags, sub_id);
    let places = filter_places(entries, f);
    assert(f(entries[i]));
    let j = choose|j: int| 0 <= j < places.len() && #[trigger] places[j] == i;
    assert(open_execs(entries, flags, sub_id)[j] == entries[i]);
    assert(is_synthetic_end(events[j], sub_id, entries[i].0@, entries[i].1.order_meta, true));
    entries.lemma_filter_len(f);
}

/// Each event that is told is of a command that was open.
pub proof fn told_commands_were_open(
    events: Seq<OrderedEvent>,
    entries: Seq<(String, RunningExecMeta)>,
    flags: Seq<ExecFlags>,
    sub_id: Seq<char>,
    j: int,
)
    requires
        tell_cancelled(events, open_execs(entries, flags, sub_id), sub_id),
        0 <= j < events.len(),
    ensures
        exists|i: int|
            0 <= i < entries.len() && (#[trigger] entries[i]).1.sub_id@ == sub_id
                && !flags[entries[i].1.flags as int].end_emitted && is_synthetic_end(
                events[j],
                sub_id,
                entries[i].0@,
                entries[i].1.order_meta,
                true,
            ),
{
    let f = |e: (String, RunningExecMeta)| is_open(e.1, flags, sub_id);
    let places = filter_places(entries, f);
    let i = places[j];
    assert(entries[i] == open_execs(entries, flags, sub_id)[j]);
    assert(f(entries[i]));
    assert(is_synthetic_end(events[j], sub_id, entries[i].0@, entries[i].1.order_meta, true));
}

// ---------------------------------------------------------------------------
// How a command is run

/// A script is run by the user's shell, which reads its profile where that is wanted; a
/// command without a script is run as it is.
pub proof fn scripts_run_in_the_users_shell(shell: Shell, p: ExecParams)
    ensures
        p.shell_script is None ==> materialized(shell, p) == texts(p.command@),
        p.shell_script matches Some(s) ==> {
            let r = materialized(shell, p);
            &&& r.len() > 0
            &&& r[r.len() - 1] == s.command@
            &&& shell matches Shell::Bash(b) ==> {
                &&& r.len() == 3
                &&& r[0] == b.shell_path@
                &&& s.use_login_shell ==> r[1] == "-lc"@
                &&& !s.use_login_shell ==> r[1] == "-c"@
            }
            &&& shell matches Shell::Other(o) ==> {
                &&& s.use_login_shell ==> r.drop_last() == texts(o.login_prefix@)
                &&& !s.use_login_shell ==> r.drop_last() == texts(o.plain_prefix@)
            }
        },
{
    if let Some(s) = p.shell_script {
        if let Shell::Other(o) = shell {
            assert(materialized(shell, p).drop_last() =~= texts(
                if s.use_login_shell {
                    o.login_prefix@
                } else {
                    o.plain_prefix@
                },
            ));
        }
    }
}

/// Readying a command changes nothing of it but the arguments.
pub proof fn only_arguments_change(a: ExecParams, b: ExecParams)
    requires
        same_but_command(a, b),
    ensures
        a.cwd == b.cwd,
        a.timeout_ms == b.timeout_ms,
        a.env == b.env,
        a.with_escalated_permissions == b.with_escalated_permissions,
        a.justification == b.justification,
{
}

/// The profile is read for a command without a script, where it is to be and can be.
pub proof fn profiles_are_read_where_they_can_be(
    shell: Shell,
    p: ExecParams,
    use_profile: bool,
    profile_command: Option<Vec<String>>,
)
    ensures
        ({
            let r = profile_arguments(shell, p, use_profile, profile_command);
            &&& p.shell_script is Some || !use_profile || profile_command is None ==> r
                == materialized(shell, p)
            &&& p.shell_script is None && use_profile ==> (profile_command matches Some(c) ==> r
                == texts(c@))
        }),
{
}

/// Job control is switched off, in front of the script, just where a login shell of `bash`
/// runs a script that does not switch it off itself.
pub proof fn job_control_is_switched_off_in_front(command: Seq<Seq<char>>, bash: bool)
    ensures
        ({
            let r = without_job_control(command, bash);
            let off = command.len() == 3 && bash && command[1] == "-lc"@ && !starts(
                trim_start_text(command[2]),
                "set +m"@,
            );
            &&& !off ==> r == command
            &&& off ==> r.len() == 3 && r[0] == command[0] && r[1] == command[1] && r[2]
                == "set +m; "@ + command[2]
        }),
{
}

proof fn last_part_of(dir: Seq<char>, name: Seq<char>)
    requires
        forall|i: int| 0 <= i < name.len() ==> #[trigger] name[i] != '/',
    ensures
        last_part(dir + seq!['/'] + name, true, false) == name,
        last_part(name, true, false) == name,
    decreases name.len(),
{
    let whole = dir + seq!['/'] + name;
    if name.len() == 0 {
        assert(whole.last() == '/');
        assert(last_part(whole, true, false) =~= name);
        assert(last_part(name, true, false) =~= name);
    } else {
        let shorter = name.drop_last();
        assert forall|i: int| 0 <= i < shorter.len() implies #[trigger] shorter[i] != '/' by {
            assert(shorter[i] == name[i]);
        }
        last_part_of(dir, shorter);
        assert(whole.drop_last() =~= dir + seq!['/'] + shorter);
        assert(whole.last() == name.last());
        assert(name.last() == name[name.len() - 1]);
        assert(shorter.push(name.last()) =~= name);
    }
}

/// A path leads to the file of its last part: with a directory before it or without, and
/// with a slash behind it or without.
pub proof fn paths_lead_to_their_last_part(dir: Seq<char>, name: Seq<char>)
    requires
        name.len() > 0,
        name != "."@,
        name != ".."@,
        forall|i: int| 0 <= i < name.len() ==> #[trigger] name[i] != '/',
    ensures
        file_name_of(name, true, false) == Some(name),
        file_name_of(dir + seq!['/'] + name, true, false) == Some(name),
        file_name_of((dir + seq!['/'] + name).push('/'), true, false) == Some(name),
{
    last_part_of(dir, name);
    let whole = dir + seq!['/'] + name;
    let behind = whole.push('/');
    assert(behind.last() == '/');
    assert(last_part(behind, true, false).len() == 0);
    assert(behind.drop_last() =~= whole);
}

/// A program is `bash` by the name of its file, letter case aside, with or without what
/// such a name ends in on Windows.
pub proof fn bash_goes_by_its_name(name: Seq<char>, path: Seq<char>)
    ensures
        leads_to_bash(Some(name), path) <==> ascii_lower_text(name) == "bash"@ || ascii_lower_text(
            name,
        ) == "bash.exe"@,
        leads_to_bash(None, path) <==> ascii_lower_text(path) == "bash"@ || ascii_lower_text(path)
            == "bash.exe"@,
{
}

/// Whether a program in a directory is `bash` is decided by its name alone, where every
/// platform reads the path alike.
pub proof fn programs_are_known_by_their_names(
    token: Seq<char>,
    dir: Seq<char>,
    name: Seq<char>,
    bash: bool,
)
    requires
        may_be_bash(token, bash),
        unquoted(token) == dir + seq!['/'] + name || unquoted(token) == name,
        !unquoted(token).contains('\\'),
        !(unquoted(token).len() >= 2 && unquoted(token)[0] == '/' && unquoted(token)[1] == '/'),
        !(unquoted(token).len() >= 2 && unquoted(token)[1] == ':'),
        name.len() > 0,
        name != "."@,
        name != ".."@,
        forall|i: int| 0 <= i < name.len() ==> #[trigger] name[i] != '/',
    ensures
        bash <==> ascii_lower_text(name) == "bash"@ || ascii_lower_text(name) == "bash.exe"@,
{
    paths_lead_to_their_last_part(dir, name);
    let path = unquoted(token);
    if path.len() >= 2 {
        if path[0] == '\\' {
            assert(path.contains(path[0]));
        }
        if path[1] == '\\' {
            assert(path.contains(path[1]));
        }
    }
    assert(crate::exec::is_plain_path(path));
    let n = choose|n: Option<Seq<char>>| #[trigger]
        may_lead_to(path, n) && bash == leads_to_bash(n, path);
    assert(n == Some(name));
}

/// Whatever the program is, only the script of a command may change, and only by job
/// control being switched off in front of it.
pub proof fn only_scripts_change(before: Seq<Seq<char>>, after: Seq<Seq<char>>, i: int)
    requires
        may_be_suppressed(before, after),
    ensures
        after.len() == before.len(),
        0 <= i < before.len() && i != 2 ==> after[i] == before[i],
        before.len() != 3 ==> after == before,
        before.len() == 3 && before[1] != "-lc"@ ==> after == before,
        before.len() == 3 ==> after[2] == before[2] || after[2] == "set +m; "@ + before[2],
{
}

/// A script that a login shell of `bash` runs has job control switched off, where every
/// platform reads the path of the shell alike; that of another program stays.
pub proof fn bash_runs_without_job_control(
    before: Seq<Seq<char>>,
    after: Seq<Seq<char>>,
    dir: Seq<char>,
    name: Seq<char>,
)
    requires
        may_be_suppressed(before, after),
        before.len() == 3,
        unquoted(before[0]) == dir + seq!['/'] + name || unquoted(before[0]) == name,
        !unquoted(before[0]).contains('\\'),
        !(unquoted(before[0]).len() >= 2 && unquoted(before[0])[0] == '/' && unquoted(before[0])[1]
            == '/'),
        !(unquoted(before[0]).len() >= 2 && unquoted(before[0])[1] == ':'),
        name.len() > 0,
        name != "."@,
        name != ".."@,
        forall|i: int| 0 <= i < name.len() ==> #[trigger] name[i] != '/',
    ensures
        ({
            let bash = ascii_lower_text(name) == "bash"@ || ascii_lower_text(name) == "bash.exe"@;
            let off = bash && before[1] == "-lc"@ && !starts(
                trim_start_text(before[2]),
                "set +m"@,
            );
            &&& off ==> after[2] == "set +m; "@ + before[2]
            &&& !off ==> after == before
        }),
{
    let bash = choose|bash: bool|
        after == #[trigger] without_job_control(before, bash) && may_be_bash(before[0], bash);
    programs_are_known_by_their_names(before[0], dir, name, bash);
}

proof fn nothing_to_strip(s: Seq<char>, c: char)
    requires
        s.len() == 0 || (s[0] != c && s.last() != c),
    ensures
        strip_start(s, c) == s,
        strip_end(s, c) == s,
{
}

/// Quotes around a program are set aside: double ones, and single ones inside them. A
/// program without quotes stays as it is.
pub proof fn quotes_are_set_aside(t: Seq<char>)
    requires
        t.len() > 0,
        t[0] != '"' && t[0] != '\'',
        t.last() != '"' && t.last() != '\'',
    ensures
        unquoted(t) == t,
        unquoted(seq!['"'] + t + seq!['"']) == t,
        unquoted(seq!['\''] + t + seq!['\'']) == t,
{
    nothing_to_strip(t, '"');
    nothing_to_strip(t, '\'');
    let d = seq!['"'] + t + seq!['"'];
    let q = seq!['\''] + t + seq!['\''];
    assert(d.drop_first() =~= t + seq!['"']);
    assert((t + seq!['"'])[0] == t[0]);
    assert((t + seq!['"']).drop_last() =~= t);
    assert(strip_start(t + seq!['"'], '"') == t + seq!['"']);
    assert(strip_start(d, '"') == t + seq!['"']);
    assert(strip_end(t + seq!['"'], '"') == t);
    nothing_to_strip(q, '"');
    assert(q.drop_first() =~= t + seq!['\'']);
    assert((t + seq!['\''])[0] == t[0]);
    assert((t + seq!['\'']).drop_last() =~= t);
    assert(strip_start(t + seq!['\''], '\'') == t + seq!['\'']);
    assert(strip_start(q, '\'') == t + seq!['\'']);
    assert(strip_end(t + seq!['\''], '\'') == t);
}

/// An identifier is made letter by letter: letters become lower case, digits stay, and
/// any other sign becomes an underscore, where the first one is a letter or a digit.
pub proof fn identifiers_are_made_letter_by_letter(s: Seq<char>, i: int)
    requires
        0 <= i < s.len(),
        'a' <= s[0] <= 'z' || 'A' <= s[0] <= 'Z' || '0' <= s[0] <= '9',
    ensures
        identifier(s).len() == s.len(),
        'a' <= s[i] <= 'z' || '0' <= s[i] <= '9' ==> identifier(s)[i] == s[i],
        'A' <= s[i] <= 'Z' ==> identifier(s)[i] as u32 == s[i] as u32 + 32,
        !('a' <= s[i] <= 'z' || 'A' <= s[i] <= 'Z' || '0' <= s[i] <= '9') ==> identifier(s)[i]
            == '_',
{
    let mapped = s.map_values(|c: char| identifier_char(c));
    assert(mapped[0] == identifier_char(s[0]));
    assert(mapped[0] != '_');
    assert(strip_start(mapped, '_') == mapped);
    assert(mapped[i] == identifier_char(s[i]));
}

/// Signs in front of an identifier are left out, and what has nothing else is called a
/// hook.
pub proof fn identifiers_start_with_a_letter_or_digit(s: Seq<char>, c: char)
    requires
        !('a' <= c <= 'z' || 'A' <= c <= 'Z' || '0' <= c <= '9'),
    ensures
        identifier(Seq::empty()) == "hook"@,
        identifier(seq![c] + s) == identifier(s),
{
    let f = |x: char| identifier_char(x);
    let whole = (seq![c] + s).map_values(f);
    assert(whole[0] == '_');
    assert(whole.drop_first() =~= s.map_values(f));
    assert(Seq::<char>::empty().map_values(f) =~= Seq::<char>::empty());
}

/// A text that fits is told whole; of another one so many signs are, with dots behind
/// them.
pub proof fn long_texts_are_cut(s: Seq<char>, limit: int, i: int)
    requires
        0 <= limit,
    ensures
        s.len() <= limit ==> cut_text(s, limit) == s,
        s.len() > limit ==> {
            &&& cut_text(s, limit).len() == limit + 1
            &&& 0 <= i < limit ==> cut_text(s, limit)[i] == s[i]
            &&& cut_text(s, limit)[limit] == '\u{2026}'
        },
{
    reveal_strlit("\u{2026}");
}

} // verus!
