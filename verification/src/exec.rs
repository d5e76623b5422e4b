//! How a command is put together before it is run.

use crate::omap::OrderedMap;
use crate::protocol::SandboxPolicy;
use crate::text::{
    ascii_lower, ascii_lower_text, chars_of, clone_strings, join, joined, lower_char, opt_text,
    starts, starts_with, str_eq, strip_end, strip_start, take_chars, texts, to_ascii_lowercase,
    trim, trim_matches, trim_start, trim_start_matches, trim_start_text, trim_text,
};
use vstd::prelude::*;

verus! {

broadcast use vstd::seq_lib::group_seq_properties;

/// How a command is confined.
#[derive(Debug, PartialEq, Eq, Clone, Copy, Structural)]
pub enum SandboxType {
    /// Not at all.
    Unsandboxed,
    MacosSeatbelt,
    LinuxSeccomp,
}

/// How the hooks of a project are run. They come from configuration that is
/// trusted, not from a model: nothing confines them, whatever confines the
/// commands of the model.
pub fn project_hook_execution_policy() -> (r: (SandboxType, SandboxPolicy))
    ensures
        r.0 == SandboxType::Unsandboxed,
        r.1 == SandboxPolicy::DangerFullAccess,
{
    (SandboxType::Unsandboxed, SandboxPolicy::DangerFullAccess)
}

/// Whether a command is safe to run.
#[derive(Debug, PartialEq, Eq)]
pub enum SafetyCheck {
    AutoApprove { sandbox_type: SandboxType },
    AskUser,
    Reject { reason: String },
}

/// How a command of the program itself is confined: as the safety check says, and
/// where it says nothing, as the platform can.
pub fn resolve_internal_sandbox(check: &SafetyCheck, platform_sandbox: Option<SandboxType>) -> (r:
    SandboxType)
    ensures
        r == match *check {
            SafetyCheck::AutoApprove { sandbox_type } => sandbox_type,
            _ => match platform_sandbox {
                Some(t) => t,
                None => SandboxType::Unsandboxed,
            },
        },
{
    match check {
        SafetyCheck::AutoApprove { sandbox_type } => *sandbox_type,
        _ => match platform_sandbox {
            Some(t) => t,
            None => SandboxType::Unsandboxed,
        },
    }
}

/// A letter or digit of ASCII in lower case; an underscore for anything else.
pub open spec fn identifier_char(c: char) -> char {
    if 'a' <= c <= 'z' || 'A' <= c <= 'Z' || '0' <= c <= '9' {
        ascii_lower(c)
    } else {
        '_'
    }
}

/// The identifier that a text becomes: letters and digits of ASCII in lower case,
/// an underscore for anything else, without underscores at the start. It is
/// `hook` where nothing is left.
pub open spec fn identifier(s: Seq<char>) -> Seq<char> {
    let slug = strip_start(s.map_values(|c: char| identifier_char(c)), '_');
    if slug.len() == 0 {
        "hook"@
    } else {
        slug
    }
}

/// Makes an identifier of a text.
pub fn sanitize_identifier(value: &str) -> (r: String)
    ensures
        r@ == identifier(value@),
{
    let v = chars_of(value);
    let ghost f = |c: char| identifier_char(c);
    let mut slug = String::new();
    let mut i: usize = 0;
    while i < v.len()
        invariant
            i <= v@.len(),
            v@ == value@,
            f == (|c: char| identifier_char(c)),
            slug@ == value@.take(i as int).map_values(f),
        decreases v@.len() - i,
    {
        let c: char = v[i];
        let letter = ('a' <= c && c <= 'z') || ('A' <= c && c <= 'Z') || ('0' <= c && c <= '9');
        if letter {
            slug.push(lower_char(c));
        } else {
            slug.push('_');
        }
        assert(value@.take(i + 1).map_values(f) =~= value@.take(i as int).map_values(f).push(
            f(value@[i as int]),
        ));
        i = i + 1;
    }
    assert(value@.take(v@.len() as int) =~= value@);
    let stripped = trim_start_matches(slug.as_str(), '_');
    if stripped.as_str().is_empty() {
        "hook".to_string()
    } else {
        stripped
    }
}

/// The text cut to a number of characters, with an ellipsis where it was cut.
pub open spec fn cut_text(s: Seq<char>, limit: int) -> Seq<char> {
    if s.len() <= limit {
        s
    } else {
        s.take(limit) + "\u{2026}"@
    }
}

/// Cuts a text to a number of characters.
pub fn truncate_payload(text: &str, limit: usize) -> (r: String)
    ensures
        r@ == cut_text(text@, limit as int),
{
    let mut r = take_chars(text, limit);
    if chars_of(text).len() > limit {
        r.append("\u{2026}");
    }
    r
}

/// The text without the white space around it, where something is left.
pub open spec fn non_empty(s: Seq<char>) -> Option<Seq<char>> {
    if trim_text(s).len() > 0 {
        Some(trim_text(s))
    } else {
        None
    }
}

/// The text without the white space around it, where something is left.
pub fn trimmed_non_empty(text: &str) -> (r: Option<String>)
    ensures
        opt_text(r) == non_empty(text@),
{
    let t = trim(text);
    if t.as_str().is_empty() {
        None
    } else {
        Some(t)
    }
}

/// The texts with an empty line between each two of them, where there is one.
pub fn join_text_chunks(chunks: Vec<String>) -> (r: Option<String>)
    ensures
        opt_text(r) == if chunks@.len() == 0 {
            None::<Seq<char>>
        } else {
            Some(joined(texts(chunks@), "\n\n"@))
        },
{
    if chunks.len() == 0 {
        None
    } else {
        Some(join(&chunks, "\n\n"))
    }
}

/// A script that is handed to the user's shell when it is run.
#[derive(Debug, PartialEq, Eq)]
pub struct DeferredShellScript {
    pub command: String,
    pub use_login_shell: bool,
}

/// What is run, and how.
#[derive(Debug, PartialEq)]
pub struct ExecParams {
    pub command: Vec<String>,
    pub shell_script: Option<DeferredShellScript>,
    pub cwd: String,
    pub timeout_ms: Option<u64>,
    pub env: OrderedMap<String>,
    pub with_escalated_permissions: Option<bool>,
    pub justification: Option<String>,
}

/// Where the output of a running command goes.
#[derive(Debug, PartialEq, Eq)]
pub struct StdoutStream {
    pub sub_id: String,
    pub call_id: String,
}

/// A command with everything that running it needs.
pub struct ExecInvokeArgs<'a> {
    pub params: ExecParams,
    pub sandbox_type: SandboxType,
    pub sandbox_policy: &'a SandboxPolicy,
    pub sandbox_cwd: &'a str,
    pub code_linux_sandbox_exe: &'a Option<String>,
    pub stdout_stream: Option<StdoutStream>,
}

/// The shell `bash`.
#[derive(Debug, PartialEq, Eq)]
pub struct BashShell {
    pub shell_path: String,
    pub bashrc_path: String,
}

/// Any other shell: what stands before the script when it runs one.
#[derive(Debug, PartialEq, Eq)]
pub struct OtherShell {
    pub login_prefix: Vec<String>,
    pub plain_prefix: Vec<String>,
}

/// The user's shell.
#[derive(Debug, PartialEq, Eq)]
pub enum Shell {
    Bash(BashShell),
    Other(OtherShell),
}

/// The arguments with which a shell runs a script.
pub open spec fn invocation(shell: Shell, script: Seq<char>, login: bool) -> Seq<Seq<char>> {
    match shell {
        Shell::Bash(b) => seq![
            b.shell_path@,
            if login {
                "-lc"@
            } else {
                "-c"@
            },
            script,
        ],
        Shell::Other(o) => texts(
            if login {
                o.login_prefix@
            } else {
                o.plain_prefix@
            },
        ).push(script),
    }
}

impl Shell {
    /// The arguments with which the shell runs a script.
    pub fn shell_script_invocation_or_default(&self, script: String, use_login_shell: bool) -> (r:
        Vec<String>)
        ensures
            texts(r@) == invocation(*self, script@, use_login_shell),
    {
        let ghost text = script@;
        match self {
            Shell::Bash(b) => {
                let flag = if use_login_shell {
                    "-lc"
                } else {
                    "-c"
                };
                let r: Vec<String> = vec![b.shell_path.clone(), flag.to_string(), script];
                assert(texts(r@) =~= invocation(*self, text, use_login_shell));
                r
            },
            Shell::Other(o) => {
                let mut r = if use_login_shell {
                    clone_strings(&o.login_prefix)
                } else {
                    clone_strings(&o.plain_prefix)
                };
                let ghost before = texts(r@);
                r.push(script);
                assert(texts(r@) =~= before.push(text));
                r
            },
        }
    }
}

/// The same command but for its arguments and its script.
pub open spec fn same_but_command(a: ExecParams, b: ExecParams) -> bool {
    &&& a.cwd == b.cwd
    &&& a.timeout_ms == b.timeout_ms
    &&& a.env == b.env
    &&& a.with_escalated_permissions == b.with_escalated_permissions
    &&& a.justification == b.justification
}

/// The arguments of a command: where it has a script, those with which the shell
/// runs it.
pub open spec fn materialized(shell: Shell, p: ExecParams) -> Seq<Seq<char>> {
    match p.shell_script {
        Some(s) => invocation(shell, s.command@, s.use_login_shell),
        None => texts(p.command@),
    }
}

/// Turns the script of a command, where it has one, into arguments.
pub fn materialize_shell_script(user_shell: &Shell, params: ExecParams) -> (r: ExecParams)
    ensures
        same_but_command(r, params),
        r.shell_script is None,
        texts(r.command@) == materialized(*user_shell, params),
{
    let ExecParams {
        command,
        shell_script,
        cwd,
        timeout_ms,
        env,
        with_escalated_permissions,
        justification,
    } = params;
    let command = match shell_script {
        Some(s) => user_shell.shell_script_invocation_or_default(s.command, s.use_login_shell),
        None => command,
    };
    ExecParams {
        command,
        shell_script: None,
        cwd,
        timeout_ms,
        env,
        with_escalated_permissions,
        justification,
    }
}

/// The character splits a path, where a slash or a backslash or both do.
pub open spec fn is_separator(c: char, slash: bool, backslash: bool) -> bool {
    (slash && c == '/') || (backslash && c == '\\')
}

/// What stands behind the last separator of a path.
pub open spec fn last_part(path: Seq<char>, slash: bool, backslash: bool) -> Seq<char>
    decreases path.len(),
{
    if path.len() == 0 || is_separator(path.last(), slash, backslash) {
        Seq::empty()
    } else {
        last_part(path.drop_last(), slash, backslash).push(path.last())
    }
}

/// The name of the file that a path leads to: its last part, separators and single dots
/// at the end aside. A path that ends in two dots leads to no file of a name.
pub open spec fn file_name_of(path: Seq<char>, slash: bool, backslash: bool) -> Option<Seq<char>>
    decreases path.len(),
{
    let last = last_part(path, slash, backslash);
    if path.len() == 0 {
        None
    } else if last.len() == 0 || last == "."@ {
        file_name_of(path.drop_last(), slash, backslash)
    } else if last == ".."@ {
        None
    } else {
        Some(last)
    }
}

/// The path starts with two separators, as one on another machine does on some platforms.
pub open spec fn starts_apart(path: Seq<char>) -> bool {
    path.len() >= 2 && is_separator(path[0], true, true) && is_separator(path[1], true, true)
}

/// The path starts as one on a drive does on some platforms.
pub open spec fn starts_on_drive(path: Seq<char>) -> bool {
    path.len() >= 2 && path[1] == ':'
}

/// Every platform reads the path alike.
pub open spec fn is_plain_path(path: Seq<char>) -> bool {
    !path.contains('\\') && !starts_apart(path) && !starts_on_drive(path)
}

/// The path may lead to a file of this name. On every platform a slash splits a path; on
/// some a backslash does too, and what stands on a drive is named behind the colon. A
/// path that starts with two separators may there be but the name of another machine, or
/// one that only a backslash splits.
pub open spec fn may_lead_to(path: Seq<char>, name: Option<Seq<char>>) -> bool {
    if is_plain_path(path) {
        name == file_name_of(path, true, false)
    } else {
        ||| name == file_name_of(path, true, false)
        ||| name == file_name_of(path, true, true)
        ||| starts_on_drive(path) && name == file_name_of(path.skip(2), true, true)
        ||| starts_apart(path) && (name is None || name == file_name_of(path, false, true))
    }
}

/// `std::path::Path::file_name` as text: the last part of a path, if there is one, without
/// the separators and the single dots behind it. What splits a path besides a slash, and
/// what it may start with, goes by the platform, and which of these names it then is is
/// not said here.
#[verifier::external_body]
fn path_file_name(path: &str) -> (r: Option<String>)
    ensures
        may_lead_to(path@, opt_text(r)),
{
    std::path::Path::new(path).file_name().and_then(|s| s.to_str()).map(|s| s.to_string())
}

/// The name of a program without quotes around it.
pub open spec fn unquoted(token: Seq<char>) -> Seq<char> {
    strip_end(strip_start(strip_end(strip_start(token, '"'), '"'), '\''), '\'')
}

/// The name is that of `bash`.
pub open spec fn names_bash(name: Seq<char>) -> bool {
    ascii_lower_text(name) == "bash"@ || ascii_lower_text(name) == "bash.exe"@
}

/// The last part of a path, or the path where it has none, is the name of `bash`.
pub open spec fn leads_to_bash(file_name: Option<Seq<char>>, path: Seq<char>) -> bool {
    names_bash(
        match file_name {
            Some(n) => n,
            None => path,
        },
    )
}

/// Whether the last part of a path, or the path where it has none, is the name of
/// `bash`.
pub fn is_bash_name(file_name: Option<String>, path: &str) -> (r: bool)
    ensures
        r == leads_to_bash(opt_text(file_name), path@),
{
    let name = match file_name {
        Some(n) => to_ascii_lowercase(n.as_str()),
        None => to_ascii_lowercase(path),
    };
    str_eq(name.as_str(), "bash") || str_eq(name.as_str(), "bash.exe")
}

/// The program is `bash` or is not, by a name of the file that its path may lead to.
pub open spec fn may_be_bash(token: Seq<char>, bash: bool) -> bool {
    exists|name: Option<Seq<char>>| #[trigger]
        may_lead_to(unquoted(token), name) && bash == leads_to_bash(name, unquoted(token))
}

/// Whether the program is `bash`, by the last part of its path. Which part that is
/// goes by the platform, unless the path is one that every platform reads alike.
pub fn is_bash_executable(token: &str) -> (r: bool)
    ensures
        may_be_bash(token@, r),
{
    let trimmed = trim_matches(trim_matches(token, '"').as_str(), '\'');
    let name = path_file_name(trimmed.as_str());
    assert(may_lead_to(unquoted(token@), opt_text(name)));
    is_bash_name(name, trimmed.as_str())
}

/// The command with job control switched off in its script, where it is a login
/// shell of `bash` that runs a script which does not switch it off itself.
pub open spec fn without_job_control(command: Seq<Seq<char>>, bash: bool) -> Seq<Seq<char>> {
    if command.len() == 3 && bash && command[1] == "-lc"@ && !starts(
        trim_start_text(command[2]),
        "set +m"@,
    ) {
        command.update(2, "set +m; "@ + command[2])
    } else {
        command
    }
}

/// Switches job control off in the script of a command. `bash` says whether the
/// program of the command is `bash`.
pub fn suppress_job_control(command: &mut Vec<String>, bash: bool)
    ensures
        texts(final(command)@) == without_job_control(texts(old(command)@), bash),
{
    let ghost before = texts(command@);
    if command.len() != 3 || !bash || !str_eq(command[1].as_str(), "-lc") {
        return;
    }
    let trimmed = trim_start(command[2].as_str());
    if starts_with(trimmed.as_str(), "set +m") {
        return;
    }
    let mut script = "set +m; ".to_string();
    script.append(command[2].as_str());
    command.set(2, script);
    assert(texts(command@) =~= before.update(2, "set +m; "@ + before[2]));
}

/// Job control is switched off in the script of a command, where its program is `bash`.
pub open spec fn may_be_suppressed(before: Seq<Seq<char>>, after: Seq<Seq<char>>) -> bool {
    exists|bash: bool|
        after == #[trigger] without_job_control(before, bash) && (before.len() == 3 ==> may_be_bash(
            before[0],
            bash,
        ))
}

/// Switches job control off in the script of a command, where its program is
/// `bash`.
pub fn suppress_bash_job_control(command: &mut Vec<String>)
    ensures
        may_be_suppressed(texts(old(command)@), texts(final(command)@)),
{
    let bash = command.len() == 3 && is_bash_executable(command[0].as_str());
    assert(command@.len() == 3 ==> may_be_bash(texts(command@)[0], bash));
    suppress_job_control(command, bash);
}

/// The arguments of a command as the user's shell runs it. `profile_command` is
/// what the shell makes of the arguments so that its profile is read, if it can;
/// a script runs in the shell anyhow.
pub open spec fn profile_arguments(
    shell: Shell,
    p: ExecParams,
    use_profile: bool,
    profile_command: Option<Vec<String>>,
) -> Seq<Seq<char>> {
    match profile_command {
        Some(c) if p.shell_script is None && use_profile => texts(c@),
        _ => materialized(shell, p),
    }
}

/// Readies a command for the user's shell: turns its script into arguments, or has
/// the profile read, and switches job control off.
pub fn maybe_run_with_user_profile(
    params: ExecParams,
    user_shell: &Shell,
    use_profile: bool,
    profile_command: Option<Vec<String>>,
) -> (r: ExecParams)
    ensures
        same_but_command(r, params),
        r.shell_script is None,
        may_be_suppressed(
            profile_arguments(*user_shell, params, use_profile, profile_command),
            texts(r.command@),
        ),
{
    let had_shell_script = params.shell_script.is_some();
    let mut params = materialize_shell_script(user_shell, params);
    if !had_shell_script && use_profile {
        if let Some(command) = profile_command {
            params.command = command;
        }
    }
    suppress_bash_job_control(&mut params.command);
    params
}

/// Switching job control off twice is switching it off once.
pub proof fn job_control_stays_off(command: Seq<Seq<char>>, bash: bool)
    ensures
        without_job_control(without_job_control(command, bash), bash) == without_job_control(
            command,
            bash,
        ),
{
    let once = without_job_control(command, bash);
    if once != command {
        let script = once[2];
        reveal_strlit("set +m; ");
        reveal_strlit("set +m");
        assert("set +m; "@.len() == 8 && "set +m"@.len() == 6);
        assert(script[0] == 's');
        assert(trim_start_text(script) == script);
        assert(script.subrange(0, 6) =~= "set +m"@);
        assert(starts(script, "set +m"@));
    }
}

/// An identifier is never empty, never starts with an underscore, and holds only
/// letters of ASCII in lower case, digits and underscores.
pub proof fn identifier_is_clean(s: Seq<char>)
    ensures
        identifier(s).len() > 0,
        identifier(s)[0] != '_',
        forall|i: int|
            0 <= i < identifier(s).len() ==> ('a' <= #[trigger] identifier(s)[i] <= 'z' || '0'
                <= identifier(s)[i] <= '9' || identifier(s)[i] == '_'),
{
    let mapped = s.map_values(|c: char| identifier_char(c));
    assert forall|i: int| 0 <= i < mapped.len() implies ('a' <= #[trigger] mapped[i] <= 'z' || '0'
        <= mapped[i] <= '9' || mapped[i] == '_') by {
        assert(mapped[i] == identifier_char(s[i]));
    }
    strip_start_suffix(mapped, '_');
    reveal_strlit("hook");
    assert("hook"@.len() == 4);
}

proof fn strip_start_suffix(s: Seq<char>, c: char)
    ensures
        strip_start(s, c).len() <= s.len(),
        strip_start(s, c).len() > 0 ==> strip_start(s, c)[0] != c,
        forall|i: int|
            0 <= i < strip_start(s, c).len() ==> #[trigger] strip_start(s, c)[i] == s[s.len()
                - strip_start(s, c).len() + i],
    decreases s.len(),
{
    if s.len() > 0 && s[0] == c {
        strip_start_suffix(s.drop_first(), c);
    }
}

/// Making an identifier of an identifier changes nothing.
pub proof fn identifier_idempotent(s: Seq<char>)
    ensures
        identifier(identifier(s)) == identifier(s),
{
    let t = identifier(s);
    identifier_is_clean(s);
    assert(t.map_values(|c: char| identifier_char(c)) =~= t);
}

/// A cut text has at most one character more than the limit.
pub proof fn cut_text_is_short(s: Seq<char>, limit: int)
    requires
        0 <= limit,
    ensures
        cut_text(s, limit).len() <= limit + 1,
        s.len() <= limit ==> cut_text(s, limit) == s,
{
    reveal_strlit("\u{2026}");
    assert("\u{2026}"@.len() == 1);
}

} // verus!
