//! How single settings are read from what the user wrote.

use crate::config_types::{
    blank_profile, AllowedCommand, AllowedCommandMatchKind, ApprovedCommandPattern, ConfigError, ConfigErrorKind,
    ConfigProfile, ConfigToml, ConfirmGuardPattern, ModelProviderInfo, ProjectConfig, SandboxMode,
    SandboxWorkspaceWrite, ServiceTier,
};
use crate::json::JsonView;
use crate::omap::{entry_map_domain, entry_map_value, keys_increase, OrderedMap};
use crate::protocol::{AskForApproval, PolicyView, SandboxPolicy};
use crate::text::{
    ascii_lower_text, clone_strings, concat, flat, join, joined, lex_lt, lex_lt_irreflexive,
    lex_lt_transitive, opt_text, part_texts, str_eq, texts, to_ascii_lowercase, trim, trim_text,
};
use vstd::prelude::*;

verus! {

/// The first, if there is one; else the second.
pub open spec fn first_of<T>(a: Option<T>, b: Option<T>) -> Option<T> {
    if a is Some {
        a
    } else {
        b
    }
}

/// The first, if there is one; else the second.
pub fn first<T>(a: Option<T>, b: Option<T>) -> (r: Option<T>)
    ensures
        r == first_of(a, b),
{
    match a {
        Some(a) => Some(a),
        None => b,
    }
}

/// The value, if there is one; else this one.
pub open spec fn value_or<T>(o: Option<T>, d: T) -> T {
    match o {
        Some(v) => v,
        None => d,
    }
}

/// The text, if there is one; else this one.
pub open spec fn text_or(o: Option<String>, d: Seq<char>) -> Seq<char> {
    match o {
        Some(s) => s@,
        None => d,
    }
}

/// The text, if there is one; else this one.
pub fn text_or_else(o: Option<String>, d: &str) -> (r: String)
    ensures
        r@ == text_or(o, d@),
{
    match o {
        Some(s) => s,
        None => d.to_string(),
    }
}

/// The same text, where there is one.
pub fn clone_opt(o: &Option<String>) -> (r: Option<String>)
    ensures
        r == *o,
{
    match o {
        Some(s) => Some(s.clone()),
        None => None,
    }
}

/// What went wrong.
pub open spec fn is_error(e: ConfigError, kind: ConfigErrorKind, message: Seq<char>) -> bool {
    e.kind == kind && e.message@ == message
}

// ---------------------------------------------------------------------------
// Who offers models

/// The names that are taken.
pub open spec fn reserved_ids() -> Seq<Seq<char>> {
    seq!["openai"@, "oss"@]
}

/// The taken names that were written all the same.
pub open spec fn reserved_used(providers: Map<Seq<char>, ModelProviderInfo>) -> Seq<Seq<char>> {
    reserved_ids().filter(|k: Seq<char>| providers.contains_key(k))
}

/// The name between back quotes.
pub open spec fn quoted(name: Seq<char>) -> Seq<char> {
    "`"@ + name + "`"@
}

/// What is said of taken names.
pub open spec fn reserved_message(names: Seq<Seq<char>>) -> Seq<char> {
    "model_providers contains reserved built-in provider IDs: "@ + joined(
        names.map_values(|n: Seq<char>| quoted(n)),
        ", "@,
    ) + ". Built-in providers cannot be overridden. Rename your custom provider."@
}

fn quote(name: &str) -> (r: String)
    ensures
        r@ == quoted(name@),
{
    let parts: [&str; 3] = ["`", name, "`"];
    proof {
        assert(part_texts(parts@) =~= seq!["`"@, name@, "`"@]);
        reveal_with_fuel(flat, 4);
        assert(flat(part_texts(parts@)) =~= quoted(name@));
    }
    concat(&parts)
}

/// Refuses providers under names that are taken.
pub fn validate_reserved_model_provider_ids(providers: &OrderedMap<ModelProviderInfo>) -> (r:
    Result<(), String>)
    ensures
        match r {
            Ok(()) => reserved_used(providers@).len() == 0,
            Err(text) => reserved_used(providers@).len() > 0 && text@ == reserved_message(
                reserved_used(providers@),
            ),
        },
{
    let ids: [&str; 2] = ["openai", "oss"];
    let ghost keep = |k: Seq<char>| providers@.contains_key(k);
    let ghost all = reserved_ids();
    let mut conflicts: Vec<String> = Vec::new();
    let ghost mut used: Seq<Seq<char>> = Seq::empty();
    let mut i: usize = 0;
    proof {
        reveal(Seq::filter);
        assert(texts(conflicts@) =~= used.map_values(|n: Seq<char>| quoted(n)));
    }
    while i < 2
        invariant
            i <= 2,
            ids@[0]@ == "openai"@,
            ids@[1]@ == "oss"@,
            all == reserved_ids(),
            keep == (|k: Seq<char>| providers@.contains_key(k)),
            used == all.take(i as int).filter(keep),
            texts(conflicts@) == used.map_values(|n: Seq<char>| quoted(n)),
        decreases 2 - i,
    {
        proof {
            reveal(Seq::filter);
            assert(all.take(i + 1).drop_last() =~= all.take(i as int));
        }
        let id: &str = ids[i];
        assert(id@ == all[i as int]);
        if providers.contains_key(id) {
            let ghost before = texts(conflicts@);
            let ghost marks = |n: Seq<char>| quoted(n);
            conflicts.push(quote(id));
            proof {
                assert(texts(conflicts@) =~= before.push(quoted(id@)));
                assert(used.push(id@).map_values(marks) =~= used.map_values(marks).push(
                    quoted(id@),
                ));
                used = used.push(id@);
            }
        }
        i = i + 1;
    }
    proof {
        assert(all.take(2) =~= all);
        assert(texts(conflicts@).len() == used.len());
    }
    if conflicts.len() == 0 {
        Ok(())
    } else {
        let list: String = join(&conflicts, ", ");
        let parts: [&str; 3] = [
            "model_providers contains reserved built-in provider IDs: ",
            list.as_str(),
            ". Built-in providers cannot be overridden. Rename your custom provider.",
        ];
        proof {
            assert(part_texts(parts@) =~= seq![parts@[0]@, list@, parts@[2]@]);
            reveal_with_fuel(flat, 4);
            assert(flat(part_texts(parts@)) =~= reserved_message(used));
        }
        Err(concat(&parts))
    }
}

/// Something is wrong with this provider, and with none whose name comes before.
pub open spec fn is_first_problem(
    providers: Map<Seq<char>, ModelProviderInfo>,
    key: Seq<char>,
) -> bool {
    &&& providers.contains_key(key)
    &&& providers[key].problem is Some
    &&& forall|k: Seq<char>| #[trigger]
        providers.contains_key(k) && providers[k].problem is Some ==> k == key || lex_lt(key, k)
}

/// What is said of a provider that something is wrong with.
pub open spec fn problem_message(key: Seq<char>, problem: Seq<char>) -> Seq<char> {
    "model_providers."@ + key + ": "@ + problem
}

/// What is wrong with the providers, if anything is.
pub open spec fn providers_problem(providers: Map<Seq<char>, ModelProviderInfo>) -> Option<
    Seq<char>,
> {
    if reserved_used(providers).len() > 0 {
        Some(reserved_message(reserved_used(providers)))
    } else if exists|k: Seq<char>| is_first_problem(providers, k) {
        let key = choose|k: Seq<char>| is_first_problem(providers, k);
        Some(problem_message(key, providers[key].problem->0@))
    } else {
        None
    }
}

proof fn first_problem_is_one(
    providers: Map<Seq<char>, ModelProviderInfo>,
    a: Seq<char>,
    b: Seq<char>,
)
    requires
        is_first_problem(providers, a),
        is_first_problem(providers, b),
    ensures
        a == b,
{
    if a != b {
        lex_lt_transitive(a, b, a);
        lex_lt_irreflexive(a);
    }
}

/// Refuses providers under names that are taken, and providers with which something
/// is wrong.
pub fn validate_model_providers(providers: &OrderedMap<ModelProviderInfo>) -> (r: Result<
    (),
    String,
>)
    ensures
        match r {
            Ok(()) => providers_problem(providers@) is None,
            Err(text) => providers_problem(providers@) == Some(text@),
        },
{
    match validate_reserved_model_provider_ids(providers) {
        Err(text) => {
            return Err(text);
        },
        Ok(()) => {},
    }
    let entries: &Vec<(String, ModelProviderInfo)> = providers.entries();
    let ghost id = |v: ModelProviderInfo| v;
    proof {
        OrderedMap::view_is_entry_map(*providers);
    }
    let mut i: usize = 0;
    while i < entries.len()
        invariant
            i <= entries.len(),
            keys_increase(entries@),
            id == (|v: ModelProviderInfo| v),
            providers@ == crate::omap::entry_map(entries@, id),
            reserved_used(providers@).len() == 0,
            forall|j: int| 0 <= j < i ==> (#[trigger] entries@[j]).1.problem is None,
        decreases entries.len() - i,
    {
        proof {
            entry_map_value(entries@, id, i as int);
        }
        if let Some(problem) = &entries[i].1.problem {
            let key: &str = entries[i].0.as_str();
            proof {
                assert forall|k: Seq<char>| #[trigger]
                    providers@.contains_key(k) && providers@[k].problem is Some implies k == key@
                    || lex_lt(key@, k) by {
                    entry_map_domain(entries@, id, k);
                    let j = choose|j: int| 0 <= j < entries@.len() && #[trigger] entries@[j].0@ == k;
                    entry_map_value(entries@, id, j);
                    if j < i {
                        assert(entries@[j].1.problem is None);
                    }
                }
                assert(is_first_problem(providers@, key@));
                let found = choose|k: Seq<char>| is_first_problem(providers@, k);
                first_problem_is_one(providers@, found, key@);
            }
            let parts: [&str; 4] = ["model_providers.", key, ": ", problem.as_str()];
            proof {
                assert(part_texts(parts@) =~= seq![
                    "model_providers."@,
                    key@,
                    ": "@,
                    problem@,
                ]);
                reveal_with_fuel(flat, 5);
                assert(flat(part_texts(parts@)) =~= problem_message(key@, problem@));
            }
            return Err(concat(&parts));
        }
        i = i + 1;
    }
    proof {
        assert forall|k: Seq<char>| !is_first_problem(providers@, k) by {
            if is_first_problem(providers@, k) {
                entry_map_domain(entries@, id, k);
                let j = choose|j: int| 0 <= j < entries@.len() && #[trigger] entries@[j].0@ == k;
                entry_map_value(entries@, id, j);
                assert(entries@[j].1.problem is None);
            }
        }
    }
    Ok(())
}

/// The address, unless it is blank.
pub open spec fn not_blank(url: Option<String>) -> Option<String> {
    match url {
        Some(text) => if trim_text(text@).len() > 0 {
            url
        } else {
            None
        },
        None => None,
    }
}

fn unless_blank(url: Option<String>) -> (r: Option<String>)
    ensures
        r == not_blank(url),
{
    match url {
        Some(text) => {
            let trimmed: String = trim(text.as_str());
            if trimmed.as_str().unicode_len() > 0 {
                Some(text)
            } else {
                None
            }
        },
        None => None,
    }
}

/// The address of the built-in provider: what was written, else what the
/// environment says. A blank one counts as none.
pub fn effective_openai_base_url(written: Option<String>, environment: Option<String>) -> (r:
    Option<String>)
    ensures
        r == first_of(not_blank(written), not_blank(environment)),
{
    first(unless_blank(written), unless_blank(environment))
}

/// The built-in providers and the user's. None of the user's replaces a built-in one.
pub open spec fn merged<V>(built_in: Map<Seq<char>, V>, user: Map<Seq<char>, V>) -> Map<
    Seq<char>,
    V,
> {
    user.union_prefer_right(built_in)
}

/// The built-in providers and the user's. None of the user's replaces a built-in one.
pub fn merge_model_providers(
    built_in: OrderedMap<ModelProviderInfo>,
    user: OrderedMap<ModelProviderInfo>,
) -> (r: OrderedMap<ModelProviderInfo>)
    ensures
        r@ == merged(built_in@, user@),
{
    let ghost id = |v: ModelProviderInfo| v;
    let ghost b = built_in@;
    proof {
        OrderedMap::view_is_entry_map(user);
    }
    let mut out: OrderedMap<ModelProviderInfo> = built_in;
    let mut rest: Vec<(String, ModelProviderInfo)> = user.into_entries();
    let ghost all = rest@;
    assert(rest@.take(rest@.len() as int) =~= rest@);
    assert(all.skip(all.len() as int) =~= Seq::<(String, ModelProviderInfo)>::empty());
    while rest.len() > 0
        invariant
            keys_increase(all),
            rest@.len() <= all.len(),
            rest@ == all.take(rest@.len() as int),
            id == (|v: ModelProviderInfo| v),
            forall|k: Seq<char>| #[trigger] b.contains_key(k) ==> out@.contains_key(k) && out@[k]
                == b[k],
            forall|k: Seq<char>| #[trigger] out@.contains_key(k) ==> b.contains_key(k) || (exists|
                j: int,
            |
                rest@.len() <= j < all.len() && (#[trigger] all[j]).0@ == k && out@[k]
                    == all[j].1),
            forall|j: int|
                rest@.len() <= j < all.len() ==> out@.contains_key((#[trigger] all[j]).0@),
        decreases rest@.len(),
    {
        let ghost n = rest@.len() as int;
        let ghost before = out@;
        match rest.pop() {
            Some((key, provider)) => {
                proof {
                    assert(all[n - 1] == (key, provider));
                    assert(rest@ =~= all.take(n - 1));
                }
                if !out.contains_key(key.as_str()) {
                    out.insert(key, provider);
                }
                proof {
                    assert forall|k: Seq<char>| #[trigger] out@.contains_key(k) implies b.contains_key(
                        k,
                    ) || (exists|j: int|
                        n - 1 <= j < all.len() && (#[trigger] all[j]).0@ == k && out@[k]
                            == all[j].1) by {
                        if before.contains_key(k) {
                            if !b.contains_key(k) {
                                let j = choose|j: int|
                                    n <= j < all.len() && (#[trigger] all[j]).0@ == k && before[k]
                                        == all[j].1;
                                assert(all[j].0@ == k && out@[k] == all[j].1);
                            }
                        } else {
                            assert(all[n - 1].0@ == k && out@[k] == all[n - 1].1);
                        }
                    }
                }
            },
            None => {},
        }
    }
    proof {
        let u = crate::omap::entry_map(all, id);
        let want = merged(b, u);
        assert forall|k: Seq<char>| #[trigger]
            out@.contains_key(k) == want.contains_key(k) by {
            entry_map_domain(all, id, k);
            if u.contains_key(k) {
                let j = choose|j: int| 0 <= j < all.len() && #[trigger] all[j].0@ == k;
                assert(out@.contains_key(all[j].0@));
            }
            if out@.contains_key(k) && !b.contains_key(k) {
                let j = choose|j: int|
                    0 <= j < all.len() && (#[trigger] all[j]).0@ == k && out@[k] == all[j].1;
                assert(all[j].0@ == k);
            }
        }
        assert forall|k: Seq<char>| #[trigger] out@.contains_key(k) implies out@[k] == want[k] by {
            if !b.contains_key(k) {
                let j = choose|j: int|
                    0 <= j < all.len() && (#[trigger] all[j]).0@ == k && out@[k] == all[j].1;
                entry_map_value(all, id, j);
            }
        }
        assert(out@ =~= want);
    }
    out
}

/// What is known of a provider.
pub open spec fn provider_view(p: ModelProviderInfo) -> (JsonView, Option<Seq<char>>) {
    (p.definition.view(), opt_text(p.problem))
}

fn clone_provider(p: &ModelProviderInfo) -> (r: ModelProviderInfo)
    ensures
        provider_view(r) == provider_view(*p),
{
    ModelProviderInfo { definition: p.definition.clone(), problem: clone_opt(&p.problem) }
}

/// What is said of a provider that is not there.
pub open spec fn no_provider(id: Seq<char>) -> Seq<char> {
    "Model provider `"@ + id + "` not found"@
}

fn missing(before: &str, name: &str, after: &str) -> (r: ConfigError)
    ensures
        is_error(r, ConfigErrorKind::NotFound, before@ + name@ + after@),
{
    let parts: [&str; 3] = [before, name, after];
    proof {
        assert(part_texts(parts@) =~= seq![before@, name@, after@]);
        reveal_with_fuel(flat, 4);
        assert(flat(part_texts(parts@)) =~= before@ + name@ + after@);
    }
    ConfigError { kind: ConfigErrorKind::NotFound, message: concat(&parts) }
}

/// The provider of this name.
pub fn provider_named(providers: &OrderedMap<ModelProviderInfo>, id: &str) -> (r: Result<
    ModelProviderInfo,
    ConfigError,
>)
    ensures
        match r {
            Ok(p) => providers@.contains_key(id@) && provider_view(p) == provider_view(
                providers@[id@],
            ),
            Err(e) => !providers@.contains_key(id@) && is_error(
                e,
                ConfigErrorKind::NotFound,
                no_provider(id@),
            ),
        },
{
    match providers.get(id) {
        Some(p) => Ok(clone_provider(p)),
        None => Err(missing("Model provider `", id, "` not found")),
    }
}

// ---------------------------------------------------------------------------
// Profiles and projects

/// What is said of a profile that is not there.
pub open spec fn no_profile(key: Seq<char>) -> Seq<char> {
    "config profile `"@ + key + "` not found"@
}

/// The profile that is asked for: for this run, else in what was written.
pub open spec fn profile_key(cfg: ConfigToml, asked: Option<String>) -> Option<String> {
    first_of(asked, cfg.profile)
}

/// The profile that is asked for is there.
pub open spec fn profile_exists(cfg: ConfigToml, asked: Option<String>) -> bool {
    profile_key(cfg, asked) is Some ==> cfg.profiles@.contains_key(profile_key(cfg, asked)->0@)
}

/// What the profile sets that is asked for; where none is, nothing is set.
pub open spec fn profile_of(cfg: ConfigToml, asked: Option<String>) -> ConfigProfile {
    match profile_key(cfg, asked) {
        Some(key) => cfg.profiles@[key@],
        None => blank_profile(),
    }
}

impl ConfigToml {
    /// The profile that is asked for.
    pub fn get_config_profile(&self, override_profile: Option<String>) -> (r: Result<
        ConfigProfile,
        ConfigError,
    >)
        ensures
            match r {
                Ok(p) => profile_exists(*self, override_profile) && p == profile_of(
                    *self,
                    override_profile,
                ),
                Err(e) => !profile_exists(*self, override_profile) && is_error(
                    e,
                    ConfigErrorKind::NotFound,
                    no_profile(profile_key(*self, override_profile)->0@),
                ),
            },
    {
        let key: Option<String> = first(override_profile, clone_opt(&self.profile));
        match key {
            Some(key) => match self.profiles.get(key.as_str()) {
                Some(p) => Ok(p.clone()),
                None => Err(missing("config profile `", key.as_str(), "` not found")),
            },
            None => Ok(ConfigProfile::default()),
        }
    }

    /// What was written for the project at this path.
    pub open spec fn spec_project(self, path: Seq<char>) -> Option<ProjectConfig> {
        match self.projects {
            Some(projects) => if projects@.contains_key(path) {
                Some(projects@[path])
            } else {
                None
            },
            None => None,
        }
    }

    /// What was written for the project at this path.
    pub fn project(&self, path: &str) -> (r: Option<&ProjectConfig>)
        ensures
            match r {
                Some(p) => self.spec_project(path@) == Some(*p),
                None => self.spec_project(path@) is None,
            },
    {
        match &self.projects {
            Some(projects) => projects.get(path),
            None => None,
        }
    }

    /// The user trusts the project at this path.
    pub open spec fn trusts(self, path: Seq<char>) -> bool {
        self.spec_project(path) matches Some(p) && p.trust_level is Some && p.trust_level->0@
            == "trusted"@
    }

    fn is_path_trusted(&self, path: &str) -> (r: bool)
        ensures
            r == self.trusts(path@),
    {
        match self.project(path) {
            Some(p) => match &p.trust_level {
                Some(level) => str_eq(level.as_str(), "trusted"),
                None => false,
            },
            None => false,
        }
    }

    /// The user trusts the project at this path, or the one whose work tree this is.
    pub fn is_cwd_trusted(&self, resolved_cwd: &str, root_project: Option<&str>) -> (r: bool)
        ensures
            r == (self.trusts(resolved_cwd@) || (root_project is Some && self.trusts(
                root_project->0@,
            ))),
    {
        if self.is_path_trusted(resolved_cwd) {
            return true;
        }
        match root_project {
            Some(root) => self.is_path_trusted(root),
            None => false,
        }
    }

    /// What a command may do, as it was written.
    pub fn derive_sandbox_policy(
        &self,
        sandbox_mode_override: Option<SandboxMode>,
        workspace_write: SandboxPolicy,
    ) -> (r: SandboxPolicy)
        ensures
            r.view() == sandbox_of(
                value_or(
                    first_of(sandbox_mode_override, self.sandbox_mode),
                    SandboxMode::ReadOnly,
                ),
                self.sandbox_workspace_write,
                workspace_write.view(),
            ),
    {
        let mode: SandboxMode = match first(sandbox_mode_override, self.sandbox_mode) {
            Some(mode) => mode,
            None => SandboxMode::ReadOnly,
        };
        sandbox_policy(mode, &self.sandbox_workspace_write, workspace_write)
    }
}

/// What a command may do under this name. In a workspace that it may write to, that
/// is what was written of it, else what is usual.
pub open spec fn sandbox_of(
    mode: SandboxMode,
    written: Option<SandboxWorkspaceWrite>,
    usual: PolicyView,
) -> PolicyView {
    match mode {
        SandboxMode::ReadOnly => PolicyView::ReadOnly,
        SandboxMode::DangerFullAccess => PolicyView::DangerFullAccess,
        SandboxMode::WorkspaceWrite => match written {
            Some(w) => PolicyView::WorkspaceWrite {
                writable_roots: texts(w.writable_roots@),
                network_access: w.network_access,
                exclude_tmpdir_env_var: w.exclude_tmpdir_env_var,
                exclude_slash_tmp: w.exclude_slash_tmp,
                allow_git_writes: w.allow_git_writes,
            },
            None => usual,
        },
    }
}

/// What a command may do under this name.
pub fn sandbox_policy(
    mode: SandboxMode,
    written: &Option<SandboxWorkspaceWrite>,
    usual: SandboxPolicy,
) -> (r: SandboxPolicy)
    ensures
        r.view() == sandbox_of(mode, *written, usual.view()),
{
    match mode {
        SandboxMode::ReadOnly => SandboxPolicy::ReadOnly,
        SandboxMode::DangerFullAccess => SandboxPolicy::DangerFullAccess,
        SandboxMode::WorkspaceWrite => match written {
            Some(w) => SandboxPolicy::WorkspaceWrite {
                writable_roots: clone_strings(&w.writable_roots),
                network_access: w.network_access,
                exclude_tmpdir_env_var: w.exclude_tmpdir_env_var,
                exclude_slash_tmp: w.exclude_slash_tmp,
                allow_git_writes: w.allow_git_writes,
            },
            None => usual,
        },
    }
}

/// What is known of a command that is run without asking.
pub struct ApprovedView {
    pub argv: Seq<Seq<char>>,
    pub kind: AllowedCommandMatchKind,
    pub semantic_prefix: Option<Seq<Seq<char>>>,
}

/// What is known of a command that is run without asking.
pub open spec fn approved_view(p: ApprovedCommandPattern) -> ApprovedView {
    ApprovedView {
        argv: texts(p.argv@),
        kind: p.kind,
        semantic_prefix: match p.semantic_prefix {
            Some(v) => Some(texts(v@)),
            None => None,
        },
    }
}

/// The commands that are run without asking: those that were allowed, but for
/// empty ones.
pub open spec fn approved(commands: Seq<AllowedCommand>) -> Seq<ApprovedView>
    decreases commands.len(),
{
    if commands.len() == 0 {
        Seq::empty()
    } else {
        let before = approved(commands.drop_last());
        let last = commands.last();
        if last.argv@.len() == 0 {
            before
        } else {
            before.push(
                ApprovedView {
                    argv: texts(last.argv@),
                    kind: last.match_kind,
                    semantic_prefix: match last.match_kind {
                        AllowedCommandMatchKind::Prefix => Some(texts(last.argv@)),
                        AllowedCommandMatchKind::Exact => None,
                    },
                },
            )
        }
    }
}

/// What the project allows.
pub open spec fn approved_for(project: Option<ProjectConfig>) -> Seq<ApprovedView> {
    match project {
        Some(p) => match p.always_allow_commands {
            Some(commands) => approved(commands@),
            None => Seq::empty(),
        },
        None => Seq::empty(),
    }
}

fn approve(commands: &Vec<AllowedCommand>) -> (r: Vec<ApprovedCommandPattern>)
    ensures
        r@.map_values(|p: ApprovedCommandPattern| approved_view(p)) == approved(commands@),
{
    let mut out: Vec<ApprovedCommandPattern> = Vec::new();
    let ghost seen = |p: ApprovedCommandPattern| approved_view(p);
    let mut i: usize = 0;
    assert(out@.map_values(seen) =~= approved(commands@.take(0)));
    while i < commands.len()
        invariant
            i <= commands.len(),
            seen == (|p: ApprovedCommandPattern| approved_view(p)),
            out@.map_values(seen) == approved(commands@.take(i as int)),
        decreases commands.len() - i,
    {
        proof {
            assert(commands@.take(i + 1).drop_last() =~= commands@.take(i as int));
            assert(commands@.take(i + 1).last() == commands@[i as int]);
        }
        let ghost before = out@;
        if commands[i].argv.len() > 0 {
            let kind: AllowedCommandMatchKind = commands[i].match_kind;
            let semantic_prefix: Option<Vec<String>> = match kind {
                AllowedCommandMatchKind::Prefix => Some(clone_strings(&commands[i].argv)),
                AllowedCommandMatchKind::Exact => None,
            };
            out.push(
                ApprovedCommandPattern {
                    argv: clone_strings(&commands[i].argv),
                    kind,
                    semantic_prefix,
                },
            );
            assert(out@.map_values(seen) =~= before.map_values(seen).push(
                approved_view(out@.last()),
            ));
        }
        i = i + 1;
    }
    assert(commands@.take(i as int) =~= commands@);
    out
}

/// What the project allows.
pub fn approved_commands(project: Option<&ProjectConfig>) -> (r: Vec<ApprovedCommandPattern>)
    ensures
        r@.map_values(|p: ApprovedCommandPattern| approved_view(p)) == approved_for(
            match project {
                Some(p) => Some(*p),
                None => None,
            },
        ),
{
    let none: Vec<ApprovedCommandPattern> = Vec::new();
    assert(none@.map_values(|p: ApprovedCommandPattern| approved_view(p)) =~= Seq::<
        ApprovedView,
    >::empty());
    match project {
        Some(p) => match &p.always_allow_commands {
            Some(commands) => approve(commands),
            None => none,
        },
        None => none,
    }
}

/// The names without white space around them, but for blank ones.
pub open spec fn named_files(names: Seq<Seq<char>>) -> Seq<Seq<char>>
    decreases names.len(),
{
    if names.len() == 0 {
        Seq::empty()
    } else {
        let before = named_files(names.drop_last());
        let last = trim_text(names.last());
        if last.len() > 0 {
            before.push(last)
        } else {
            before
        }
    }
}

/// The names without white space around them, but for blank ones.
pub fn fallback_filenames(names: &Vec<String>) -> (r: Vec<String>)
    ensures
        texts(r@) == named_files(texts(names@)),
{
    let ghost all = texts(names@);
    let mut out: Vec<String> = Vec::new();
    let mut i: usize = 0;
    assert(texts(out@) =~= named_files(all.take(0)));
    while i < names.len()
        invariant
            i <= names.len(),
            all == texts(names@),
            texts(out@) == named_files(all.take(i as int)),
        decreases names.len() - i,
    {
        proof {
            assert(all.take(i + 1).drop_last() =~= all.take(i as int));
            assert(all.take(i + 1).last() == names@[i as int]@);
        }
        let ghost before = out@;
        let name: String = trim(names[i].as_str());
        if name.as_str().unicode_len() > 0 {
            out.push(name);
            assert(texts(out@) =~= texts(before).push(out@.last()@));
        }
        i = i + 1;
    }
    assert(all.take(i as int) =~= all);
    out
}

// ---------------------------------------------------------------------------
// Single values

/// How soon an answer is wanted: what is usual is not asked for.
pub open spec fn tier_of(tier: Option<ServiceTier>) -> Option<ServiceTier> {
    match tier {
        Some(ServiceTier::Fast) => Some(ServiceTier::Fast),
        Some(ServiceTier::Flex) => Some(ServiceTier::Flex),
        Some(ServiceTier::Standard) => None,
        None => None,
    }
}

/// How soon an answer is wanted: what is usual is not asked for.
pub fn effective_service_tier(tier: Option<ServiceTier>) -> (r: Option<ServiceTier>)
    ensures
        r == tier_of(tier),
{
    match tier {
        Some(ServiceTier::Fast) => Some(ServiceTier::Fast),
        Some(ServiceTier::Flex) => Some(ServiceTier::Flex),
        Some(ServiceTier::Standard) => None,
        None => None,
    }
}

/// A value that is written as a boolean or as a text.
#[derive(Debug, PartialEq, Eq)]
pub enum BoolOrString {
    Bool(bool),
    String(String),
}

/// What is expected where a boolean may be written as a text.
pub const BOOL_EXPECTED: &'static str = "a boolean or string 'true'/'false'";

/// The boolean that the text stands for.
pub open spec fn bool_of(text: Seq<char>) -> Option<bool> {
    let word = ascii_lower_text(trim_text(text));
    if word == "true"@ {
        Some(true)
    } else if word == "false"@ {
        Some(false)
    } else {
        None
    }
}

/// A boolean that is written as one or as a text. What comes back where it is
/// neither is the text.
pub fn deserialize_option_bool_from_maybe_string(value: Option<BoolOrString>) -> (r: Result<
    Option<bool>,
    String,
>)
    ensures
        match value {
            None => r == Ok::<Option<bool>, String>(None),
            Some(BoolOrString::Bool(b)) => r == Ok::<Option<bool>, String>(Some(b)),
            Some(BoolOrString::String(s)) => match bool_of(s@) {
                Some(b) => r == Ok::<Option<bool>, String>(Some(b)),
                None => r == Err::<Option<bool>, String>(s),
            },
        },
{
    match value {
        Some(BoolOrString::Bool(b)) => Ok(Some(b)),
        Some(BoolOrString::String(s)) => {
            let trimmed: String = trim(s.as_str());
            let word: String = to_ascii_lowercase(trimmed.as_str());
            if str_eq(word.as_str(), "true") {
                Ok(Some(true))
            } else if str_eq(word.as_str(), "false") {
                Ok(Some(false))
            } else {
                Err(s)
            }
        },
        None => Ok(None),
    }
}

/// Which ways of asking are allowed.
#[derive(Debug, PartialEq, Eq, Clone, Copy, Structural)]
pub struct ApprovalLimits {
    pub unless_trusted: bool,
    pub on_failure: bool,
    pub on_request: bool,
    pub never: bool,
}

impl ApprovalLimits {
    /// This way of asking is allowed.
    pub open spec fn allows(self, policy: AskForApproval) -> bool {
        match policy {
            AskForApproval::UnlessTrusted => self.unless_trusted,
            AskForApproval::OnFailure => self.on_failure,
            AskForApproval::OnRequest => self.on_request,
            AskForApproval::Never => self.never,
        }
    }
}

/// The ways of asking.
pub open spec fn all_policies() -> Seq<AskForApproval> {
    seq![
        AskForApproval::UnlessTrusted,
        AskForApproval::OnFailure,
        AskForApproval::OnRequest,
        AskForApproval::Never,
    ]
}

/// The ways of asking that are allowed, or nothing where all are.
pub fn load_allowed_approval_policies(limits: ApprovalLimits) -> (r: Option<Vec<AskForApproval>>)
    ensures
        match r {
            None => forall|p: AskForApproval| limits.allows(p),
            Some(v) => v@ == all_policies().filter(|p: AskForApproval| limits.allows(p)) && !(
            forall|p: AskForApproval| limits.allows(p)),
        },
{
    let candidates: [AskForApproval; 4] = [
        AskForApproval::UnlessTrusted,
        AskForApproval::OnFailure,
        AskForApproval::OnRequest,
        AskForApproval::Never,
    ];
    let ghost keep = |p: AskForApproval| limits.allows(p);
    assert(candidates@ =~= all_policies());
    let mut allowed: Vec<AskForApproval> = Vec::new();
    let mut i: usize = 0;
    reveal(Seq::filter);
    while i < 4
        invariant
            i <= 4,
            candidates@ == all_policies(),
            keep == (|p: AskForApproval| limits.allows(p)),
            allowed@ == candidates@.take(i as int).filter(keep),
            allowed@.len() <= i,
            allowed@.len() == i <==> forall|j: int|
                0 <= j < i ==> limits.allows(#[trigger] candidates@[j]),
        decreases 4 - i,
    {
        reveal(Seq::filter);
        assert(candidates@.take(i + 1).drop_last() =~= candidates@.take(i as int));
        let candidate: AskForApproval = candidates[i];
        let can_set: bool = match candidate {
            AskForApproval::UnlessTrusted => limits.unless_trusted,
            AskForApproval::OnFailure => limits.on_failure,
            AskForApproval::OnRequest => limits.on_request,
            AskForApproval::Never => limits.never,
        };
        if can_set {
            allowed.push(candidate);
        }
        i = i + 1;
    }
    assert(candidates@.take(4) =~= candidates@);
    proof {
        let c = candidates@;
        if limits.allows(c[0]) && limits.allows(c[1]) && limits.allows(c[2]) && limits.allows(c[3]) {
            assert forall|p: AskForApproval| #[trigger] limits.allows(p) by {}
        }
    }
    if allowed.len() == 4 {
        None
    } else {
        Some(allowed)
    }
}

/// The user is signed in with an account: what was found says so.
pub fn is_using_chatgpt_auth(found: Result<Option<bool>, ConfigError>) -> (r: bool)
    ensures
        r == (found is Ok && found->Ok_0 == Some(true)),
{
    match found {
        Ok(Some(chatgpt)) => chatgpt,
        _ => false,
    }
}

/// How deep agents start agents where nothing is said of it.
pub const DEFAULT_SUBAGENT_MAX_DEPTH: i32 = 1;

/// What is said where agents could not start agents.
pub const DEPTH_MESSAGE: &'static str = "subagents.max-depth must be at least 1";

/// How deep agents may start agents.
pub fn subagent_depth(max_depth: Option<i32>) -> (r: Result<i32, ConfigError>)
    ensures
        ({
            let depth = value_or(max_depth, DEFAULT_SUBAGENT_MAX_DEPTH);
            match r {
                Ok(d) => depth >= 1 && d == depth,
                Err(e) => depth < 1 && is_error(e, ConfigErrorKind::InvalidInput, DEPTH_MESSAGE@),
            }
        }),
{
    let depth: i32 = match max_depth {
        Some(depth) => depth,
        None => DEFAULT_SUBAGENT_MAX_DEPTH,
    };
    if depth < 1 {
        Err(
            ConfigError {
                kind: ConfigErrorKind::InvalidInput,
                message: DEPTH_MESSAGE.to_string(),
            },
        )
    } else {
        Ok(depth)
    }
}

/// What is said of a pattern that is none.
pub open spec fn bad_pattern(regex: Seq<char>, problem: Seq<char>) -> Seq<char> {
    "invalid confirm_guard pattern `"@ + regex + "`: "@ + problem
}

/// What is said of the first pattern that is none.
pub open spec fn pattern_problem(
    patterns: Seq<ConfirmGuardPattern>,
    problems: Seq<Option<String>>,
) -> Option<Seq<char>>
    recommends
        patterns.len() == problems.len(),
    decreases patterns.len(),
{
    if patterns.len() == 0 {
        None
    } else if pattern_problem(patterns.drop_last(), problems.drop_last()) is Some {
        pattern_problem(patterns.drop_last(), problems.drop_last())
    } else {
        match problems.last() {
            Some(problem) => Some(bad_pattern(patterns.last().regex@, problem@)),
            None => None,
        }
    }
}

proof fn problem_found(patterns: Seq<ConfirmGuardPattern>, problems: Seq<Option<String>>, n: int)
    requires
        patterns.len() == problems.len(),
        0 <= n <= patterns.len(),
        pattern_problem(patterns.take(n), problems.take(n)) is Some,
    ensures
        pattern_problem(patterns, problems) == pattern_problem(patterns.take(n), problems.take(n)),
    decreases patterns.len() - n,
{
    if n == patterns.len() {
        assert(patterns.take(n) =~= patterns);
        assert(problems.take(n) =~= problems);
    } else {
        assert(patterns.take(n + 1).drop_last() =~= patterns.take(n));
        assert(problems.take(n + 1).drop_last() =~= problems.take(n));
        problem_found(patterns, problems, n + 1);
    }
}

/// Refuses a pattern that is none, given what is wrong with each.
pub fn check_patterns(patterns: &Vec<ConfirmGuardPattern>, problems: &Vec<Option<String>>) -> (r:
    Result<(), ConfigError>)
    requires
        patterns@.len() == problems@.len(),
    ensures
        match r {
            Ok(()) => pattern_problem(patterns@, problems@) is None,
            Err(e) => pattern_problem(patterns@, problems@) is Some && is_error(
                e,
                ConfigErrorKind::InvalidData,
                pattern_problem(patterns@, problems@)->0,
            ),
        },
{
    let mut i: usize = 0;
    while i < patterns.len()
        invariant
            i <= patterns.len(),
            patterns@.len() == problems@.len(),
            pattern_problem(patterns@.take(i as int), problems@.take(i as int)) is None,
        decreases patterns.len() - i,
    {
        proof {
            assert(patterns@.take(i + 1).drop_last() =~= patterns@.take(i as int));
            assert(problems@.take(i + 1).drop_last() =~= problems@.take(i as int));
        }
        if let Some(problem) = &problems[i] {
            let parts: [&str; 4] = [
                "invalid confirm_guard pattern `",
                patterns[i].regex.as_str(),
                "`: ",
                problem.as_str(),
            ];
            proof {
                problem_found(patterns@, problems@, i + 1);
                assert(part_texts(parts@) =~= seq![
                    "invalid confirm_guard pattern `"@,
                    patterns@[i as int].regex@,
                    "`: "@,
                    problem@,
                ]);
                reveal_with_fuel(flat, 5);
                assert(flat(part_texts(parts@)) =~= bad_pattern(
                    patterns@[i as int].regex@,
                    problem@,
                ));
            }
            return Err(
                ConfigError { kind: ConfigErrorKind::InvalidData, message: concat(&parts) },
            );
        }
        i = i + 1;
    }
    proof {
        assert(patterns@.take(i as int) =~= patterns@);
        assert(problems@.take(i as int) =~= problems@);
    }
    Ok(())
}

/// What the parser of `regex_lite` says of a text that is no pattern, and nothing of one
/// that is.
pub uninterp spec fn regex_refusal(pattern: Seq<char>) -> Option<Seq<char>>;

/// How many characters a small pattern has at most.
pub const SMALL_PATTERN: usize = 1_000;

/// The pattern is short and counts no repetitions, so that its program is small.
pub open spec fn is_small_pattern(pattern: Seq<char>) -> bool {
    pattern.len() <= SMALL_PATTERN && !pattern.contains('{')
}

/// The pattern is made of letters and digits, which stand for themselves.
pub open spec fn is_plain(pattern: Seq<char>) -> bool {
    forall|i: int|
        0 <= i < pattern.len() ==> {
            let c = #[trigger] pattern[i];
            'a' <= c <= 'z' || 'A' <= c <= 'Z' || '0' <= c <= '9'
        }
}

/// This is said of a pattern whose program is too large.
pub open spec fn is_size_refusal(message: Seq<char>) -> bool {
    message == "compiled regex exceeded size limit"@ || message
        == "exhausted state IDs, too many states"@ || message == "capture group slots exhausted"@
}

/// This is said of the text: what the parser says of one that is no pattern; of one that
/// is, nothing, or that its program is too large, which a small pattern's never is.
/// Letters and digits are a pattern.
pub open spec fn is_told(pattern: Seq<char>, problem: Option<String>) -> bool {
    let too_large = problem is Some && is_size_refusal(problem->0@) && !is_small_pattern(pattern);
    &&& opt_text(problem) == regex_refusal(pattern) || (regex_refusal(pattern) is None && too_large)
    &&& is_plain(pattern) ==> problem is None || too_large
}

/// `regex_lite::Regex::new`: what it says of a text that is no pattern, and nothing
/// of one that is. What the parser says goes by the text alone. A pattern is then also
/// refused where its program takes more than ten mebibytes or has too many parts; how
/// much it takes depends on the machine, and which of the larger patterns are refused is
/// not said here. A small one takes less on any machine. The parser takes letters and
/// digits.
#[verifier::external_body]
fn regex_problem(pattern: &str) -> (r: Option<String>)
    ensures
        opt_text(r) == regex_refusal(pattern@) || (regex_refusal(pattern@) is None && r is Some
            && is_size_refusal(r->0@) && !is_small_pattern(pattern@)),
        is_plain(pattern@) ==> r is None || (is_size_refusal(r->0@) && !is_small_pattern(pattern@)),
{
    match regex_lite::Regex::new(pattern) {
        Ok(_) => None,
        Err(err) => Some(err.to_string()),
    }
}

/// This is said of each of the patterns.
pub open spec fn are_told(
    patterns: Seq<ConfirmGuardPattern>,
    problems: Seq<Option<String>>,
) -> bool {
    &&& problems.len() == patterns.len()
    &&& forall|i: int| 0 <= i < patterns.len() ==> #[trigger] is_told(patterns[i].regex@, problems[i])
}

/// What is wrong with each of the patterns.
pub fn regex_problems(patterns: &Vec<ConfirmGuardPattern>) -> (r: Vec<Option<String>>)
    ensures
        are_told(patterns@, r@),
{
    let mut out: Vec<Option<String>> = Vec::new();
    let mut i: usize = 0;
    while i < patterns.len()
        invariant
            i <= patterns.len(),
            out@.len() == i,
            forall|j: int| 0 <= j < i ==> #[trigger] is_told(patterns@[j].regex@, out@[j]),
        decreases patterns.len() - i,
    {
        out.push(regex_problem(patterns[i].regex.as_str()));
        i = i + 1;
    }
    out
}

} // verus!
