//! What is refused, what is looked for, and how this program works on its own.

use crate::config::{
    asks, is_config, is_loaded, patterns_of, provider_id_of, Config, CwdChoice, LoadFacts,
    LoadQuestions,
};
use crate::config_parts::{
    all_policies, are_told, bool_of, first_of, is_first_problem, named_files, not_blank,
    pattern_problem, profile_of, providers_problem, regex_refusal, reserved_ids, sandbox_of,
    value_or, ApprovalLimits,
};
use crate::config_routing::{
    all_levels, granted, ordered_levels, routed, routed_entry, settled, AutoDriveSettings,
    AutoDriveView, EffortLimits, EffortRule, EntryView,
};
use crate::config_types::{
    ConfigError, ConfigErrorKind, ConfigOverrides, ConfigToml, ConfirmGuardPattern, ContextMode,
    ModelProviderInfo, SandboxMode, SandboxWorkspaceWrite,
};
use crate::omap::least_key;
use crate::order::filter_places;
use crate::protocol::{AskForApproval, PolicyView, ReasoningEffort};
use crate::text::{
    ascii_lower_text, joined, lex_lt, lex_lt_irreflexive, lex_lt_transitive, starts, texts,
    trim_text,
};
use vstd::prelude::*;

verus! {

broadcast use vstd::seq_lib::group_seq_properties;

/// A profile that is not there is refused before anything else, by its name.
pub proof fn missing_profile_is_named(
    r: Result<Config, ConfigError>,
    cfg: ConfigToml,
    overrides: ConfigOverrides,
    code_home: String,
    facts: LoadFacts,
    problems: Seq<Option<String>>,
    key: String,
)
    requires
        is_loaded(r, cfg, overrides, code_home, facts, problems),
        overrides.config_profile == Some(key) || (overrides.config_profile is None && cfg.profile
            == Some(key)),
        !cfg.profiles@.contains_key(key@),
    ensures
        r is Err,
        r->Err_0.kind == ConfigErrorKind::NotFound,
        r->Err_0.message@ == "config profile `"@ + key@ + "` not found"@,
{
}

/// The settings name a profile that is there, if they name one.
pub open spec fn names_a_profile(cfg: ConfigToml, overrides: ConfigOverrides) -> bool {
    match overrides.config_profile {
        Some(key) => cfg.profiles@.contains_key(key@),
        None => cfg.profile matches Some(key) ==> cfg.profiles@.contains_key(key@),
    }
}

/// The providers that the user wrote take no name that is taken, and nothing is wrong
/// with any of them.
pub open spec fn providers_are_sound(cfg: ConfigToml) -> bool {
    &&& !cfg.model_providers@.contains_key("openai"@)
    &&& !cfg.model_providers@.contains_key("oss"@)
    &&& forall|k: Seq<char>| #[trigger]
        cfg.model_providers@.contains_key(k) ==> cfg.model_providers@[k].problem is None
}

/// Each provider of the user's with something wrong is a reason to refuse them, and there
/// is no other reason but a name that is taken.
pub proof fn providers_are_refused_for_a_reason(providers: Map<Seq<char>, ModelProviderInfo>)
    requires
        providers.dom().finite(),
    ensures
        providers_problem(providers) is None <==> {
            &&& !providers.contains_key("openai"@)
            &&& !providers.contains_key("oss"@)
            &&& forall|k: Seq<char>| #[trigger]
                providers.contains_key(k) ==> providers[k].problem is None
        },
{
    broadcast use vstd::seq_lib::group_filter_ensures;

    let keep = |k: Seq<char>| providers.contains_key(k);
    let used = reserved_ids().filter(keep);
    assert(reserved_ids()[0] == "openai"@ && reserved_ids()[1] == "oss"@);
    if providers.contains_key("openai"@) {
        assert(reserved_ids().contains(reserved_ids()[0]) && keep(reserved_ids()[0]));
        assert(used.contains("openai"@));
    }
    if providers.contains_key("oss"@) {
        assert(reserved_ids().contains(reserved_ids()[1]) && keep(reserved_ids()[1]));
        assert(used.contains("oss"@));
    }
    if used.len() > 0 {
        let places = filter_places(reserved_ids(), keep);
        assert(reserved_ids()[places[0]] == used[0] && keep(used[0]));
    }
    if exists|k: Seq<char>| #[trigger] providers.contains_key(k) && providers[k].problem is Some {
        let k = choose|k: Seq<char>| #[trigger] providers.contains_key(k) && providers[k].problem is Some;
        let bad = providers.dom().filter(|j: Seq<char>| providers[j].problem is Some);
        assert(bad.contains(k));
        let least = least_key(bad);
        assert(is_first_problem(providers, least)) by {
            assert forall|j: Seq<char>| #[trigger]
                providers.contains_key(j) && providers[j].problem is Some implies j == least
                || lex_lt(least, j) by {
                assert(bad.contains(j));
            }
        }
    }
}

/// Of several providers with something wrong the first by name is told of, by its name and
/// what is wrong with it.
pub proof fn first_wrong_provider_is_named(
    providers: Map<Seq<char>, ModelProviderInfo>,
    key: Seq<char>,
)
    requires
        !providers.contains_key("openai"@),
        !providers.contains_key("oss"@),
        providers.contains_key(key),
        providers[key].problem is Some,
        forall|k: Seq<char>| #[trigger]
            providers.contains_key(k) && providers[k].problem is Some ==> k == key || lex_lt(key, k),
    ensures
        providers_problem(providers) == Some(
            "model_providers."@ + key + ": "@ + providers[key].problem->0@,
        ),
{
    let keep = |k: Seq<char>| providers.contains_key(k);
    let used = reserved_ids().filter(keep);
    assert(reserved_ids()[0] == "openai"@ && reserved_ids()[1] == "oss"@);
    let places = filter_places(reserved_ids(), keep);
    assert(used.len() == 0) by {
        if used.len() > 0 {
            assert(reserved_ids()[places[0]] == used[0] && keep(used[0]));
        }
    }
    assert(is_first_problem(providers, key));
    let first = choose|k: Seq<char>| is_first_problem(providers, k);
    if first != key {
        assert(lex_lt(key, first) && lex_lt(first, key));
        lex_lt_transitive(key, first, key);
        lex_lt_irreflexive(key);
    }
}

/// A name that is taken is told of between back quotes; where both are used, both are.
pub proof fn taken_names_are_told(providers: Map<Seq<char>, ModelProviderInfo>)
    ensures
        ({
            let head = "model_providers contains reserved built-in provider IDs: "@;
            let tail = ". Built-in providers cannot be overridden. Rename your custom provider."@;
            let openai = providers.contains_key("openai"@);
            let oss = providers.contains_key("oss"@);
            let told = providers_problem(providers);
            &&& openai && !oss ==> told == Some(head + ("`"@ + "openai"@ + "`"@) + tail)
            &&& !openai && oss ==> told == Some(head + ("`"@ + "oss"@ + "`"@) + tail)
            &&& openai && oss ==> told == Some(
                head + (("`"@ + "openai"@ + "`"@) + ", "@ + ("`"@ + "oss"@ + "`"@)) + tail,
            )
        }),
{
    let keep = |k: Seq<char>| providers.contains_key(k);
    let ids = reserved_ids();
    assert(ids[0] == "openai"@ && ids[1] == "oss"@);
    reveal(Seq::filter);
    assert(ids.drop_last() =~= seq!["openai"@]);
    assert(ids.drop_last().drop_last() =~= Seq::<Seq<char>>::empty());
    reveal_with_fuel(Seq::filter, 4);
    let used = ids.filter(keep);
    let f = |n: Seq<char>| crate::config_parts::quoted(n);
    let openai = providers.contains_key("openai"@);
    let oss = providers.contains_key("oss"@);
    if openai && oss {
        assert(used =~= seq!["openai"@, "oss"@]);
        let q = used.map_values(f);
        assert(q =~= seq!["`"@ + "openai"@ + "`"@, "`"@ + "oss"@ + "`"@]);
        assert(q.drop_last() =~= seq!["`"@ + "openai"@ + "`"@]);
        reveal_with_fuel(joined, 3);
    } else if openai {
        assert(used =~= seq!["openai"@]);
        assert(used.map_values(f) =~= seq!["`"@ + "openai"@ + "`"@]);
        reveal_with_fuel(joined, 2);
    } else if oss {
        assert(used =~= seq!["oss"@]);
        assert(used.map_values(f) =~= seq!["`"@ + "oss"@ + "`"@]);
        reveal_with_fuel(joined, 2);
    }
}

/// Of each pattern it is told what the parser says of it; of one that is a pattern,
/// nothing, or that it is too large, which a small one is not.
pub proof fn patterns_are_told_of(
    patterns: Seq<ConfirmGuardPattern>,
    problems: Seq<Option<String>>,
    i: int,
)
    requires
        are_told(patterns, problems),
        0 <= i < patterns.len(),
    ensures
        problems.len() == patterns.len(),
        regex_refusal(patterns[i].regex@) matches Some(m) ==> problems[i] is Some
            && problems[i]->0@ == m,
        regex_refusal(patterns[i].regex@) is None && patterns[i].regex@.len() <= 1_000
            && !patterns[i].regex@.contains('{') ==> problems[i] is None,
        patterns[i].regex@.len() <= 1_000 && (forall|k: int|
            0 <= k < patterns[i].regex@.len() ==> {
                let c = #[trigger] patterns[i].regex@[k];
                'a' <= c <= 'z' || 'A' <= c <= 'Z' || '0' <= c <= '9'
            }) ==> problems[i] is None,
{
    let p = patterns[i].regex@;
    if p.contains('{') {
        let k = choose|k: int| 0 <= k < p.len() && p[k] == '{';
        assert(p[k] == '{');
    }
    assert(crate::config_parts::is_told(patterns[i].regex@, problems[i]));
}

/// A configuration comes of just those settings that are sound: the profile and the
/// provider that they name are there, nothing is wrong with the user's providers, what
/// had to be looked for was found, each pattern is one, and agents may start agents.
pub proof fn sound_settings_are_loaded(
    r: Result<Config, ConfigError>,
    cfg: ConfigToml,
    overrides: ConfigOverrides,
    code_home: String,
    facts: LoadFacts,
    problems: Seq<Option<String>>,
)
    requires
        is_loaded(r, cfg, overrides, code_home, facts, problems),
        problems.len() == patterns_of(cfg, facts.defaults).len(),
        cfg.model_providers@.dom().finite(),
    ensures
        r is Ok <==> {
            let id = provider_id_of(overrides, profile_of(cfg, overrides.config_profile), cfg);
            &&& names_a_profile(cfg, overrides)
            &&& providers_are_sound(cfg)
            &&& facts.built_in_providers@.contains_key(id) || cfg.model_providers@.contains_key(id)
            &&& facts.cwd is Ok
            &&& facts.file_base_instructions is Ok
            &&& facts.file_compact_prompt is Ok
            &&& forall|i: int| 0 <= i < problems.len() ==> #[trigger] problems[i] is None
            &&& cfg.subagents matches Some(s) ==> (s.max_depth matches Some(d) ==> d >= 1)
        },
        r is Ok ==> is_config(r->Ok_0, cfg, overrides, code_home, facts),
{
    providers_are_refused_for_a_reason(cfg.model_providers@);
    let patterns = patterns_of(cfg, facts.defaults);
    if pattern_problem(patterns, problems) is None {
        no_pattern_problem(patterns, problems);
    } else {
        let i = some_pattern_problem(patterns, problems);
        assert(problems[i] is Some);
    }
}

proof fn no_pattern_problem(patterns: Seq<ConfirmGuardPattern>, problems: Seq<Option<String>>)
    requires
        patterns.len() == problems.len(),
        pattern_problem(patterns, problems) is None,
    ensures
        forall|i: int| 0 <= i < problems.len() ==> #[trigger] problems[i] is None,
    decreases patterns.len(),
{
    if patterns.len() > 0 {
        no_pattern_problem(patterns.drop_last(), problems.drop_last());
        assert forall|i: int| 0 <= i < problems.len() implies #[trigger] problems[i] is None by {
            if i < problems.len() - 1 {
                assert(problems.drop_last()[i] is None);
            }
        }
    }
}

proof fn some_pattern_problem(
    patterns: Seq<ConfirmGuardPattern>,
    problems: Seq<Option<String>>,
) -> (i: int)
    requires
        patterns.len() == problems.len(),
        pattern_problem(patterns, problems) is Some,
    ensures
        0 <= i < problems.len(),
        problems[i] is Some,
    decreases patterns.len(),
{
    if pattern_problem(patterns.drop_last(), problems.drop_last()) is Some {
        some_pattern_problem(patterns.drop_last(), problems.drop_last())
    } else {
        problems.len() - 1
    }
}

/// Of several patterns that are none, the first one is named.
pub proof fn first_bad_pattern_is_named(
    patterns: Seq<ConfirmGuardPattern>,
    problems: Seq<Option<String>>,
    i: int,
)
    requires
        patterns.len() == problems.len(),
        0 <= i < patterns.len(),
        problems[i] is Some,
        forall|j: int| 0 <= j < i ==> #[trigger] problems[j] is None,
    ensures
        pattern_problem(patterns, problems) == Some(
            "invalid confirm_guard pattern `"@ + patterns[i].regex@ + "`: "@ + problems[i]->0@,
        ),
    decreases patterns.len(),
{
    if i < patterns.len() - 1 {
        first_bad_pattern_is_named(patterns.drop_last(), problems.drop_last(), i);
    } else if pattern_problem(patterns.drop_last(), problems.drop_last()) is Some {
        let j = some_pattern_problem(patterns.drop_last(), problems.drop_last());
        assert(problems[j] is Some);
    }
}

/// What was not found out is told as it was, where nothing was refused before: the
/// directory first, then the instructions, then the prompt for summing up.
pub proof fn failures_are_told_in_turn(
    r: Result<Config, ConfigError>,
    cfg: ConfigToml,
    overrides: ConfigOverrides,
    code_home: String,
    facts: LoadFacts,
    problems: Seq<Option<String>>,
)
    requires
        is_loaded(r, cfg, overrides, code_home, facts, problems),
        cfg.model_providers@.dom().finite(),
        names_a_profile(cfg, overrides),
        providers_are_sound(cfg),
    ensures
        ({
            let id = provider_id_of(overrides, profile_of(cfg, overrides.config_profile), cfg);
            let offered = facts.built_in_providers@.contains_key(id)
                || cfg.model_providers@.contains_key(id);
            &&& !offered ==> r is Err && r->Err_0.kind == ConfigErrorKind::NotFound
                && r->Err_0.message@ == "Model provider `"@ + id + "` not found"@
            &&& offered ==> (facts.cwd matches Err(e) ==> r is Err && r->Err_0.kind == e.kind
                && r->Err_0.message@ == e.message@)
            &&& offered && facts.cwd is Ok ==> (facts.file_base_instructions matches Err(e)
                ==> r is Err && r->Err_0.kind == e.kind && r->Err_0.message@ == e.message@)
            &&& offered && facts.cwd is Ok && facts.file_base_instructions is Ok ==> (
            facts.file_compact_prompt matches Err(e) ==> r is Err && r->Err_0.kind == e.kind
                && r->Err_0.message@ == e.message@)
        }),
{
    providers_are_refused_for_a_reason(cfg.model_providers@);
}

/// The provider that is used is the one that was named for this run, else by the profile,
/// else in what was written.
pub proof fn provider_is_named_in_turn(overrides: ConfigOverrides, cfg: ConfigToml)
    ensures
        ({
            let p = profile_of(cfg, overrides.config_profile);
            let id = provider_id_of(overrides, p, cfg);
            &&& overrides.model_provider is Some ==> id == overrides.model_provider->0@
            &&& overrides.model_provider is None && p.model_provider is Some ==> id
                == p.model_provider->0@
            &&& overrides.model_provider is None && p.model_provider is None
                && cfg.model_provider is Some ==> id == cfg.model_provider->0@
            &&& overrides.model_provider is None && p.model_provider is None
                && cfg.model_provider is None ==> id == "openai"@
        }),
{
}

/// An address that is blank counts as none; one that was written comes before one in the
/// environment.
pub proof fn written_address_comes_first(written: Option<String>, environment: Option<String>)
    ensures
        ({
            let r = first_of(not_blank(written), not_blank(environment));
            let says = |o: Option<String>| o is Some && trim_text(o->0@).len() > 0;
            &&& says(written) ==> r == written
            &&& !says(written) && says(environment) ==> r == environment
            &&& !says(written) && !says(environment) ==> r is None
        }),
{
}

/// What is looked for is what the settings name: for this run, else in the profile, else
/// in what was written.
pub proof fn settings_say_what_to_look_for(
    q: LoadQuestions,
    cfg: ConfigToml,
    overrides: ConfigOverrides,
    environment_url: Option<String>,
    cwd_is_absolute: bool,
    usual: AutoDriveSettings,
    using_chatgpt_auth: bool,
    limits: EffortLimits,
)
    requires
        asks(
            q,
            cfg,
            overrides,
            environment_url,
            cwd_is_absolute,
            usual,
            using_chatgpt_auth,
            limits,
        ),
    ensures
        ({
            let p = profile_of(cfg, overrides.config_profile);
            let says = |o: Option<String>| o is Some && trim_text(o->0@).len() > 0;
            &&& says(cfg.openai_base_url) ==> q.openai_base_url == cfg.openai_base_url
            &&& !says(cfg.openai_base_url) && says(environment_url) ==> q.openai_base_url
                == environment_url
            &&& !says(cfg.openai_base_url) && !says(environment_url) ==> q.openai_base_url is None
            &&& overrides.cwd is None ==> q.cwd is Current
            &&& overrides.cwd is Some && cwd_is_absolute ==> q.cwd == CwdChoice::Given(
                overrides.cwd->0,
            )
            &&& overrides.cwd is Some && !cwd_is_absolute ==> q.cwd == CwdChoice::BelowCurrent(
                overrides.cwd->0,
            )
            &&& overrides.model is Some ==> q.model@ == overrides.model->0@
            &&& overrides.model is None && p.model is Some ==> q.model@ == p.model->0@
            &&& overrides.model is None && p.model is None && cfg.model is Some ==> q.model@
                == cfg.model->0@
            &&& p.context_mode is Some ==> q.context_mode == p.context_mode
            &&& p.context_mode is None && cfg.context_mode is Some ==> q.context_mode
                == cfg.context_mode
            &&& p.context_mode is None && cfg.context_mode is None ==> q.context_mode == Some(
                ContextMode::Auto,
            )
            &&& p.experimental_instructions_file is Some ==> q.instructions_file
                == p.experimental_instructions_file
            &&& p.experimental_instructions_file is None ==> q.instructions_file
                == cfg.experimental_instructions_file
            &&& overrides.compact_prompt_override_file is Some ==> q.compact_prompt_file
                == overrides.compact_prompt_override_file
            &&& overrides.compact_prompt_override_file is None
                && p.compact_prompt_override_file is Some ==> q.compact_prompt_file
                == p.compact_prompt_override_file
            &&& overrides.compact_prompt_override_file is None
                && p.compact_prompt_override_file is None ==> q.compact_prompt_file
                == cfg.compact_prompt_file
        }),
{
}

/// How much each model of a configuration reasons was asked for before it was put
/// together.
pub proof fn models_in_use_were_asked_for(
    q: LoadQuestions,
    c: Config,
    cfg: ConfigToml,
    overrides: ConfigOverrides,
    code_home: String,
    facts: LoadFacts,
    environment_url: Option<String>,
    cwd_is_absolute: bool,
)
    requires
        is_config(c, cfg, overrides, code_home, facts),
        asks(
            q,
            cfg,
            overrides,
            environment_url,
            cwd_is_absolute,
            facts.defaults.auto_drive,
            facts.using_chatgpt_auth,
            facts.effort_limits,
        ),
    ensures
        q.model@ == c.model@,
        texts(q.models@).contains(c.model@),
        texts(q.models@).contains(c.planning_model@),
        texts(q.models@).contains(c.review_model@),
        texts(q.models@).contains(c.review_resolve_model@),
        texts(q.models@).contains(c.auto_review_model@),
        texts(q.models@).contains(c.auto_review_resolve_model@),
        texts(q.models@).contains(c.auto_drive.model@),
{
    let m = texts(q.models@);
    assert(m.len() == 7);
    assert(m[0] == c.model@ && m[1] == c.planning_model@ && m[2] == c.review_model@);
    assert(m[3] == c.review_resolve_model@ && m[4] == c.auto_review_model@);
    assert(m[5] == c.auto_review_resolve_model@);
    assert(c.auto_drive.view().model == c.auto_drive.model@);
    assert(m[6] == c.auto_drive.model@);
}

/// A model reasons as it is asked to where there is no rule for it.
pub proof fn efforts_without_a_rule_stay(
    rules: Seq<EffortRule>,
    model: Seq<char>,
    asked: ReasoningEffort,
)
    requires
        forall|i: int|
            0 <= i < rules.len() ==> (#[trigger] rules[i]).model@ != model || rules[i].asked
                != asked,
    ensures
        granted(rules, model, asked) == asked,
    decreases rules.len(),
{
    if rules.len() > 0 {
        let rest = rules.drop_first();
        assert forall|i: int| 0 <= i < rest.len() implies (#[trigger] rest[i]).model@ != model
            || rest[i].asked != asked by {
            assert(rest[i] == rules[i + 1]);
        }
        efforts_without_a_rule_stay(rest, model, asked);
        assert(rules[0].model@ != model || rules[0].asked != asked);
    }
}

/// Of several rules for a model the first one counts.
pub proof fn efforts_go_by_the_first_rule(
    rules: Seq<EffortRule>,
    model: Seq<char>,
    asked: ReasoningEffort,
    i: int,
)
    requires
        0 <= i < rules.len(),
        rules[i].model@ == model,
        rules[i].asked == asked,
        forall|j: int|
            0 <= j < i ==> (#[trigger] rules[j]).model@ != model || rules[j].asked != asked,
    ensures
        granted(rules, model, asked) == rules[i].granted,
    decreases rules.len(),
{
    if i > 0 {
        let rest = rules.drop_first();
        assert forall|j: int| 0 <= j < i - 1 implies (#[trigger] rest[j]).model@ != model
            || rest[j].asked != asked by {
            assert(rest[j] == rules[j + 1]);
        }
        assert(rest[i - 1] == rules[i]);
        efforts_go_by_the_first_rule(rest, model, asked, i - 1);
        assert(rules[0].model@ != model || rules[0].asked != asked);
    }
}

/// How this program works on its own is as was written for it, else as was written of old
/// for the screen, else as is usual. One who is signed in with an account gets another
/// model, and one that reasons most, where nothing was written.
pub proof fn own_work_goes_by_what_was_written(
    c: Config,
    cfg: ConfigToml,
    overrides: ConfigOverrides,
    code_home: String,
    facts: LoadFacts,
)
    requires
        is_config(c, cfg, overrides, code_home, facts),
        !c.auto_drive_use_chat_model,
    ensures
        ({
            let of_old = cfg.tui is Some && cfg.tui->0.auto_drive is Some;
            let usual = facts.defaults.auto_drive;
            let limits = facts.effort_limits;
            let drive = c.auto_drive;
            &&& cfg.auto_drive is Some ==> {
                let w = cfg.auto_drive->0;
                &&& drive.model@ == w.model@
                &&& drive.model_reasoning_effort == limits.spec_clamp(
                    w.model@,
                    w.model_reasoning_effort,
                )
                &&& drive.model_routing_enabled == w.model_routing_enabled
                &&& drive.other.view() == w.other.view()
            }
            &&& cfg.auto_drive is None && of_old ==> {
                let w = cfg.tui->0.auto_drive->0;
                &&& drive.model@ == w.model@
                &&& drive.model_reasoning_effort == limits.spec_clamp(
                    w.model@,
                    w.model_reasoning_effort,
                )
                &&& drive.model_routing_enabled == w.model_routing_enabled
                &&& drive.other.view() == w.other.view()
            }
            &&& cfg.auto_drive is None && !of_old ==> {
                &&& drive.model_routing_enabled == usual.model_routing_enabled
                &&& drive.other.view() == usual.other.view()
                &&& facts.using_chatgpt_auth ==> drive.model@ == "gpt-5.5"@
                    && drive.model_reasoning_effort == limits.spec_clamp(
                    "gpt-5.5"@,
                    ReasoningEffort::XHigh,
                )
                &&& !facts.using_chatgpt_auth ==> drive.model@ == usual.model@
                    && drive.model_reasoning_effort == limits.spec_clamp(
                    usual.model@,
                    usual.model_reasoning_effort,
                )
            }
        }),
{
    let v = c.auto_drive.view();
    assert(v.model == c.auto_drive.model@);
    assert(v.model_reasoning_effort == c.auto_drive.model_reasoning_effort);
    assert(v.model_routing_enabled == c.auto_drive.model_routing_enabled);
    assert(v.other == c.auto_drive.other.view());
}

/// The levels of an entry are those that were written and are known, each once, from
/// less to more.
pub proof fn levels_are_put_in_order(levels: Seq<ReasoningEffort>)
    ensures
        forall|l: ReasoningEffort| #[trigger]
            ordered_levels(levels).contains(l) <==> levels.contains(l) && l
                != ReasoningEffort::NoReasoning,
        forall|i: int, j: int|
            0 <= i < j < ordered_levels(levels).len() ==> level_rank(
                #[trigger] ordered_levels(levels)[i],
            ) < level_rank(#[trigger] ordered_levels(levels)[j]),
{
    let f = |l: ReasoningEffort| levels.contains(l);
    let all = all_levels();
    let places = filter_places(all, f);
    let kept = ordered_levels(levels);
    assert(kept == all.filter(f));
    assert forall|l: ReasoningEffort| #[trigger] kept.contains(l) <==> levels.contains(l) && l
        != ReasoningEffort::NoReasoning by {
        if kept.contains(l) {
            let k = choose|k: int| 0 <= k < kept.len() && kept[k] == l;
            assert(all[places[k]] == l);
        }
        if levels.contains(l) && l != ReasoningEffort::NoReasoning {
            let i = level_rank(l) - 1;
            assert(all[i] == l);
            let k = choose|k: int| 0 <= k < places.len() && #[trigger] places[k] == i;
            assert(kept[k] == l);
        }
    }
    assert forall|i: int, j: int| 0 <= i < j < kept.len() implies level_rank(#[trigger] kept[i])
        < level_rank(#[trigger] kept[j]) by {
        assert(places[i] < places[j]);
        assert(all[places[i]] == kept[i] && all[places[j]] == kept[j]);
    }
}

/// From less to more.
pub open spec fn level_rank(l: ReasoningEffort) -> int {
    match l {
        ReasoningEffort::NoReasoning => 0,
        ReasoningEffort::Minimal => 1,
        ReasoningEffort::Low => 2,
        ReasoningEffort::Medium => 3,
        ReasoningEffort::High => 4,
        ReasoningEffort::XHigh => 5,
    }
}

/// An entry that names a model of the right kind and a level is kept, in form: the name
/// in lower case and without white space around it, the description without it too.
pub proof fn usable_entries_are_kept(entries: Seq<EntryView>, i: int)
    requires
        0 <= i < entries.len(),
        starts(ascii_lower_text(trim_text(entries[i].model)), "gpt-"@),
        exists|k: int|
            0 <= k < entries[i].levels.len() && #[trigger] entries[i].levels[k]
                != ReasoningEffort::NoReasoning,
    ensures
        exists|j: int|
            0 <= j < routed(entries).len() && {
                let e = #[trigger] routed(entries)[j];
                &&& e.model == ascii_lower_text(trim_text(entries[i].model))
                &&& e.enabled == entries[i].enabled
                &&& e.levels == ordered_levels(entries[i].levels)
                &&& e.description == trim_text(entries[i].description)
            },
    decreases entries.len(),
{
    let levels = entries[i].levels;
    levels_are_put_in_order(levels);
    let k = choose|k: int|
        0 <= k < levels.len() && #[trigger] levels[k] != ReasoningEffort::NoReasoning;
    assert(levels.contains(levels[k]));
    assert(ordered_levels(levels).contains(levels[k]));
    reveal_strlit("gpt-");
    if i == entries.len() - 1 {
        let j = routed(entries).len() - 1;
        assert(routed_entry(entries.last()) is Some);
        assert(routed(entries)[j] == routed_entry(entries.last())->0);
    } else {
        let rest = entries.drop_last();
        usable_entries_are_kept(rest, i);
        let j = choose|j: int|
            0 <= j < routed(rest).len() && {
                let e = #[trigger] routed(rest)[j];
                &&& e.model == ascii_lower_text(trim_text(rest[i].model))
                &&& e.enabled == rest[i].enabled
                &&& e.levels == ordered_levels(rest[i].levels)
                &&& e.description == trim_text(rest[i].description)
            };
        assert(routed(entries)[j] == routed(rest)[j]);
    }
}

/// Each entry that is kept was written, and the kept ones stand in the order in which
/// they were written.
pub proof fn kept_entries_were_written(entries: Seq<EntryView>) -> (places: Seq<int>)
    ensures
        places.len() == routed(entries).len(),
        forall|k: int, l: int|
            0 <= k < l < places.len() ==> #[trigger] places[k] < #[trigger] places[l],
        forall|k: int|
            0 <= k < places.len() ==> {
                let e = entries[#[trigger] places[k]];
                &&& 0 <= places[k] < entries.len()
                &&& starts(ascii_lower_text(trim_text(e.model)), "gpt-"@)
                &&& routed(entries)[k].model == ascii_lower_text(trim_text(e.model))
                &&& routed(entries)[k].enabled == e.enabled
                &&& routed(entries)[k].description == trim_text(e.description)
                &&& routed(entries)[k].levels.len() > 0
            },
    decreases entries.len(),
{
    if entries.len() == 0 {
        Seq::empty()
    } else {
        let rest = entries.drop_last();
        let before = kept_entries_were_written(rest);
        let places = if routed_entry(entries.last()) is Some {
            before.push(entries.len() - 1)
        } else {
            before
        };
        assert forall|k: int| 0 <= k < places.len() implies {
            let e = entries[#[trigger] places[k]];
            &&& 0 <= places[k] < entries.len()
            &&& starts(ascii_lower_text(trim_text(e.model)), "gpt-"@)
            &&& routed(entries)[k].model == ascii_lower_text(trim_text(e.model))
            &&& routed(entries)[k].enabled == e.enabled
            &&& routed(entries)[k].description == trim_text(e.description)
            &&& routed(entries)[k].levels.len() > 0
        } by {
            if k < before.len() {
                assert(places[k] == before[k]);
                assert(rest[before[k]] == entries[before[k]]);
                assert(routed(entries)[k] == routed(rest)[k]);
            }
        }
        places
    }
}

/// Of the entries that were written, those that are kept are in use; the usual ones are,
/// where none is kept. Only where routing is on and no entry would be in use is the first
/// one put in use.
pub proof fn entries_in_use_were_written(
    chosen: AutoDriveView,
    usual: Seq<EntryView>,
    use_chat_model: bool,
    chat_model: Seq<char>,
    chat_effort: ReasoningEffort,
    limits: EffortLimits,
    i: int,
)
    requires
        0 <= i,
    ensures
        ({
            let kept = routed(chosen.model_routing_entries);
            let base = if kept.len() > 0 {
                kept
            } else {
                usual
            };
            let r = settled(chosen, usual, use_chat_model, chat_model, chat_effort, limits);
            let on = r.model_routing_entries;
            &&& r.model_routing_enabled == chosen.model_routing_enabled
            &&& on.len() == base.len()
            &&& i < on.len() ==> {
                &&& on[i].model == base[i].model
                &&& on[i].levels == base[i].levels
                &&& on[i].description == base[i].description
                &&& base[i].enabled ==> on[i].enabled
                &&& on[i].enabled && !base[i].enabled ==> {
                    &&& i == 0
                    &&& chosen.model_routing_enabled
                    &&& forall|k: int| 0 <= k < base.len() ==> !(#[trigger] base[k]).enabled
                }
            }
            &&& use_chat_model ==> r.model == chat_model && r.model_reasoning_effort
                == limits.spec_clamp(chat_model, chat_effort)
            &&& !use_chat_model ==> r.model == chosen.model && r.model_reasoning_effort
                == limits.spec_clamp(chosen.model, chosen.model_reasoning_effort)
        }),
{
}

/// What is known of how this program works on its own is what the settings hold.
pub proof fn settings_say_what_they_hold(s: AutoDriveSettings, i: int)
    ensures
        s.view().model == s.model@,
        s.view().model_reasoning_effort == s.model_reasoning_effort,
        s.view().model_routing_enabled == s.model_routing_enabled,
        s.view().other == s.other.view(),
        s.view().model_routing_entries.len() == s.model_routing_entries@.len(),
        0 <= i < s.model_routing_entries@.len() ==> {
            let v = s.view().model_routing_entries[i];
            let e = s.model_routing_entries@[i];
            &&& v.model == e.model@
            &&& v.enabled == e.enabled
            &&& v.levels == e.reasoning_levels@
            &&& v.description == e.description@
        },
{
    let views = s.view().model_routing_entries;
    if 0 <= i < s.model_routing_entries@.len() {
        assert(views[i] == s.model_routing_entries@[i].view());
    }
}

/// A file that is looked for beside the usual one is one that was named, without white
/// space around it, in the order in which they were named.
pub proof fn fallback_files_were_named(names: Seq<Seq<char>>) -> (places: Seq<int>)
    ensures
        places.len() == named_files(names).len(),
        forall|k: int, l: int|
            0 <= k < l < places.len() ==> #[trigger] places[k] < #[trigger] places[l],
        forall|k: int|
            0 <= k < places.len() ==> 0 <= #[trigger] places[k] < names.len() && named_files(
                names,
            )[k] == trim_text(names[places[k]]) && trim_text(names[places[k]]).len() > 0,
        forall|i: int|
            0 <= i < names.len() && trim_text(#[trigger] names[i]).len() > 0 ==> exists|k: int|
                0 <= k < places.len() && #[trigger] places[k] == i,
    decreases names.len(),
{
    if names.len() == 0 {
        Seq::empty()
    } else {
        let rest = names.drop_last();
        let before = fallback_files_were_named(rest);
        let places = if trim_text(names.last()).len() > 0 {
            before.push(names.len() - 1)
        } else {
            before
        };
        assert forall|k: int| 0 <= k < places.len() implies 0 <= #[trigger] places[k] < names.len()
            && named_files(names)[k] == trim_text(names[places[k]]) && trim_text(
            names[places[k]],
        ).len() > 0 by {
            if k < before.len() {
                assert(places[k] == before[k]);
                assert(rest[before[k]] == names[before[k]]);
            }
        }
        assert forall|i: int|
            0 <= i < names.len() && trim_text(#[trigger] names[i]).len() > 0 implies exists|k: int|
            0 <= k < places.len() && #[trigger] places[k] == i by {
            if i < rest.len() {
                assert(rest[i] == names[i]);
                let k = choose|k: int| 0 <= k < before.len() && #[trigger] before[k] == i;
                assert(places[k] == i);
            } else {
                assert(places[before.len() as int] == i);
            }
        }
        places
    }
}

/// A text stands for a boolean where it is the word for it, letter case and white space
/// aside.
pub proof fn words_for_booleans(text: Seq<char>)
    ensures
        bool_of(text) == Some(true) <==> ascii_lower_text(trim_text(text)) == "true"@,
        bool_of(text) == Some(false) <==> ascii_lower_text(trim_text(text)) == "false"@,
{
    reveal_strlit("true");
    reveal_strlit("false");
    assert("true"@.len() != "false"@.len());
}

/// Of the ways of asking, just those are listed that are allowed.
pub proof fn allowed_policies_are_listed(limits: ApprovalLimits, p: AskForApproval)
    ensures
        all_policies().filter(|q: AskForApproval| limits.allows(q)).contains(p) <==> match p {
            AskForApproval::UnlessTrusted => limits.unless_trusted,
            AskForApproval::OnFailure => limits.on_failure,
            AskForApproval::OnRequest => limits.on_request,
            AskForApproval::Never => limits.never,
        },
{
    let f = |q: AskForApproval| limits.allows(q);
    let all = all_policies();
    let places = filter_places(all, f);
    assert(all[0] == AskForApproval::UnlessTrusted && all[1] == AskForApproval::OnFailure && all[2]
        == AskForApproval::OnRequest && all[3] == AskForApproval::Never);
    let i: int = match p {
        AskForApproval::UnlessTrusted => 0,
        AskForApproval::OnFailure => 1,
        AskForApproval::OnRequest => 2,
        AskForApproval::Never => 3,
    };
    assert(all[i] == p);
    if f(p) {
        let k = choose|k: int| 0 <= k < places.len() && #[trigger] places[k] == i;
        assert(all.filter(f)[k] == p);
    }
    if all.filter(f).contains(p) {
        let k = choose|k: int| 0 <= k < all.filter(f).len() && all.filter(f)[k] == p;
        assert(all[places[k]] == p);
    }
}

/// What a command may do is what the mode says: this run's, else the one that was written,
/// else it may only read.
pub proof fn derived_policy_goes_by_the_mode(
    asked: Option<SandboxMode>,
    written: Option<SandboxMode>,
    workspace: Option<SandboxWorkspaceWrite>,
    usual: PolicyView,
    mode: SandboxMode,
)
    requires
        asked == Some(mode) || (asked is None && written == Some(mode)) || (asked is None
            && written is None && mode == SandboxMode::ReadOnly),
    ensures
        ({
            let r = sandbox_of(
                value_or(first_of(asked, written), SandboxMode::ReadOnly),
                workspace,
                usual,
            );
            &&& mode == SandboxMode::ReadOnly ==> r is ReadOnly
            &&& mode == SandboxMode::DangerFullAccess ==> r is DangerFullAccess
            &&& mode == SandboxMode::WorkspaceWrite && workspace is None ==> r == usual
            &&& mode == SandboxMode::WorkspaceWrite && workspace is Some ==> {
                let w = workspace->0;
                &&& r is WorkspaceWrite
                &&& r->writable_roots == texts(w.writable_roots@)
                &&& r->network_access == w.network_access
                &&& r->exclude_tmpdir_env_var == w.exclude_tmpdir_env_var
                &&& r->exclude_slash_tmp == w.exclude_slash_tmp
                &&& r->allow_git_writes == w.allow_git_writes
            }
        }),
{
}

} // verus!
