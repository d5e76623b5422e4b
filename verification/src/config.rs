//! The configuration: what was set for this run, what a profile sets, what was
//! written for the project, what was written for all, and what is usual, put
//! together.

use crate::config_parts::{
    approved_commands, approved_for, approved_view, are_told, check_patterns, clone_opt,
    effective_openai_base_url, effective_service_tier, fallback_filenames, first, first_of,
    is_error, merge_model_providers, merged, named_files, no_profile, no_provider, not_blank,
    pattern_problem, profile_exists, profile_key, profile_of, provider_named, provider_view,
    providers_problem, regex_problems, sandbox_of, sandbox_policy, subagent_depth, text_or,
    text_or_else, tier_of, validate_model_providers, value_or, DEFAULT_SUBAGENT_MAX_DEPTH,
    DEPTH_MESSAGE,
};
use crate::config_roles::{
    choose_roles, role_models, roles_of, ModelRoles, RolesView, GPT_5_CODEX_MEDIUM_MODEL,
};
use crate::config_routing::{
    entry_views, settle_auto_drive, settled, AutoDriveModelRoutingEntry, AutoDriveSettings,
    AutoDriveView, EffortLimits,
};
use crate::config_types::{
    AgentConfig, ApprovedCommandPattern, ConfigError, ConfigErrorKind, ConfigOverrides,
    ConfigProfile, ConfigToml, ConfirmGuardConfig, ConfirmGuardPattern, ContextMode,
    ModelProviderInfo, Notifications, OtelConfig, OtelConfigToml, OtelExporterKind, ProjectConfig,
    SandboxMode, ServiceTier, TextVerbosity, ToolsToml, Tui, UriBasedFileOpener,
};
use crate::hooks::{ProjectCommand, ProjectHook};
use crate::json::JsonValue;
use crate::memory_store::{is_path, JoinedPath, MemoriesConfig};
use crate::omap::OrderedMap;
use crate::protocol::{
    AskForApproval, ModelFamily, ReasoningEffort, ReasoningSummary, SandboxPolicy,
};
use crate::remote_models::Personality;
use crate::text::{clone_strings, opt_text, opt_texts, texts};
use crate::tool_list::DynamicToolSpec;
use vstd::prelude::*;

verus! {

/// How much of a project's notes is shown to a model, in bytes.
pub const PROJECT_DOC_MAX_BYTES: usize = 32768;

/// The file in which the settings are written.
pub const CONFIG_TOML_FILE: &'static str = "config.toml";

/// Where requests go that are made with an account.
pub const CHATGPT_BASE_URL: &'static str = "https://chatgpt.com/backend-api/";

/// How often this program is looked after while it works on its own.
pub const OBSERVER_CADENCE: u32 = 5;

/// The directory that the logs are in.
pub const DEBUG_LOGS: &'static str = "debug_logs";

/// What is usual.
#[derive(Debug, PartialEq)]
pub struct ConfigDefaults {
    pub approval_policy: AskForApproval,
    /// What a command may do in a workspace that it may write to.
    pub workspace_write: SandboxPolicy,
    pub model_reasoning_summary: ReasoningSummary,
    pub model_text_verbosity: TextVerbosity,
    pub responses_originator_header: String,
    pub confirm_patterns: Vec<ConfirmGuardPattern>,
    pub auto_drive: AutoDriveSettings,
    pub model_routing_entries: Vec<AutoDriveModelRoutingEntry>,
    pub otel_environment: String,
    pub memories: MemoriesConfig,
    pub history: JsonValue,
    pub notices: JsonValue,
    pub tui: Tui,
    pub github: JsonValue,
    pub validation: JsonValue,
    pub retention: JsonValue,
}

/// What was found out, where the settings say what to look for.
#[derive(Debug, PartialEq)]
pub struct LoadFacts {
    pub defaults: ConfigDefaults,
    /// What the user's notes say.
    pub user_instructions: Option<String>,
    /// The providers that are always there.
    pub built_in_providers: OrderedMap<ModelProviderInfo>,
    /// The directory that this program works in.
    pub cwd: Result<String, ConfigError>,
    /// The hooks and the commands that were written for the project.
    pub project_hooks: Vec<ProjectHook>,
    pub project_commands: Vec<ProjectCommand>,
    /// What is known of the model that the user talks to.
    pub model_family: ModelFamily,
    /// How much of a tool's output such a model is shown.
    pub family_tool_output_max_bytes: usize,
    /// How much the model is shown in the context mode, and when that is cut.
    pub context_window: Option<u64>,
    pub auto_compact_token_limit: Option<i64>,
    /// How much each model reasons.
    pub effort_limits: EffortLimits,
    /// What is in the file with the instructions, and in that with the prompt for
    /// summing up, where there is one.
    pub file_base_instructions: Result<Option<String>, ConfigError>,
    pub file_compact_prompt: Result<Option<String>, ConfigError>,
    /// The user's agents among the usual ones.
    pub agents: Vec<AgentConfig>,
    pub using_chatgpt_auth: bool,
    pub env_ctx_v2: bool,
    pub is_windows: bool,
}

/// The configuration.
#[derive(Debug, PartialEq)]
pub struct Config {
    pub model: String,
    pub model_explicit: bool,
    pub planning_model: String,
    pub planning_model_reasoning_effort: ReasoningEffort,
    pub planning_use_chat_model: bool,
    pub review_model: String,
    pub review_model_reasoning_effort: ReasoningEffort,
    pub review_use_chat_model: bool,
    pub review_resolve_model: String,
    pub review_resolve_model_reasoning_effort: ReasoningEffort,
    pub review_resolve_use_chat_model: bool,
    pub auto_review_model: String,
    pub auto_review_model_reasoning_effort: ReasoningEffort,
    pub auto_review_use_chat_model: bool,
    pub auto_review_resolve_model: String,
    pub auto_review_resolve_model_reasoning_effort: ReasoningEffort,
    pub auto_review_resolve_use_chat_model: bool,
    pub model_family: ModelFamily,
    pub model_context_window: Option<u64>,
    pub model_max_output_tokens: Option<u64>,
    pub model_auto_compact_token_limit: Option<i64>,
    pub context_mode: Option<ContextMode>,
    pub model_provider_id: String,
    pub model_provider: ModelProviderInfo,
    pub active_profile: Option<String>,
    pub approval_policy: AskForApproval,
    pub sandbox_policy: SandboxPolicy,
    pub always_allow_commands: Vec<ApprovedCommandPattern>,
    pub project_hooks: Vec<ProjectHook>,
    pub project_commands: Vec<ProjectCommand>,
    pub shell_environment_policy: JsonValue,
    pub confirm_guard: ConfirmGuardConfig,
    pub hide_agent_reasoning: bool,
    pub show_raw_agent_reasoning: bool,
    pub disable_response_storage: bool,
    pub otel: OtelConfig,
    pub auto_upgrade_enabled: bool,
    pub user_instructions: Option<String>,
    pub demo_developer_message: Option<String>,
    pub base_instructions: Option<String>,
    pub model_personality: Option<Personality>,
    pub compact_prompt_override: Option<String>,
    pub notify: Option<Vec<String>>,
    pub notices: JsonValue,
    pub tui_notifications: Notifications,
    pub auto_drive_observer_cadence: u32,
    pub cwd: String,
    pub mcp_servers: OrderedMap<JsonValue>,
    pub experimental_client_tools: Option<JsonValue>,
    pub dynamic_tools: Vec<DynamicToolSpec>,
    pub agents: Vec<AgentConfig>,
    pub model_providers: OrderedMap<ModelProviderInfo>,
    pub project_doc_max_bytes: usize,
    pub tool_output_max_bytes: usize,
    pub project_doc_fallback_filenames: Vec<String>,
    pub code_home: String,
    pub history: JsonValue,
    pub file_opener: UriBasedFileOpener,
    pub tui: Tui,
    pub auto_drive: AutoDriveSettings,
    pub auto_drive_use_chat_model: bool,
    pub code_linux_sandbox_exe: Option<String>,
    pub model_reasoning_effort: ReasoningEffort,
    pub preferred_model_reasoning_effort: Option<ReasoningEffort>,
    pub model_reasoning_summary: ReasoningSummary,
    pub model_text_verbosity: TextVerbosity,
    pub service_tier: Option<ServiceTier>,
    pub chatgpt_base_url: String,
    pub include_plan_tool: bool,
    pub include_apply_patch_tool: bool,
    pub tools_web_search_request: bool,
    pub tools_web_search_external: bool,
    pub tools_web_search_indexed: bool,
    pub tools_search_tool: bool,
    pub tools_web_search_allowed_domains: Option<Vec<String>>,
    pub use_experimental_streamable_shell_tool: bool,
    pub include_view_image_tool: bool,
    pub skills_enabled: bool,
    pub memories_enabled: bool,
    pub memories: MemoriesConfig,
    pub env_ctx_v2: bool,
    pub retention: JsonValue,
    pub responses_originator_header: String,
    pub debug: bool,
    pub using_chatgpt_auth: bool,
    pub auto_switch_accounts_on_rate_limit: bool,
    pub api_key_fallback_on_all_accounts_limited: bool,
    pub github: JsonValue,
    pub validation: JsonValue,
    pub subagent_commands: Vec<JsonValue>,
    pub subagent_max_depth: i32,
    pub experimental_resume: Option<String>,
    pub max_run_seconds: Option<u64>,
    /// When the run ends, in nanoseconds by a clock that never goes back.
    pub max_run_deadline: Option<u128>,
    pub timeboxed_exec_mode: bool,
}

// ---------------------------------------------------------------------------
// What has to be looked for

/// Which directory this program works in.
#[derive(Debug, PartialEq, Eq)]
pub enum CwdChoice {
    /// The one that it was started in.
    Current,
    /// This one.
    Given(String),
    /// This one below the one that it was started in.
    BelowCurrent(String),
}

/// Which directory this program works in.
pub open spec fn cwd_of(cwd: Option<String>, is_absolute: bool) -> CwdChoice {
    match cwd {
        None => CwdChoice::Current,
        Some(path) => if is_absolute {
            CwdChoice::Given(path)
        } else {
            CwdChoice::BelowCurrent(path)
        },
    }
}

/// Which directory this program works in.
pub fn cwd_choice(cwd: Option<String>, is_absolute: bool) -> (r: CwdChoice)
    ensures
        r == cwd_of(cwd, is_absolute),
{
    match cwd {
        None => CwdChoice::Current,
        Some(path) => if is_absolute {
            CwdChoice::Given(path)
        } else {
            CwdChoice::BelowCurrent(path)
        },
    }
}

/// How this program works on its own, as it was written, else as is usual.
pub open spec fn written_auto_drive(
    cfg: ConfigToml,
    usual: AutoDriveSettings,
    using_chatgpt_auth: bool,
) -> AutoDriveView {
    if cfg.auto_drive is Some {
        cfg.auto_drive->0.view()
    } else if cfg.tui is Some && cfg.tui->0.auto_drive is Some {
        cfg.tui->0.auto_drive->0.view()
    } else if using_chatgpt_auth {
        AutoDriveView {
            model: GPT_5_CODEX_MEDIUM_MODEL@,
            model_reasoning_effort: ReasoningEffort::XHigh,
            ..usual.view()
        }
    } else {
        usual.view()
    }
}

fn choose_auto_drive(
    cfg: &ConfigToml,
    usual: &AutoDriveSettings,
    using_chatgpt_auth: bool,
) -> (r: AutoDriveSettings)
    ensures
        r.view() == written_auto_drive(*cfg, *usual, using_chatgpt_auth),
{
    if let Some(settings) = &cfg.auto_drive {
        return settings.clone();
    }
    if let Some(tui) = &cfg.tui {
        if let Some(settings) = &tui.auto_drive {
            return settings.clone();
        }
    }
    let mut settings: AutoDriveSettings = usual.clone();
    if using_chatgpt_auth {
        settings.model = GPT_5_CODEX_MEDIUM_MODEL.to_string();
        settings.model_reasoning_effort = ReasoningEffort::XHigh;
    }
    settings
}

/// What has to be looked for before the configuration can be put together.
#[derive(Debug, PartialEq, Eq)]
pub struct LoadQuestions {
    /// The address of the built-in provider.
    pub openai_base_url: Option<String>,
    pub cwd: CwdChoice,
    /// The model that the user talks to, and how much it is shown.
    pub model: String,
    pub context_mode: Option<ContextMode>,
    /// The files with the instructions and with the prompt for summing up.
    pub instructions_file: Option<String>,
    pub compact_prompt_file: Option<String>,
    /// The models of which it is asked how much they reason.
    pub models: Vec<String>,
}

/// How much the model is shown: as the profile says, else as was written, else as it
/// can.
pub open spec fn context_mode_of(profile: ConfigProfile, cfg: ConfigToml) -> Option<ContextMode> {
    first_of(first_of(profile.context_mode, cfg.context_mode), Some(ContextMode::Auto))
}

/// The file with the prompt for summing up.
pub open spec fn compact_file_of(
    overrides: ConfigOverrides,
    profile: ConfigProfile,
    cfg: ConfigToml,
) -> Option<String> {
    first_of(
        overrides.compact_prompt_override_file,
        first_of(profile.compact_prompt_override_file, cfg.compact_prompt_file),
    )
}

/// The model that works on its own.
pub open spec fn auto_drive_model(
    cfg: ConfigToml,
    usual: AutoDriveSettings,
    using_chatgpt_auth: bool,
    chat_model: Seq<char>,
) -> Seq<char> {
    if value_or(cfg.auto_drive_use_chat_model, false) {
        chat_model
    } else {
        written_auto_drive(cfg, usual, using_chatgpt_auth).model
    }
}

/// These are the questions.
pub open spec fn asks(
    q: LoadQuestions,
    cfg: ConfigToml,
    overrides: ConfigOverrides,
    environment_url: Option<String>,
    cwd_is_absolute: bool,
    usual: AutoDriveSettings,
    using_chatgpt_auth: bool,
    limits: EffortLimits,
) -> bool {
    let profile = profile_of(cfg, overrides.config_profile);
    let roles = roles_of(
        profile,
        cfg,
        overrides.model,
        overrides.review_model,
        using_chatgpt_auth,
        limits,
    );
    &&& q.openai_base_url == first_of(not_blank(cfg.openai_base_url), not_blank(environment_url))
    &&& q.cwd == cwd_of(overrides.cwd, cwd_is_absolute)
    &&& q.model@ == roles.chat.model
    &&& q.context_mode == context_mode_of(profile, cfg)
    &&& q.instructions_file == first_of(
        profile.experimental_instructions_file,
        cfg.experimental_instructions_file,
    )
    &&& q.compact_prompt_file == compact_file_of(overrides, profile, cfg)
    &&& texts(q.models@) == role_models(roles).push(
        auto_drive_model(cfg, usual, using_chatgpt_auth, roles.chat.model),
    )
}

/// What has to be looked for before the configuration can be put together. The
/// models do not depend on how much they reason, so the answer holds whatever the
/// limits.
pub fn load_questions(
    cfg: &ConfigToml,
    overrides: &ConfigOverrides,
    environment_url: Option<String>,
    cwd_is_absolute: bool,
    usual: &AutoDriveSettings,
    using_chatgpt_auth: bool,
) -> (r: Result<LoadQuestions, ConfigError>)
    ensures
        match r {
            Ok(q) => profile_exists(*cfg, overrides.config_profile) && forall|
                limits: EffortLimits,
            | #[trigger]
                asks(
                    q,
                    *cfg,
                    *overrides,
                    environment_url,
                    cwd_is_absolute,
                    *usual,
                    using_chatgpt_auth,
                    limits,
                ),
            Err(e) => !profile_exists(*cfg, overrides.config_profile) && is_error(
                e,
                ConfigErrorKind::NotFound,
                no_profile(profile_key(*cfg, overrides.config_profile)->0@),
            ),
        },
{
    let profile: ConfigProfile = match cfg.get_config_profile(
        clone_opt(&overrides.config_profile),
    ) {
        Ok(profile) => profile,
        Err(e) => {
            return Err(e);
        },
    };
    let none: EffortLimits = EffortLimits { rules: Vec::new() };
    let roles: ModelRoles = choose_roles(
        &profile,
        cfg,
        &overrides.model,
        &overrides.review_model,
        using_chatgpt_auth,
        &none,
    );
    let auto_drive: String = match cfg.auto_drive_use_chat_model {
        Some(true) => roles.chat.model.clone(),
        _ => choose_auto_drive(cfg, usual, using_chatgpt_auth).model,
    };
    let models: Vec<String> = vec![
        roles.chat.model.clone(),
        roles.planning.model,
        roles.review.model,
        roles.review_resolve.model,
        roles.auto_review.model,
        roles.auto_review_resolve.model,
        auto_drive,
    ];
    let q = LoadQuestions {
        openai_base_url: effective_openai_base_url(
            clone_opt(&cfg.openai_base_url),
            environment_url,
        ),
        cwd: cwd_choice(clone_opt(&overrides.cwd), cwd_is_absolute),
        model: roles.chat.model,
        context_mode: first(
            first(profile.context_mode, cfg.context_mode),
            Some(ContextMode::Auto),
        ),
        instructions_file: first(
            clone_opt(&profile.experimental_instructions_file),
            clone_opt(&cfg.experimental_instructions_file),
        ),
        compact_prompt_file: first(
            clone_opt(&overrides.compact_prompt_override_file),
            first(
                clone_opt(&profile.compact_prompt_override_file),
                clone_opt(&cfg.compact_prompt_file),
            ),
        ),
        models,
    };
    proof {
        let seen = roles_of(
            profile,
            *cfg,
            overrides.model,
            overrides.review_model,
            using_chatgpt_auth,
            none,
        );
        assert forall|limits: EffortLimits| #[trigger]
            asks(
                q,
                *cfg,
                *overrides,
                environment_url,
                cwd_is_absolute,
                *usual,
                using_chatgpt_auth,
                limits,
            ) by {
            let other = roles_of(
                profile,
                *cfg,
                overrides.model,
                overrides.review_model,
                using_chatgpt_auth,
                limits,
            );
            assert(role_models(other) =~= role_models(seen));
            assert(texts(q.models@) =~= role_models(other).push(
                auto_drive_model(*cfg, *usual, using_chatgpt_auth, other.chat.model),
            ));
        }
    }
    Ok(q)
}

// ---------------------------------------------------------------------------
// What the configuration says

/// The provider that is used: the one for this run, else the profile's, else the one
/// that was written, else the usual one.
pub open spec fn provider_id_of(
    overrides: ConfigOverrides,
    profile: ConfigProfile,
    cfg: ConfigToml,
) -> Seq<char> {
    text_or(
        first_of(overrides.model_provider, first_of(profile.model_provider, cfg.model_provider)),
        "openai"@,
    )
}

/// The patterns of the commands that are not run unless they are confirmed: the
/// usual ones, then those that were written.
pub open spec fn patterns_of(
    cfg: ConfigToml,
    defaults: ConfigDefaults,
) -> Seq<ConfirmGuardPattern> {
    match cfg.confirm_guard {
        Some(guard) => defaults.confirm_patterns@ + guard.patterns@,
        None => defaults.confirm_patterns@,
    }
}

/// Why there is no configuration, if there is none; what comes first counts.
pub open spec fn load_error(
    cfg: ConfigToml,
    overrides: ConfigOverrides,
    facts: LoadFacts,
    problems: Seq<Option<String>>,
) -> Option<(ConfigErrorKind, Seq<char>)> {
    let profile = profile_of(cfg, overrides.config_profile);
    let providers = merged(facts.built_in_providers@, cfg.model_providers@);
    let provider = provider_id_of(overrides, profile, cfg);
    let bad = pattern_problem(patterns_of(cfg, facts.defaults), problems);
    if !profile_exists(cfg, overrides.config_profile) {
        Some(
            (
                ConfigErrorKind::NotFound,
                no_profile(profile_key(cfg, overrides.config_profile)->0@),
            ),
        )
    } else if providers_problem(cfg.model_providers@) is Some {
        Some((ConfigErrorKind::Other, providers_problem(cfg.model_providers@)->0))
    } else if !providers.contains_key(provider) {
        Some((ConfigErrorKind::NotFound, no_provider(provider)))
    } else if facts.cwd is Err {
        Some((facts.cwd->Err_0.kind, facts.cwd->Err_0.message@))
    } else if facts.file_base_instructions is Err {
        let e = facts.file_base_instructions->Err_0;
        Some((e.kind, e.message@))
    } else if facts.file_compact_prompt is Err {
        let e = facts.file_compact_prompt->Err_0;
        Some((e.kind, e.message@))
    } else if bad is Some {
        Some((ConfigErrorKind::InvalidData, bad->0))
    } else if depth_of(cfg) < 1 {
        Some((ConfigErrorKind::InvalidInput, DEPTH_MESSAGE@))
    } else {
        None
    }
}

/// How deep agents may start agents.
pub open spec fn depth_of(cfg: ConfigToml) -> i32 {
    match cfg.subagents {
        Some(s) => value_or(s.max_depth, DEFAULT_SUBAGENT_MAX_DEPTH),
        None => DEFAULT_SUBAGENT_MAX_DEPTH,
    }
}

/// Which model does what, and what is known of it.
pub open spec fn says_models(c: Config, roles: RolesView) -> bool {
    &&& c.model@ == roles.chat.model
    &&& c.model_explicit == roles.chat.explicit
    &&& c.model_reasoning_effort == roles.chat.effort
    &&& c.preferred_model_reasoning_effort == roles.chat.preferred
    &&& c.planning_model@ == roles.planning.model
    &&& c.planning_model_reasoning_effort == roles.planning.effort
    &&& c.planning_use_chat_model == roles.planning.use_chat_model
    &&& c.review_model@ == roles.review.model
    &&& c.review_model_reasoning_effort == roles.review.effort
    &&& c.review_use_chat_model == roles.review.use_chat_model
    &&& c.review_resolve_model@ == roles.review_resolve.model
    &&& c.review_resolve_model_reasoning_effort == roles.review_resolve.effort
    &&& c.review_resolve_use_chat_model == roles.review_resolve.use_chat_model
    &&& c.auto_review_model@ == roles.auto_review.model
    &&& c.auto_review_model_reasoning_effort == roles.auto_review.effort
    &&& c.auto_review_use_chat_model == roles.auto_review.use_chat_model
    &&& c.auto_review_resolve_model@ == roles.auto_review_resolve.model
    &&& c.auto_review_resolve_model_reasoning_effort == roles.auto_review_resolve.effort
    &&& c.auto_review_resolve_use_chat_model == roles.auto_review_resolve.use_chat_model
}

/// How this program works on its own.
pub open spec fn says_auto_drive(
    c: Config,
    cfg: ConfigToml,
    facts: LoadFacts,
    roles: RolesView,
) -> bool {
    let use_chat_model = value_or(cfg.auto_drive_use_chat_model, false);
    &&& c.auto_drive_use_chat_model == use_chat_model
    &&& c.auto_drive.view() == settled(
        written_auto_drive(cfg, facts.defaults.auto_drive, facts.using_chatgpt_auth),
        entry_views(facts.defaults.model_routing_entries@),
        use_chat_model,
        roles.chat.model,
        roles.chat.effort,
        facts.effort_limits,
    )
    &&& c.auto_drive_observer_cadence == value_or(
        cfg.auto_drive_observer_cadence,
        OBSERVER_CADENCE,
    )
}

/// How the models are reached and what they are shown.
pub open spec fn says_access(
    c: Config,
    cfg: ConfigToml,
    overrides: ConfigOverrides,
    facts: LoadFacts,
    profile: ConfigProfile,
) -> bool {
    &&& c.model_family == facts.model_family
    &&& c.model_context_window == first_of(cfg.model_context_window, facts.context_window)
    &&& c.model_max_output_tokens == first_of(
        cfg.model_max_output_tokens,
        facts.model_family.max_output_tokens,
    )
    &&& c.model_auto_compact_token_limit == first_of(
        cfg.model_auto_compact_token_limit,
        facts.auto_compact_token_limit,
    )
    &&& c.context_mode == context_mode_of(profile, cfg)
    &&& c.model_providers@ == merged(facts.built_in_providers@, cfg.model_providers@)
    &&& c.model_provider_id@ == provider_id_of(overrides, profile, cfg)
    &&& provider_view(c.model_provider) == provider_view(c.model_providers@[c.model_provider_id@])
    &&& c.model_personality == first_of(profile.model_personality, cfg.model_personality)
    &&& c.model_reasoning_summary == value_or(
        first_of(profile.model_reasoning_summary, cfg.model_reasoning_summary),
        facts.defaults.model_reasoning_summary,
    )
    &&& c.model_text_verbosity == value_or(
        first_of(profile.model_text_verbosity, cfg.model_text_verbosity),
        facts.defaults.model_text_verbosity,
    )
    &&& c.service_tier == tier_of(first_of(profile.service_tier, cfg.service_tier))
    &&& c.chatgpt_base_url@ == text_or(
        first_of(profile.chatgpt_base_url, cfg.chatgpt_base_url),
        CHATGPT_BASE_URL@,
    )
    &&& c.responses_originator_header@ == text_or(
        cfg.responses_originator_header_internal_override,
        facts.defaults.responses_originator_header@,
    )
    &&& c.disable_response_storage == value_or(
        first_of(
            overrides.disable_response_storage,
            first_of(profile.disable_response_storage, cfg.disable_response_storage),
        ),
        true,
    )
    &&& c.using_chatgpt_auth == facts.using_chatgpt_auth
    &&& c.auto_switch_accounts_on_rate_limit == value_or(
        first_of(
            profile.auto_switch_accounts_on_rate_limit,
            cfg.auto_switch_accounts_on_rate_limit,
        ),
        true,
    )
    &&& c.api_key_fallback_on_all_accounts_limited == value_or(
        first_of(
            profile.api_key_fallback_on_all_accounts_limited,
            cfg.api_key_fallback_on_all_accounts_limited,
        ),
        false,
    )
}

/// What the models are told.
pub open spec fn says_prompts(
    c: Config,
    cfg: ConfigToml,
    overrides: ConfigOverrides,
    facts: LoadFacts,
    profile: ConfigProfile,
) -> bool {
    &&& c.user_instructions == facts.user_instructions
    &&& c.demo_developer_message is None
    &&& c.base_instructions == first_of(
        overrides.base_instructions,
        facts.file_base_instructions->Ok_0,
    )
    &&& c.compact_prompt_override == first_of(
        overrides.compact_prompt_override,
        first_of(
            profile.compact_prompt_override,
            first_of(cfg.compact_prompt_override, facts.file_compact_prompt->Ok_0),
        ),
    )
    &&& c.project_doc_max_bytes == value_or(cfg.project_doc_max_bytes, PROJECT_DOC_MAX_BYTES)
    &&& c.tool_output_max_bytes == value_or(
        cfg.tool_output_max_bytes,
        facts.family_tool_output_max_bytes,
    )
    &&& texts(c.project_doc_fallback_filenames@) == match cfg.project_doc_fallback_filenames {
        Some(names) => named_files(texts(names@)),
        None => Seq::empty(),
    }
    &&& c.env_ctx_v2 == facts.env_ctx_v2
}

/// What a command may do.
pub open spec fn says_limits(
    c: Config,
    cfg: ConfigToml,
    overrides: ConfigOverrides,
    facts: LoadFacts,
    profile: ConfigProfile,
) -> bool {
    let project = cfg.spec_project(c.cwd@);
    &&& c.cwd == facts.cwd->Ok_0
    &&& c.approval_policy == value_or(
        first_of(
            overrides.approval_policy,
            first_of(
                profile.approval_policy,
                first_of(project_approval(project), cfg.approval_policy),
            ),
        ),
        facts.defaults.approval_policy,
    )
    &&& c.sandbox_policy.view() == sandbox_of(
        value_or(
            first_of(
                overrides.sandbox_mode,
                first_of(project_sandbox(project), cfg.sandbox_mode),
            ),
            SandboxMode::ReadOnly,
        ),
        cfg.sandbox_workspace_write,
        facts.defaults.workspace_write.view(),
    )
    &&& c.always_allow_commands@.map_values(|p: ApprovedCommandPattern| approved_view(p))
        == approved_for(project)
    &&& c.project_hooks@ == if project is Some {
        facts.project_hooks@
    } else {
        Seq::empty()
    }
    &&& c.project_commands@ == if project is Some {
        facts.project_commands@
    } else {
        Seq::empty()
    }
    &&& c.confirm_guard.patterns@ == patterns_of(cfg, facts.defaults)
    &&& c.shell_environment_policy == cfg.shell_environment_policy
    &&& c.code_linux_sandbox_exe == overrides.code_linux_sandbox_exe
    &&& c.subagent_max_depth == depth_of(cfg)
    &&& c.subagent_commands@ == match cfg.subagents {
        Some(s) => s.commands@,
        None => Seq::empty(),
    }
}

/// The way of asking that was written for the project.
pub open spec fn project_approval(project: Option<ProjectConfig>) -> Option<AskForApproval> {
    match project {
        Some(p) => p.approval_policy,
        None => None,
    }
}

/// What a command may do, as it was written for the project.
pub open spec fn project_sandbox(project: Option<ProjectConfig>) -> Option<SandboxMode> {
    match project {
        Some(p) => p.sandbox_mode,
        None => None,
    }
}

/// A switch among the tools.
pub open spec fn tool_switch(tools: Option<ToolsToml>, f: spec_fn(ToolsToml) -> Option<bool>) -> Option<
    bool,
> {
    match tools {
        Some(t) => f(t),
        None => None,
    }
}

/// Which tools the models have.
pub open spec fn says_tools(
    c: Config,
    cfg: ConfigToml,
    overrides: ConfigOverrides,
    facts: LoadFacts,
) -> bool {
    &&& c.include_plan_tool == value_or(overrides.include_plan_tool, false)
    &&& c.include_apply_patch_tool == value_or(overrides.include_apply_patch_tool, facts.is_windows)
    &&& c.include_view_image_tool == value_or(
        first_of(
            overrides.include_view_image_tool,
            tool_switch(cfg.tools, |t: ToolsToml| t.view_image),
        ),
        true,
    )
    &&& c.tools_web_search_request == value_or(
        first_of(
            overrides.tools_web_search_request,
            tool_switch(cfg.tools, |t: ToolsToml| t.web_search),
        ),
        false,
    )
    &&& c.tools_web_search_external == value_or(
        tool_switch(cfg.tools, |t: ToolsToml| t.web_search_external),
        true,
    )
    &&& c.tools_web_search_indexed == value_or(
        tool_switch(cfg.tools, |t: ToolsToml| t.web_search_indexed),
        false,
    )
    &&& c.tools_search_tool == value_or(
        tool_switch(cfg.tools, |t: ToolsToml| t.search_tool),
        false,
    )
    &&& opt_texts(c.tools_web_search_allowed_domains) == match cfg.tools {
        Some(t) => opt_texts(t.web_search_allowed_domains),
        None => None,
    }
    &&& c.use_experimental_streamable_shell_tool == value_or(
        cfg.experimental_use_exec_command_tool,
        false,
    )
    &&& c.mcp_servers@ == value_or(overrides.mcp_servers, cfg.mcp_servers)@
    &&& c.experimental_client_tools == first_of(
        overrides.experimental_client_tools,
        cfg.experimental_client_tools,
    )
    &&& c.dynamic_tools@ == match first_of(overrides.dynamic_tools, cfg.dynamic_tools) {
        Some(tools) => tools@,
        None => Seq::empty(),
    }
    &&& c.agents == facts.agents
    &&& c.skills_enabled == match cfg.features {
        Some(f) => value_or(f.skills, true),
        None => true,
    }
    &&& c.memories_enabled == match cfg.features {
        Some(f) => value_or(f.memories, false),
        None => false,
    }
    &&& c.memories == value_or(cfg.memories, facts.defaults.memories)
}

/// What is told to the user, as values that can be compared.
pub enum NotificationsView {
    Enabled(bool),
    Custom(Seq<Seq<char>>),
}

impl Notifications {
    /// What is told.
    pub open spec fn view(&self) -> NotificationsView {
        match self {
            Notifications::Enabled(b) => NotificationsView::Enabled(*b),
            Notifications::Custom(v) => NotificationsView::Custom(texts(v@)),
        }
    }
}

/// What is shown, told and kept.
pub open spec fn says_rest(
    c: Config,
    cfg: ConfigToml,
    overrides: ConfigOverrides,
    facts: LoadFacts,
    code_home: String,
) -> bool {
    &&& opt_text(c.active_profile) == opt_text(profile_key(cfg, overrides.config_profile))
    &&& c.code_home == code_home
    &&& c.hide_agent_reasoning == value_or(cfg.hide_agent_reasoning, false)
    &&& c.show_raw_agent_reasoning == value_or(
        first_of(overrides.show_raw_agent_reasoning, cfg.show_raw_agent_reasoning),
        false,
    )
    &&& c.auto_upgrade_enabled == value_or(cfg.auto_upgrade_enabled, false)
    &&& c.notify == cfg.notify
    &&& c.notices == value_or(cfg.notice, facts.defaults.notices)
    &&& c.tui == value_or(cfg.tui, facts.defaults.tui)
    &&& c.tui_notifications.view() == match cfg.tui {
        Some(t) => t.notifications.view(),
        None => NotificationsView::Enabled(false),
    }
    &&& c.history == value_or(cfg.history, facts.defaults.history)
    &&& c.file_opener == value_or(cfg.file_opener, UriBasedFileOpener::VsCode)
    &&& c.github == value_or(cfg.github, facts.defaults.github)
    &&& c.validation == value_or(cfg.validation, facts.defaults.validation)
    &&& c.retention == facts.defaults.retention
    &&& c.debug == value_or(overrides.debug, false)
    &&& c.experimental_resume == cfg.experimental_resume
    &&& c.max_run_seconds is None
    &&& c.max_run_deadline is None
    &&& !c.timeboxed_exec_mode
    &&& is_otel(c.otel, cfg.otel, facts.defaults.otel_environment@)
}

/// Whether it is told what this program does, as was written, else as is usual.
pub open spec fn is_otel(
    o: OtelConfig,
    written: Option<OtelConfigToml>,
    environment: Seq<char>,
) -> bool {
    match written {
        Some(t) => {
            &&& o.log_user_prompt == value_or(t.log_user_prompt, false)
            &&& o.environment@ == text_or(t.environment, environment)
            &&& o.exporter == value_or(t.exporter, OtelExporterKind::Off)
        },
        None => {
            &&& !o.log_user_prompt
            &&& o.environment@ == environment
            &&& o.exporter is Off
        },
    }
}

/// The configuration that comes of what was set, written and found.
pub open spec fn is_config(
    c: Config,
    cfg: ConfigToml,
    overrides: ConfigOverrides,
    code_home: String,
    facts: LoadFacts,
) -> bool {
    let profile = profile_of(cfg, overrides.config_profile);
    let roles = roles_of(
        profile,
        cfg,
        overrides.model,
        overrides.review_model,
        facts.using_chatgpt_auth,
        facts.effort_limits,
    );
    &&& says_models(c, roles)
    &&& says_auto_drive(c, cfg, facts, roles)
    &&& says_access(c, cfg, overrides, facts, profile)
    &&& says_prompts(c, cfg, overrides, facts, profile)
    &&& says_limits(c, cfg, overrides, facts, profile)
    &&& says_tools(c, cfg, overrides, facts)
    &&& says_rest(c, cfg, overrides, facts, code_home)
}

/// What comes of what was set, written and found.
pub open spec fn is_loaded(
    r: Result<Config, ConfigError>,
    cfg: ConfigToml,
    overrides: ConfigOverrides,
    code_home: String,
    facts: LoadFacts,
    problems: Seq<Option<String>>,
) -> bool {
    match load_error(cfg, overrides, facts, problems) {
        Some((kind, message)) => r is Err && is_error(r->Err_0, kind, message),
        None => r is Ok && is_config(r->Ok_0, cfg, overrides, code_home, facts),
    }
}

// The parts of what the configuration says, each looked into only where it is proved.

#[verifier::opaque]
spec fn holds_models(
    c: Config,
    roles: RolesView,
) -> bool {
    says_models(c, roles)
}

#[verifier::opaque]
spec fn holds_auto_drive(
    c: Config,
    cfg: ConfigToml,
    facts: LoadFacts,
    roles: RolesView,
) -> bool {
    says_auto_drive(c, cfg, facts, roles)
}

#[verifier::opaque]
spec fn holds_access(
    c: Config,
    cfg: ConfigToml,
    overrides: ConfigOverrides,
    facts: LoadFacts,
    profile: ConfigProfile,
) -> bool {
    says_access(c, cfg, overrides, facts, profile)
}

#[verifier::opaque]
spec fn holds_prompts(
    c: Config,
    cfg: ConfigToml,
    overrides: ConfigOverrides,
    facts: LoadFacts,
    profile: ConfigProfile,
) -> bool {
    says_prompts(c, cfg, overrides, facts, profile)
}

#[verifier::opaque]
spec fn holds_limits(
    c: Config,
    cfg: ConfigToml,
    overrides: ConfigOverrides,
    facts: LoadFacts,
    profile: ConfigProfile,
) -> bool {
    says_limits(c, cfg, overrides, facts, profile)
}

#[verifier::opaque]
spec fn holds_tools(
    c: Config,
    cfg: ConfigToml,
    overrides: ConfigOverrides,
    facts: LoadFacts,
) -> bool {
    says_tools(c, cfg, overrides, facts)
}

#[verifier::opaque]
spec fn holds_rest(
    c: Config,
    cfg: ConfigToml,
    overrides: ConfigOverrides,
    facts: LoadFacts,
    code_home: String,
) -> bool {
    says_rest(c, cfg, overrides, facts, code_home)
}

spec fn holds_config(
    c: Config,
    cfg: ConfigToml,
    overrides: ConfigOverrides,
    code_home: String,
    facts: LoadFacts,
) -> bool {
    let profile = profile_of(cfg, overrides.config_profile);
    let roles = roles_of(
        profile,
        cfg,
        overrides.model,
        overrides.review_model,
        facts.using_chatgpt_auth,
        facts.effort_limits,
    );
    &&& holds_models(c, roles)
    &&& holds_auto_drive(c, cfg, facts, roles)
    &&& holds_access(c, cfg, overrides, facts, profile)
    &&& holds_prompts(c, cfg, overrides, facts, profile)
    &&& holds_limits(c, cfg, overrides, facts, profile)
    &&& holds_tools(c, cfg, overrides, facts)
    &&& holds_rest(c, cfg, overrides, facts, code_home)
}

fn or_usual<T>(o: Option<T>, usual: T) -> (r: T)
    ensures
        r == value_or(o, usual),
{
    match o {
        Some(v) => v,
        None => usual,
    }
}

fn or_none<T>(o: Option<Vec<T>>) -> (r: Vec<T>)
    ensures
        r@ == match o {
            Some(v) => v@,
            None => Seq::empty(),
        },
{
    match o {
        Some(v) => v,
        None => Vec::new(),
    }
}

fn clone_notifications(tui: &Option<Tui>) -> (r: Notifications)
    ensures
        r.view() == match *tui {
            Some(t) => t.notifications.view(),
            None => NotificationsView::Enabled(false),
        },
{
    match tui {
        Some(t) => match &t.notifications {
            Notifications::Enabled(b) => Notifications::Enabled(*b),
            Notifications::Custom(v) => Notifications::Custom(clone_strings(v)),
        },
        None => Notifications::Enabled(false),
    }
}

fn otel_config(written: Option<OtelConfigToml>, environment: String) -> (r: OtelConfig)
    ensures
        is_otel(r, written, environment@),
{
    match written {
        Some(t) => OtelConfig {
            log_user_prompt: or_usual(t.log_user_prompt, false),
            environment: or_usual(t.environment, environment),
            exporter: or_usual(t.exporter, OtelExporterKind::Off),
        },
        None => OtelConfig { log_user_prompt: false, environment, exporter: OtelExporterKind::Off },
    }
}

/// The patterns of the commands that are not run unless they are confirmed.
fn guard_patterns(
    usual: Vec<ConfirmGuardPattern>,
    written: Option<ConfirmGuardConfig>,
) -> (r: Vec<ConfirmGuardPattern>)
    ensures
        r@ == match written {
            Some(guard) => usual@ + guard.patterns@,
            None => usual@,
        },
{
    let mut patterns: Vec<ConfirmGuardPattern> = usual;
    if let Some(guard) = written {
        let mut more: Vec<ConfirmGuardPattern> = guard.patterns;
        patterns.append(&mut more);
    }
    patterns
}

/// The switches of the tools.
struct ToolSwitches {
    view_image: bool,
    web_search: bool,
    external: bool,
    indexed: bool,
    search_tool: bool,
    domains: Option<Vec<String>>,
}

fn tool_switches(
    tools: &Option<ToolsToml>,
    view_image: Option<bool>,
    web_search: Option<bool>,
) -> (r: ToolSwitches)
    ensures
        r.view_image == value_or(
            first_of(view_image, tool_switch(*tools, |t: ToolsToml| t.view_image)),
            true,
        ),
        r.web_search == value_or(
            first_of(web_search, tool_switch(*tools, |t: ToolsToml| t.web_search)),
            false,
        ),
        r.external == value_or(tool_switch(*tools, |t: ToolsToml| t.web_search_external), true),
        r.indexed == value_or(tool_switch(*tools, |t: ToolsToml| t.web_search_indexed), false),
        r.search_tool == value_or(tool_switch(*tools, |t: ToolsToml| t.search_tool), false),
        opt_texts(r.domains) == match *tools {
            Some(t) => opt_texts(t.web_search_allowed_domains),
            None => None,
        },
{
    match tools {
        Some(t) => ToolSwitches {
            view_image: or_usual(first(view_image, t.view_image), true),
            web_search: or_usual(first(web_search, t.web_search), false),
            external: or_usual(t.web_search_external, true),
            indexed: or_usual(t.web_search_indexed, false),
            search_tool: or_usual(t.search_tool, false),
            domains: match &t.web_search_allowed_domains {
                Some(domains) => Some(clone_strings(domains)),
                None => None,
            },
        },
        None => ToolSwitches {
            view_image: or_usual(view_image, true),
            web_search: or_usual(web_search, false),
            external: true,
            indexed: false,
            search_tool: false,
            domains: None,
        },
    }
}

/// What was written for the project.
struct ProjectPart {
    approval: Option<AskForApproval>,
    sandbox: Option<SandboxMode>,
    allowed: Vec<ApprovedCommandPattern>,
    exists: bool,
}

fn project_part(cfg: &ConfigToml, cwd: &str) -> (r: ProjectPart)
    ensures
        r.approval == project_approval(cfg.spec_project(cwd@)),
        r.sandbox == project_sandbox(cfg.spec_project(cwd@)),
        r.allowed@.map_values(|p: ApprovedCommandPattern| approved_view(p)) == approved_for(
            cfg.spec_project(cwd@),
        ),
        r.exists == cfg.spec_project(cwd@) is Some,
{
    let project: Option<&ProjectConfig> = cfg.project(cwd);
    let allowed: Vec<ApprovedCommandPattern> = approved_commands(project);
    match project {
        Some(p) => ProjectPart {
            approval: p.approval_policy,
            sandbox: p.sandbox_mode,
            allowed,
            exists: true,
        },
        None => ProjectPart { approval: None, sandbox: None, allowed, exists: false },
    }
}

impl Config {
    #[verifier::rlimit(60)]
    fn put_together(
        cfg: ConfigToml,
        overrides: ConfigOverrides,
        code_home: String,
        facts: LoadFacts,
        problems: &Vec<Option<String>>,
    ) -> (r: Result<Config, ConfigError>)
        requires
            problems@.len() == patterns_of(cfg, facts.defaults).len(),
        ensures
            match load_error(cfg, overrides, facts, problems@) {
                Some((kind, message)) => r is Err && is_error(r->Err_0, kind, message),
                None => r is Ok && holds_config(r->Ok_0, cfg, overrides, code_home, facts),
            },
    {
        let profile: ConfigProfile = match cfg.get_config_profile(
            clone_opt(&overrides.config_profile),
        ) {
            Ok(profile) => profile,
            Err(e) => {
                return Err(e);
            },
        };
        let active_profile: Option<String> = first(
            overrides.config_profile,
            clone_opt(&cfg.profile),
        );
        match validate_model_providers(&cfg.model_providers) {
            Ok(()) => {},
            Err(message) => {
                return Err(ConfigError { kind: ConfigErrorKind::Other, message });
            },
        }
        let provider_id: String = text_or_else(
            first(
                overrides.model_provider,
                first(clone_opt(&profile.model_provider), clone_opt(&cfg.model_provider)),
            ),
            "openai",
        );
        let roles: ModelRoles = choose_roles(
            &profile,
            &cfg,
            &overrides.model,
            &overrides.review_model,
            facts.using_chatgpt_auth,
            &facts.effort_limits,
        );
        let chosen_auto_drive: AutoDriveSettings = choose_auto_drive(
            &cfg,
            &facts.defaults.auto_drive,
            facts.using_chatgpt_auth,
        );
        let auto_drive_use_chat_model: bool = or_usual(cfg.auto_drive_use_chat_model, false);
        let auto_drive: AutoDriveSettings = settle_auto_drive(
            chosen_auto_drive,
            facts.defaults.model_routing_entries,
            auto_drive_use_chat_model,
            roles.chat.model.as_str(),
            roles.chat.effort,
            &facts.effort_limits,
        );
        let depth: Result<i32, ConfigError> = subagent_depth(
            match &cfg.subagents {
                Some(s) => s.max_depth,
                None => None,
            },
        );
        let switches: ToolSwitches = tool_switches(
            &cfg.tools,
            overrides.include_view_image_tool,
            overrides.tools_web_search_request,
        );
        let tui_notifications: Notifications = clone_notifications(&cfg.tui);
        let project: ProjectPart = match &facts.cwd {
            Ok(cwd) => project_part(&cfg, cwd.as_str()),
            Err(_) => ProjectPart {
                approval: None,
                sandbox: None,
                allowed: Vec::new(),
                exists: false,
            },
        };
        let sandbox: SandboxPolicy = sandbox_policy(
            or_usual(
                first(overrides.sandbox_mode, first(project.sandbox, cfg.sandbox_mode)),
                SandboxMode::ReadOnly,
            ),
            &cfg.sandbox_workspace_write,
            facts.defaults.workspace_write,
        );
        let model_providers: OrderedMap<ModelProviderInfo> = merge_model_providers(
            facts.built_in_providers,
            cfg.model_providers,
        );
        let model_provider: ModelProviderInfo = match provider_named(
            &model_providers,
            provider_id.as_str(),
        ) {
            Ok(provider) => provider,
            Err(e) => {
                return Err(e);
            },
        };
        let cwd: String = match facts.cwd {
            Ok(cwd) => cwd,
            Err(e) => {
                return Err(e);
            },
        };
        let file_base_instructions: Option<String> = match facts.file_base_instructions {
            Ok(text) => text,
            Err(e) => {
                return Err(e);
            },
        };
        let file_compact_prompt: Option<String> = match facts.file_compact_prompt {
            Ok(text) => text,
            Err(e) => {
                return Err(e);
            },
        };
        let patterns: Vec<ConfirmGuardPattern> = guard_patterns(
            facts.defaults.confirm_patterns,
            cfg.confirm_guard,
        );
        match check_patterns(&patterns, problems) {
            Ok(()) => {},
            Err(e) => {
                return Err(e);
            },
        }
        let subagent_max_depth: i32 = match depth {
            Ok(depth) => depth,
            Err(e) => {
                return Err(e);
            },
        };
        let fallback: Vec<String> = or_none(cfg.project_doc_fallback_filenames);
        let project_doc_fallback_filenames: Vec<String> = fallback_filenames(&fallback);
        proof {
            assert(texts(fallback@) =~= match cfg.project_doc_fallback_filenames {
                Some(names) => texts(names@),
                None => Seq::empty(),
            });
        }
        let max_output_tokens: Option<u64> = facts.model_family.max_output_tokens;
        let (skills, memories_feature): (Option<bool>, Option<bool>) = match cfg.features {
            Some(f) => (f.skills, f.memories),
            None => (None, None),
        };
        let config = Config {
            model: roles.chat.model,
            model_explicit: roles.chat.explicit,
            planning_model: roles.planning.model,
            planning_model_reasoning_effort: roles.planning.effort,
            planning_use_chat_model: roles.planning.use_chat_model,
            review_model: roles.review.model,
            review_model_reasoning_effort: roles.review.effort,
            review_use_chat_model: roles.review.use_chat_model,
            review_resolve_model: roles.review_resolve.model,
            review_resolve_model_reasoning_effort: roles.review_resolve.effort,
            review_resolve_use_chat_model: roles.review_resolve.use_chat_model,
            auto_review_model: roles.auto_review.model,
            auto_review_model_reasoning_effort: roles.auto_review.effort,
            auto_review_use_chat_model: roles.auto_review.use_chat_model,
            auto_review_resolve_model: roles.auto_review_resolve.model,
            auto_review_resolve_model_reasoning_effort: roles.auto_review_resolve.effort,
            auto_review_resolve_use_chat_model: roles.auto_review_resolve.use_chat_model,
            model_family: facts.model_family,
            model_context_window: first(cfg.model_context_window, facts.context_window),
            model_max_output_tokens: first(cfg.model_max_output_tokens, max_output_tokens),
            model_auto_compact_token_limit: first(
                cfg.model_auto_compact_token_limit,
                facts.auto_compact_token_limit,
            ),
            context_mode: first(
                first(profile.context_mode, cfg.context_mode),
                Some(ContextMode::Auto),
            ),
            model_provider_id: provider_id,
            model_provider,
            active_profile,
            approval_policy: or_usual(
                first(
                    overrides.approval_policy,
                    first(profile.approval_policy, first(project.approval, cfg.approval_policy)),
                ),
                facts.defaults.approval_policy,
            ),
            sandbox_policy: sandbox,
            always_allow_commands: project.allowed,
            project_hooks: if project.exists {
                facts.project_hooks
            } else {
                Vec::new()
            },
            project_commands: if project.exists {
                facts.project_commands
            } else {
                Vec::new()
            },
            shell_environment_policy: cfg.shell_environment_policy,
            confirm_guard: ConfirmGuardConfig { patterns },
            hide_agent_reasoning: or_usual(cfg.hide_agent_reasoning, false),
            show_raw_agent_reasoning: or_usual(
                first(overrides.show_raw_agent_reasoning, cfg.show_raw_agent_reasoning),
                false,
            ),
            disable_response_storage: or_usual(
                first(
                    overrides.disable_response_storage,
                    first(profile.disable_response_storage, cfg.disable_response_storage),
                ),
                true,
            ),
            otel: otel_config(cfg.otel, facts.defaults.otel_environment),
            auto_upgrade_enabled: or_usual(cfg.auto_upgrade_enabled, false),
            user_instructions: facts.user_instructions,
            demo_developer_message: None,
            base_instructions: first(overrides.base_instructions, file_base_instructions),
            model_personality: first(profile.model_personality, cfg.model_personality),
            compact_prompt_override: first(
                overrides.compact_prompt_override,
                first(
                    profile.compact_prompt_override,
                    first(cfg.compact_prompt_override, file_compact_prompt),
                ),
            ),
            notify: cfg.notify,
            notices: or_usual(cfg.notice, facts.defaults.notices),
            tui_notifications,
            auto_drive_observer_cadence: or_usual(
                cfg.auto_drive_observer_cadence,
                OBSERVER_CADENCE,
            ),
            cwd,
            mcp_servers: or_usual(overrides.mcp_servers, cfg.mcp_servers),
            experimental_client_tools: first(
                overrides.experimental_client_tools,
                cfg.experimental_client_tools,
            ),
            dynamic_tools: or_none(first(overrides.dynamic_tools, cfg.dynamic_tools)),
            agents: facts.agents,
            model_providers,
            project_doc_max_bytes: or_usual(cfg.project_doc_max_bytes, PROJECT_DOC_MAX_BYTES),
            tool_output_max_bytes: or_usual(
                cfg.tool_output_max_bytes,
                facts.family_tool_output_max_bytes,
            ),
            project_doc_fallback_filenames,
            code_home,
            history: or_usual(cfg.history, facts.defaults.history),
            file_opener: or_usual(cfg.file_opener, UriBasedFileOpener::VsCode),
            tui: or_usual(cfg.tui, facts.defaults.tui),
            auto_drive,
            auto_drive_use_chat_model,
            code_linux_sandbox_exe: overrides.code_linux_sandbox_exe,
            model_reasoning_effort: roles.chat.effort,
            preferred_model_reasoning_effort: roles.chat.preferred,
            model_reasoning_summary: or_usual(
                first(profile.model_reasoning_summary, cfg.model_reasoning_summary),
                facts.defaults.model_reasoning_summary,
            ),
            model_text_verbosity: or_usual(
                first(profile.model_text_verbosity, cfg.model_text_verbosity),
                facts.defaults.model_text_verbosity,
            ),
            service_tier: effective_service_tier(first(profile.service_tier, cfg.service_tier)),
            chatgpt_base_url: text_or_else(
                first(profile.chatgpt_base_url, cfg.chatgpt_base_url),
                CHATGPT_BASE_URL,
            ),
            include_plan_tool: or_usual(overrides.include_plan_tool, false),
            include_apply_patch_tool: or_usual(
                overrides.include_apply_patch_tool,
                facts.is_windows,
            ),
            tools_web_search_request: switches.web_search,
            tools_web_search_external: switches.external,
            tools_web_search_indexed: switches.indexed,
            tools_search_tool: switches.search_tool,
            tools_web_search_allowed_domains: switches.domains,
            use_experimental_streamable_shell_tool: or_usual(
                cfg.experimental_use_exec_command_tool,
                false,
            ),
            include_view_image_tool: switches.view_image,
            skills_enabled: or_usual(skills, true),
            memories_enabled: or_usual(memories_feature, false),
            memories: or_usual(cfg.memories, facts.defaults.memories),
            env_ctx_v2: facts.env_ctx_v2,
            retention: facts.defaults.retention,
            responses_originator_header: or_usual(
                cfg.responses_originator_header_internal_override,
                facts.defaults.responses_originator_header,
            ),
            debug: or_usual(overrides.debug, false),
            using_chatgpt_auth: facts.using_chatgpt_auth,
            auto_switch_accounts_on_rate_limit: or_usual(
                first(
                    profile.auto_switch_accounts_on_rate_limit,
                    cfg.auto_switch_accounts_on_rate_limit,
                ),
                true,
            ),
            api_key_fallback_on_all_accounts_limited: or_usual(
                first(
                    profile.api_key_fallback_on_all_accounts_limited,
                    cfg.api_key_fallback_on_all_accounts_limited,
                ),
                false,
            ),
            github: or_usual(cfg.github, facts.defaults.github),
            validation: or_usual(cfg.validation, facts.defaults.validation),
            subagent_commands: match cfg.subagents {
                Some(s) => s.commands,
                None => Vec::new(),
            },
            subagent_max_depth,
            experimental_resume: cfg.experimental_resume,
            max_run_seconds: None,
            max_run_deadline: None,
            timeboxed_exec_mode: false,
        };
        proof {
            let chosen = roles_of(
                profile,
                cfg,
                overrides.model,
                overrides.review_model,
                facts.using_chatgpt_auth,
                facts.effort_limits,
            );
            assert(holds_models(config, chosen)) by {
                reveal(holds_models);
            }
            assert(holds_auto_drive(config, cfg, facts, chosen)) by {
                reveal(holds_auto_drive);
            }
            assert(holds_access(config, cfg, overrides, facts, profile)) by {
                reveal(holds_access);
            }
            assert(holds_prompts(config, cfg, overrides, facts, profile)) by {
                reveal(holds_prompts);
            }
            assert(holds_limits(config, cfg, overrides, facts, profile)) by {
                reveal(holds_limits);
            }
            assert(holds_tools(config, cfg, overrides, facts)) by {
                reveal(holds_tools);
            }
            assert(holds_rest(config, cfg, overrides, facts, code_home)) by {
                reveal(holds_rest);
            }
        }
        Ok(config)
    }

    /// Puts the configuration together, given what is wrong with each of the patterns
    /// of the commands that are not run unless they are confirmed.
    pub fn load_with_pattern_problems(
        cfg: ConfigToml,
        overrides: ConfigOverrides,
        code_home: String,
        facts: LoadFacts,
        problems: &Vec<Option<String>>,
    ) -> (r: Result<Config, ConfigError>)
        requires
            problems@.len() == patterns_of(cfg, facts.defaults).len(),
        ensures
            is_loaded(r, cfg, overrides, code_home, facts, problems@),
    {
        proof {
            reveal(holds_models);
            reveal(holds_auto_drive);
            reveal(holds_access);
            reveal(holds_prompts);
            reveal(holds_limits);
            reveal(holds_tools);
            reveal(holds_rest);
        }
        Config::put_together(cfg, overrides, code_home, facts, problems)
    }

    /// Puts the configuration together.
    pub fn load_from_base_config_with_overrides(
        cfg: ConfigToml,
        overrides: ConfigOverrides,
        code_home: String,
        facts: LoadFacts,
    ) -> (r: Result<Config, ConfigError>)
        ensures
            exists|problems: Seq<Option<String>>|
                are_told(patterns_of(cfg, facts.defaults), problems) && #[trigger] is_loaded(
                    r,
                    cfg,
                    overrides,
                    code_home,
                    facts,
                    problems,
                ),
    {
        let mut problems: Vec<Option<String>> = regex_problems(&facts.defaults.confirm_patterns);
        if let Some(guard) = &cfg.confirm_guard {
            let mut more: Vec<Option<String>> = regex_problems(&guard.patterns);
            problems.append(&mut more);
        }
        assert(are_told(patterns_of(cfg, facts.defaults), problems@));
        Config::load_with_pattern_problems(cfg, overrides, code_home, facts, &problems)
    }
}

/// The directory that the logs are in.
pub fn log_dir(cfg: &Config) -> (p: JoinedPath)
    ensures
        is_path(p, cfg.code_home@, seq![DEBUG_LOGS@]),
{
    let p = JoinedPath { base: cfg.code_home.clone(), parts: vec![DEBUG_LOGS] };
    assert(p.parts@.map_values(|s: &'static str| s@) =~= seq![DEBUG_LOGS@]);
    p
}

} // verus!
