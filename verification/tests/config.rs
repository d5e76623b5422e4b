use code_core::config::{
    cwd_choice, load_questions, log_dir, Config, ConfigDefaults, CwdChoice, LoadFacts,
};
use code_core::config_parts::{
    check_patterns, deserialize_option_bool_from_maybe_string, effective_openai_base_url,
    fallback_filenames, is_using_chatgpt_auth, load_allowed_approval_policies,
    merge_model_providers, regex_problems, subagent_depth, validate_model_providers,
    validate_reserved_model_provider_ids, ApprovalLimits, BoolOrString,
};
use code_core::config_roles::OPENAI_DEFAULT_REVIEW_MODEL;
use code_core::config_routing::{
    normalize_auto_drive_routing_model, normalize_auto_drive_routing_reasoning_levels,
    sanitize_auto_drive_routing_entries, AutoDriveModelRoutingEntry, AutoDriveSettings,
    EffortLimits, EffortRule,
};
use code_core::config_types::{
    AllowedCommand, AllowedCommandMatchKind, ConfigError, ConfigErrorKind, ConfigOverrides,
    ConfigProfile, ConfigToml, ConfirmGuardConfig, ConfirmGuardPattern, ContextMode,
    FeaturesToml, ModelProviderInfo, Notifications, OtelConfigToml, OtelExporterKind,
    ProjectConfig, SandboxMode, SandboxWorkspaceWrite, ServiceTier, SubagentsToml, TextVerbosity,
    ToolsToml, Tui, UriBasedFileOpener,
};
use code_core::exec_events::ProjectHookEvent;
use code_core::hooks::ProjectHook;
use code_core::json::{json_str, JsonValue};
use code_core::memory_store::MemoriesConfig;
use code_core::omap::OrderedMap;
use code_core::protocol::{
    AskForApproval, ModelFamily, ReasoningEffort, ReasoningSummary, SandboxPolicy,
    TruncationPolicy, WebSearchToolType,
};

const CWD: &str = "/work/here";
const CODE_HOME: &str = "/home/x/.code";

fn provider(name: &str) -> ModelProviderInfo {
    ModelProviderInfo { definition: json_str(name), problem: None }
}

fn providers(entries: Vec<(&str, ModelProviderInfo)>) -> OrderedMap<ModelProviderInfo> {
    let mut m = OrderedMap::new();
    for (k, v) in entries {
        m.insert(k.to_string(), v);
    }
    m
}

fn routing(model: &str, enabled: bool, levels: &[ReasoningEffort]) -> AutoDriveModelRoutingEntry {
    AutoDriveModelRoutingEntry {
        model: model.to_string(),
        enabled,
        reasoning_levels: levels.to_vec(),
        description: String::new(),
    }
}

fn usual_auto_drive() -> AutoDriveSettings {
    AutoDriveSettings {
        model: "gpt-5.5".to_string(),
        model_reasoning_effort: ReasoningEffort::High,
        model_routing_enabled: false,
        model_routing_entries: Vec::new(),
        other: JsonValue::Null,
    }
}

fn usual_tui() -> Tui {
    Tui {
        auto_drive: None,
        notifications: Notifications::Enabled(false),
        other: json_str("usual"),
    }
}

fn workspace_write() -> SandboxPolicy {
    SandboxPolicy::WorkspaceWrite {
        writable_roots: vec![],
        network_access: false,
        exclude_tmpdir_env_var: false,
        exclude_slash_tmp: false,
        allow_git_writes: true,
    }
}

fn memories() -> MemoriesConfig {
    MemoriesConfig {
        max_raw_memories_for_global: 1,
        max_unused_days: 2,
        max_rollout_age_days: 3,
        max_rollouts_per_startup: 4,
        min_rollout_idle_hours: 5,
        no_memories_if_mcp_or_web_search: false,
        phase_1_model: None,
        phase_2_model: None,
    }
}

fn defaults() -> ConfigDefaults {
    ConfigDefaults {
        approval_policy: AskForApproval::OnRequest,
        workspace_write: workspace_write(),
        model_reasoning_summary: ReasoningSummary::Auto,
        model_text_verbosity: TextVerbosity::Medium,
        responses_originator_header: "code_cli_rs".to_string(),
        confirm_patterns: vec![],
        auto_drive: usual_auto_drive(),
        model_routing_entries: vec![
            routing("gpt-5.5", true, &[ReasoningEffort::High, ReasoningEffort::XHigh]),
            routing("gpt-5.4-mini", true, &[ReasoningEffort::High]),
        ],
        otel_environment: "dev".to_string(),
        memories: memories(),
        history: json_str("history"),
        notices: json_str("notices"),
        tui: usual_tui(),
        github: json_str("github"),
        validation: json_str("validation"),
        retention: json_str("retention"),
    }
}

fn family(slug: &str, window: u64, max_output: u64) -> ModelFamily {
    ModelFamily {
        slug: slug.to_string(),
        base_instructions: String::new(),
        context_window: Some(window),
        max_output_tokens: Some(max_output),
        auto_compact_token_limit: None,
        truncation_policy: TruncationPolicy::Bytes(10_000),
        apply_patch_tool_type: None,
        web_search_tool_type: WebSearchToolType::Text,
        uses_local_shell_tool: false,
        uses_shell_command_tool: false,
        supports_image_detail_original: false,
        supports_image_generation: false,
        additional_speed_tiers: Vec::new(),
        supports_search_tool: false,
        supports_reasoning_summaries: true,
        supports_parallel_tool_calls: false,
        use_responses_lite: false,
        prefer_websockets: false,
        default_reasoning_effort: None,
        default_reasoning_summary: ReasoningSummary::Auto,
    }
}

fn facts(model: ModelFamily) -> LoadFacts {
    LoadFacts {
        defaults: defaults(),
        user_instructions: None,
        built_in_providers: providers(vec![("openai", provider("OpenAI")), ("oss", provider("OSS"))]),
        cwd: Ok(CWD.to_string()),
        project_hooks: vec![],
        project_commands: vec![],
        family_tool_output_max_bytes: 32_768,
        context_window: model.context_window,
        auto_compact_token_limit: None,
        model_family: model,
        effort_limits: EffortLimits { rules: vec![] },
        file_base_instructions: Ok(None),
        file_compact_prompt: Ok(None),
        agents: vec![],
        using_chatgpt_auth: false,
        env_ctx_v2: false,
        is_windows: false,
    }
}

fn load(cfg: ConfigToml, overrides: ConfigOverrides, facts: LoadFacts) -> Config {
    Config::load_from_base_config_with_overrides(cfg, overrides, CODE_HOME.to_string(), facts)
        .expect("a configuration")
}

fn load_error(cfg: ConfigToml, overrides: ConfigOverrides, facts: LoadFacts) -> ConfigError {
    Config::load_from_base_config_with_overrides(cfg, overrides, CODE_HOME.to_string(), facts)
        .expect_err("no configuration")
}

/// What a file without settings says.
fn unwritten() -> ConfigToml {
    ConfigToml {
        review_resolve_use_chat_model: true,
        auto_review_resolve_use_chat_model: true,
        ..ConfigToml::default()
    }
}

fn here() -> ConfigOverrides {
    ConfigOverrides { cwd: Some(CWD.to_string()), ..ConfigOverrides::default() }
}

fn with_profile(name: &str) -> ConfigOverrides {
    ConfigOverrides { config_profile: Some(name.to_string()), ..here() }
}

fn fixture() -> ConfigToml {
    let mut profiles = OrderedMap::new();
    profiles.insert(
        "o3".to_string(),
        ConfigProfile {
            model: Some("o3".to_string()),
            model_provider: Some("openai".to_string()),
            approval_policy: Some(AskForApproval::Never),
            model_reasoning_effort: Some(ReasoningEffort::High),
            model_reasoning_summary: Some(ReasoningSummary::Detailed),
            ..ConfigProfile::default()
        },
    );
    profiles.insert(
        "gpt3".to_string(),
        ConfigProfile {
            model: Some("gpt-3.5-turbo".to_string()),
            model_provider: Some("openai-chat-completions".to_string()),
            ..ConfigProfile::default()
        },
    );
    profiles.insert(
        "zdr".to_string(),
        ConfigProfile {
            model: Some("o3".to_string()),
            model_provider: Some("openai".to_string()),
            approval_policy: Some(AskForApproval::OnFailure),
            disable_response_storage: Some(true),
            ..ConfigProfile::default()
        },
    );
    profiles.insert(
        "gpt5".to_string(),
        ConfigProfile {
            model: Some("gpt-5.2".to_string()),
            model_provider: Some("openai".to_string()),
            approval_policy: Some(AskForApproval::OnFailure),
            model_reasoning_effort: Some(ReasoningEffort::High),
            model_reasoning_summary: Some(ReasoningSummary::Detailed),
            ..ConfigProfile::default()
        },
    );
    ConfigToml {
        model: Some("o3".to_string()),
        approval_policy: Some(AskForApproval::UnlessTrusted),
        disable_response_storage: Some(false),
        profile: Some("gpt3".to_string()),
        model_providers: providers(vec![(
            "openai-chat-completions",
            provider("OpenAI using Chat Completions"),
        )]),
        profiles,
        ..unwritten()
    }
}

fn all_providers() -> OrderedMap<ModelProviderInfo> {
    providers(vec![
        ("openai", provider("OpenAI")),
        ("openai-chat-completions", provider("OpenAI using Chat Completions")),
        ("oss", provider("OSS")),
    ])
}

#[test]
fn test_precedence_fixture_with_o3_profile() {
    let config = load(fixture(), with_profile("o3"), facts(family("o3", 200_000, 100_000)));
    assert_eq!("o3", config.model);
    assert_eq!(OPENAI_DEFAULT_REVIEW_MODEL, config.review_model);
    assert_eq!(ReasoningEffort::High, config.review_model_reasoning_effort);
    assert_eq!(family("o3", 200_000, 100_000), config.model_family);
    assert_eq!(Some(200_000), config.model_context_window);
    assert_eq!(Some(100_000), config.model_max_output_tokens);
    assert_eq!("openai", config.model_provider_id);
    assert_eq!(provider("OpenAI"), config.model_provider);
    assert_eq!(AskForApproval::Never, config.approval_policy);
    assert_eq!(SandboxPolicy::ReadOnly, config.sandbox_policy);
    assert_eq!(CWD, config.cwd);
    assert_eq!(CODE_HOME, config.code_home);
    assert_eq!(all_providers(), config.model_providers);
    assert_eq!(ReasoningEffort::High, config.model_reasoning_effort);
    assert_eq!(ReasoningSummary::Detailed, config.model_reasoning_summary);
    assert_eq!(TextVerbosity::Medium, config.model_text_verbosity);
    assert!(!config.disable_response_storage);
    assert_eq!(UriBasedFileOpener::VsCode, config.file_opener);
    assert_eq!(usual_tui(), config.tui);
    assert!(!config.hide_agent_reasoning);
    assert!(!config.show_raw_agent_reasoning);
    assert!(!config.otel.log_user_prompt);
    assert_eq!(config.otel.environment, "dev");
    assert_eq!(config.otel.exporter, OtelExporterKind::Off);
}

#[test]
fn test_precedence_fixture_with_gpt3_profile() {
    let gpt3 = || facts(family("gpt-3.5-turbo", 16_385, 4_096));
    let config = load(fixture(), with_profile("gpt3"), gpt3());
    assert_eq!("gpt-3.5-turbo", config.model);
    assert_eq!(OPENAI_DEFAULT_REVIEW_MODEL, config.review_model);
    assert_eq!(ReasoningEffort::High, config.review_model_reasoning_effort);
    assert_eq!(Some(16_385), config.model_context_window);
    assert_eq!(Some(4_096), config.model_max_output_tokens);
    assert_eq!("openai-chat-completions", config.model_provider_id);
    assert_eq!(provider("OpenAI using Chat Completions"), config.model_provider);
    assert_eq!(Some("gpt3".to_string()), config.active_profile);
    assert_eq!(AskForApproval::UnlessTrusted, config.approval_policy);
    assert_eq!(SandboxPolicy::ReadOnly, config.sandbox_policy);
    assert_eq!(CWD, config.cwd);
    assert_eq!(CODE_HOME, config.code_home);
    assert_eq!(all_providers(), config.model_providers);
    assert_eq!(ReasoningEffort::Medium, config.model_reasoning_effort);
    assert_eq!(ReasoningSummary::Auto, config.model_reasoning_summary);
    assert_eq!(TextVerbosity::Medium, config.model_text_verbosity);
    assert!(!config.disable_response_storage);

    // Without a profile for this run, the one that was written is used.
    let by_default = load(fixture(), here(), gpt3());
    assert_eq!(config.model, by_default.model);
    assert_eq!(config.active_profile, by_default.active_profile);
    assert_eq!(config.model_provider_id, by_default.model_provider_id);
    assert_eq!(config.approval_policy, by_default.approval_policy);
    assert_eq!(config.sandbox_policy, by_default.sandbox_policy);
    assert_eq!(config, by_default);
}

#[test]
fn test_precedence_fixture_with_zdr_profile() {
    let config = load(fixture(), with_profile("zdr"), facts(family("o3", 200_000, 100_000)));
    assert_eq!("o3", config.model);
    assert_eq!(OPENAI_DEFAULT_REVIEW_MODEL, config.review_model);
    assert_eq!(ReasoningEffort::High, config.review_model_reasoning_effort);
    assert_eq!(Some(200_000), config.model_context_window);
    assert_eq!(Some(100_000), config.model_max_output_tokens);
    assert_eq!("openai", config.model_provider_id);
    assert_eq!(provider("OpenAI"), config.model_provider);
    assert_eq!(Some("zdr".to_string()), config.active_profile);
    assert_eq!(AskForApproval::OnFailure, config.approval_policy);
    assert_eq!(SandboxPolicy::ReadOnly, config.sandbox_policy);
    assert!(config.disable_response_storage);
    assert_eq!(CWD, config.cwd);
    assert_eq!(CODE_HOME, config.code_home);
    assert_eq!(all_providers(), config.model_providers);
}

#[test]
fn test_precedence_fixture_with_gpt5_profile() {
    let config = load(fixture(), with_profile("gpt5"), facts(family("gpt-5.2", 272_000, 128_000)));
    assert_eq!("gpt-5.2", config.model);
    assert_eq!(OPENAI_DEFAULT_REVIEW_MODEL, config.review_model);
    assert_eq!(ReasoningEffort::High, config.review_model_reasoning_effort);
    assert!(config.model_context_window.is_some());
    assert!(config.model_max_output_tokens.is_some());
    assert_eq!("openai", config.model_provider_id);
    assert_eq!(provider("OpenAI"), config.model_provider);
    assert_eq!(Some("gpt5".to_string()), config.active_profile);
    assert_eq!(AskForApproval::OnFailure, config.approval_policy);
    assert_eq!(SandboxPolicy::ReadOnly, config.sandbox_policy);
    assert!(matches!(
        config.model_reasoning_effort,
        ReasoningEffort::Medium | ReasoningEffort::High
    ));
    assert_eq!(ReasoningSummary::Detailed, config.model_reasoning_summary);
    assert!(matches!(
        config.model_text_verbosity,
        TextVerbosity::Medium | TextVerbosity::High
    ));
    assert_eq!(CWD, config.cwd);
    assert_eq!(CODE_HOME, config.code_home);
    assert_eq!(all_providers(), config.model_providers);
}

fn gpt3_facts() -> LoadFacts {
    facts(family("gpt-3.5-turbo", 16_385, 4_096))
}

#[test]
fn planning_defaults_to_chat_model_when_not_overridden() {
    let config = load(fixture(), here(), gpt3_facts());

    assert!(config.planning_use_chat_model);
    assert_eq!(config.planning_model, config.model);
    assert_eq!(config.planning_model_reasoning_effort, config.model_reasoning_effort);
}

#[test]
fn planning_follow_chat_overrides_reasoning_override() {
    let mut cfg = fixture();
    cfg.planning_use_chat_model = Some(true);
    cfg.planning_model_reasoning_effort = Some(ReasoningEffort::High);
    cfg.model_reasoning_effort = Some(ReasoningEffort::Low);

    let config = load(cfg, here(), gpt3_facts());

    assert!(config.planning_use_chat_model);
    assert_eq!(config.planning_model, config.model);
    assert_eq!(config.model_reasoning_effort, ReasoningEffort::Low);
    assert_eq!(config.planning_model_reasoning_effort, ReasoningEffort::Low);
}

#[test]
fn auto_drive_follow_chat_model_applied_on_load() {
    let mut cfg = fixture();
    cfg.auto_drive_use_chat_model = Some(true);

    let config = load(cfg, here(), gpt3_facts());

    assert!(config.auto_drive_use_chat_model);
    assert_eq!(config.auto_drive.model, config.model);
    assert_eq!(config.auto_drive.model_reasoning_effort, config.model_reasoning_effort);
}

#[test]
fn auto_drive_model_routing_defaults_are_present_on_load() {
    let config = load(fixture(), here(), gpt3_facts());

    assert_eq!(config.auto_drive.model_routing_entries.len(), 2);
    assert_eq!(config.auto_drive.model_routing_entries[0].model, "gpt-5.5");
    assert_eq!(
        config.auto_drive.model_routing_entries[0].reasoning_levels,
        vec![ReasoningEffort::High, ReasoningEffort::XHigh]
    );
    assert_eq!(config.auto_drive.model_routing_entries[1].model, "gpt-5.4-mini");
    assert_eq!(
        config.auto_drive.model_routing_entries[1].reasoning_levels,
        vec![ReasoningEffort::High]
    );
}

#[test]
fn auto_drive_model_routing_entries_are_sanitized_on_load() {
    let mut cfg = fixture();
    let mut auto_drive = usual_auto_drive();
    auto_drive.model_routing_entries = vec![
        AutoDriveModelRoutingEntry {
            model: " custom-not-gpt ".to_string(),
            enabled: true,
            reasoning_levels: vec![ReasoningEffort::High],
            description: "invalid model should be dropped".to_string(),
        },
        AutoDriveModelRoutingEntry {
            model: " GPT-5.3-CODEX ".to_string(),
            enabled: true,
            reasoning_levels: vec![
                ReasoningEffort::XHigh,
                ReasoningEffort::High,
                ReasoningEffort::High,
            ],
            description: "  keep me trimmed  ".to_string(),
        },
    ];
    cfg.auto_drive = Some(auto_drive);

    let config = load(cfg, here(), gpt3_facts());

    assert_eq!(config.auto_drive.model_routing_entries.len(), 1);
    let entry = &config.auto_drive.model_routing_entries[0];
    assert_eq!(entry.model, "gpt-5.3-codex");
    assert_eq!(
        entry.reasoning_levels,
        vec![ReasoningEffort::High, ReasoningEffort::XHigh]
    );
    assert_eq!(entry.description, "keep me trimmed");
}

#[test]
fn auto_drive_model_routing_enforces_at_least_one_enabled_entry() {
    let mut cfg = fixture();
    let mut auto_drive = usual_auto_drive();
    auto_drive.model_routing_enabled = true;
    auto_drive.model_routing_entries = vec![
        routing("gpt-5.5", false, &[ReasoningEffort::High]),
        routing("gpt-5.4-mini", false, &[ReasoningEffort::High]),
    ];
    cfg.auto_drive = Some(auto_drive);

    let config = load(cfg, here(), gpt3_facts());

    assert!(
        config.auto_drive.model_routing_entries.iter().any(|entry| entry.enabled),
        "at least one routing entry should be enabled when routing is enabled"
    );
}

#[test]
fn review_follow_chat_model_applies_reasoning_on_load() {
    let mut cfg = fixture();
    cfg.review_use_chat_model = true;
    cfg.review_model_reasoning_effort = Some(ReasoningEffort::High);

    let config = load(cfg, here(), gpt3_facts());

    assert!(config.review_use_chat_model);
    assert_eq!(config.review_model, config.model);
    assert_eq!(config.review_model_reasoning_effort, config.model_reasoning_effort);
}

#[test]
fn test_compact_prompt_override_prefers_cli_string() {
    let mut cfg = fixture();
    cfg.compact_prompt_override = Some("config prompt".to_string());

    let overrides = ConfigOverrides {
        compact_prompt_override: Some("cli prompt".to_string()),
        ..here()
    };
    let resolved = load(cfg, overrides, gpt3_facts());

    assert_eq!(resolved.compact_prompt_override.as_deref(), Some("cli prompt"));
}

#[test]
fn test_compact_prompt_override_file_populates_string() {
    let overrides = || ConfigOverrides {
        compact_prompt_override_file: Some("/tmp/prompt.md".to_string()),
        ..here()
    };
    let questions =
        load_questions(&fixture(), &overrides(), None, true, &usual_auto_drive(), false)
            .expect("questions");
    assert_eq!(questions.compact_prompt_file.as_deref(), Some("/tmp/prompt.md"));

    let file_contents = "file based compact prompt";
    let mut found = gpt3_facts();
    found.file_compact_prompt = Ok(Some(file_contents.to_string()));
    let resolved = load(fixture(), overrides(), found);

    assert_eq!(resolved.compact_prompt_override.as_deref(), Some(file_contents));
}

#[test]
fn auto_upgrade_enabled_accepts_string_boolean() {
    let text = |s: &str| Some(BoolOrString::String(s.to_string()));
    assert_eq!(deserialize_option_bool_from_maybe_string(text("true")), Ok(Some(true)));
    assert_eq!(deserialize_option_bool_from_maybe_string(text("false")), Ok(Some(false)));
    assert_eq!(
        deserialize_option_bool_from_maybe_string(Some(BoolOrString::Bool(true))),
        Ok(Some(true))
    );
    assert_eq!(deserialize_option_bool_from_maybe_string(text(" TRUE ")), Ok(Some(true)));
    assert_eq!(
        deserialize_option_bool_from_maybe_string(text("yes")),
        Err("yes".to_string())
    );
    assert_eq!(deserialize_option_bool_from_maybe_string(None), Ok(None));
}

#[test]
fn tool_output_max_bytes_defaults_and_overrides() {
    let default_config =
        load(ConfigToml::default(), ConfigOverrides::default(), facts(family("gpt-5.5", 1, 1)));
    assert_eq!(default_config.tool_output_max_bytes, 32_768);
    assert!(
        default_config.disable_response_storage,
        "default installs should send store=false for OpenAI Responses requests"
    );

    let cfg = ConfigToml { tool_output_max_bytes: Some(65_536), ..ConfigToml::default() };
    let overridden = load(cfg, ConfigOverrides::default(), facts(family("gpt-5.5", 1, 1)));
    assert_eq!(overridden.tool_output_max_bytes, 65_536);
}

#[test]
fn test_sandbox_config_parsing() {
    let write = |network_access: bool| SandboxWorkspaceWrite {
        writable_roots: vec![],
        network_access,
        exclude_tmpdir_env_var: false,
        exclude_slash_tmp: false,
        allow_git_writes: true,
    };
    let full_access = ConfigToml {
        sandbox_mode: Some(SandboxMode::DangerFullAccess),
        sandbox_workspace_write: Some(write(false)),
        ..ConfigToml::default()
    };
    assert_eq!(
        SandboxPolicy::DangerFullAccess,
        full_access.derive_sandbox_policy(None, workspace_write())
    );

    let read_only = ConfigToml {
        sandbox_mode: Some(SandboxMode::ReadOnly),
        sandbox_workspace_write: Some(write(true)),
        ..ConfigToml::default()
    };
    assert_eq!(SandboxPolicy::ReadOnly, read_only.derive_sandbox_policy(None, workspace_write()));

    let workspace = ConfigToml {
        sandbox_mode: Some(SandboxMode::WorkspaceWrite),
        sandbox_workspace_write: Some(SandboxWorkspaceWrite {
            writable_roots: vec!["/my/workspace".to_string()],
            exclude_tmpdir_env_var: true,
            exclude_slash_tmp: true,
            ..write(false)
        }),
        ..ConfigToml::default()
    };
    assert_eq!(
        SandboxPolicy::WorkspaceWrite {
            writable_roots: vec!["/my/workspace".to_string()],
            network_access: false,
            exclude_tmpdir_env_var: true,
            exclude_slash_tmp: true,
            allow_git_writes: true,
        },
        workspace.derive_sandbox_policy(None, workspace_write())
    );
    assert_eq!(
        workspace_write(),
        ConfigToml::default()
            .derive_sandbox_policy(Some(SandboxMode::WorkspaceWrite), workspace_write())
    );
}

fn tier(tier: Option<ServiceTier>) -> Option<ServiceTier> {
    let cfg = ConfigToml { service_tier: tier, ..unwritten() };
    load(cfg, here(), facts(family("gpt-5.5", 1, 1))).service_tier
}

#[test]
fn service_tier_defaults_to_standard_when_unspecified() {
    assert_eq!(tier(None), None);
}

#[test]
fn service_tier_fast_preserves_override() {
    assert_eq!(tier(Some(ServiceTier::Fast)), Some(ServiceTier::Fast));
}

#[test]
fn service_tier_flex_preserves_override() {
    assert_eq!(tier(Some(ServiceTier::Flex)), Some(ServiceTier::Flex));
}

#[test]
fn service_tier_standard_disables_override() {
    assert_eq!(tier(Some(ServiceTier::Standard)), None);
}

fn shown(model: &str, mode: Option<ContextMode>) -> Config {
    let cfg = ConfigToml { model: Some(model.to_string()), context_mode: mode, ..unwritten() };
    let mut found = facts(family(model, 272_000, 128_000));
    found.auto_compact_token_limit = Some(244_800);
    load(cfg, here(), found)
}

#[test]
fn context_mode_one_m_uses_terra_standard_context() {
    let config = shown("gpt-5.6-terra", Some(ContextMode::OneM));
    assert_eq!(config.context_mode, Some(ContextMode::OneM));
    assert_eq!(config.model_context_window, Some(272_000));
    assert_eq!(config.model_auto_compact_token_limit, Some(244_800));
}

#[test]
fn context_mode_one_m_is_inert_for_unsupported_models() {
    let config = shown("gpt-5.3-codex", Some(ContextMode::OneM));
    assert_eq!(config.context_mode, Some(ContextMode::OneM));
    assert_eq!(config.model_context_window, Some(272_000));
    assert_eq!(config.model_auto_compact_token_limit, Some(244_800));
}

#[test]
fn context_mode_one_m_is_inert_for_gpt_5_5() {
    let config = shown("gpt-5.5", Some(ContextMode::OneM));
    assert_eq!(config.context_mode, Some(ContextMode::OneM));
    assert_eq!(config.model_context_window, Some(272_000));
    assert_eq!(config.model_auto_compact_token_limit, Some(244_800));
}

#[test]
fn context_mode_auto_uses_terra_standard_context() {
    let config = shown("gpt-5.6-terra", Some(ContextMode::Auto));
    assert_eq!(config.context_mode, Some(ContextMode::Auto));
    assert_eq!(config.model_context_window, Some(272_000));
    assert_eq!(config.model_auto_compact_token_limit, Some(244_800));
}

#[test]
fn context_mode_defaults_to_auto_when_unspecified() {
    let config = shown("gpt-5.6-terra", None);
    assert_eq!(config.context_mode, Some(ContextMode::Auto));
    assert_eq!(config.model_context_window, Some(272_000));
    assert_eq!(config.model_auto_compact_token_limit, Some(244_800));
}

#[test]
fn context_mode_disabled_preserves_standard_limits() {
    let config = shown("gpt-5.6-terra", Some(ContextMode::Disabled));
    assert_eq!(config.context_mode, Some(ContextMode::Disabled));
    assert_eq!(config.model_context_window, Some(272_000));
    assert_eq!(config.model_auto_compact_token_limit, Some(244_800));
}

#[test]
fn include_apply_patch_tool_defaults_on_windows_only() {
    for is_windows in [false, true] {
        let mut found = facts(family("gpt-5.6-terra", 1, 1));
        found.is_windows = is_windows;
        let config = load(unwritten(), here(), found);
        assert_eq!(config.include_apply_patch_tool, is_windows);
    }
}

// ---------------------------------------------------------------------------
// Further cases

#[test]
fn this_run_beats_profile_beats_written() {
    let mut cfg = fixture();
    cfg.sandbox_mode = Some(SandboxMode::WorkspaceWrite);
    cfg.show_raw_agent_reasoning = Some(true);
    let overrides = ConfigOverrides {
        model: Some("mine".to_string()),
        approval_policy: Some(AskForApproval::OnRequest),
        sandbox_mode: Some(SandboxMode::DangerFullAccess),
        model_provider: Some("oss".to_string()),
        disable_response_storage: Some(false),
        show_raw_agent_reasoning: Some(false),
        base_instructions: Some("told".to_string()),
        ..with_profile("zdr")
    };
    let mut found = facts(family("mine", 1, 1));
    found.file_base_instructions = Ok(Some("from the file".to_string()));
    let config = load(cfg, overrides, found);
    assert_eq!(config.model, "mine");
    assert!(config.model_explicit);
    assert_eq!(config.approval_policy, AskForApproval::OnRequest);
    assert_eq!(config.sandbox_policy, SandboxPolicy::DangerFullAccess);
    assert_eq!(config.model_provider_id, "oss");
    assert!(!config.disable_response_storage);
    assert!(!config.show_raw_agent_reasoning);
    assert_eq!(config.base_instructions.as_deref(), Some("told"));
}

fn project() -> ProjectConfig {
    ProjectConfig {
        trust_level: Some("trusted".to_string()),
        approval_policy: Some(AskForApproval::OnFailure),
        sandbox_mode: Some(SandboxMode::DangerFullAccess),
        always_allow_commands: Some(vec![
            AllowedCommand {
                argv: vec!["git".to_string(), "status".to_string()],
                match_kind: AllowedCommandMatchKind::Exact,
            },
            AllowedCommand { argv: vec![], match_kind: AllowedCommandMatchKind::Exact },
            AllowedCommand {
                argv: vec!["cargo".to_string()],
                match_kind: AllowedCommandMatchKind::Prefix,
            },
        ]),
        hooks: vec![],
        commands: vec![],
    }
}

fn with_project(path: &str) -> ConfigToml {
    let mut projects = OrderedMap::new();
    projects.insert(path.to_string(), project());
    ConfigToml {
        projects: Some(projects),
        approval_policy: Some(AskForApproval::Never),
        sandbox_mode: Some(SandboxMode::ReadOnly),
        ..unwritten()
    }
}

#[test]
fn project_beats_written() {
    let hook = || ProjectHook {
        event: ProjectHookEvent::Stop,
        name: None,
        command: vec![],
        env: OrderedMap::new(),
        timeout_ms: None,
    };
    let mut found = facts(family("gpt-5.5", 1, 1));
    found.project_hooks = vec![hook()];
    let config = load(with_project(CWD), here(), found);
    assert_eq!(config.approval_policy, AskForApproval::OnFailure);
    assert_eq!(config.sandbox_policy, SandboxPolicy::DangerFullAccess);
    assert_eq!(config.always_allow_commands.len(), 2);
    assert_eq!(config.always_allow_commands[0].semantic_prefix, None);
    assert_eq!(
        config.always_allow_commands[1].semantic_prefix,
        Some(vec!["cargo".to_string()])
    );
    assert_eq!(config.project_hooks.len(), 1);

    let mut found = facts(family("gpt-5.5", 1, 1));
    found.project_hooks = vec![hook()];
    let elsewhere = load(with_project("/other"), here(), found);
    assert_eq!(elsewhere.approval_policy, AskForApproval::Never);
    assert_eq!(elsewhere.sandbox_policy, SandboxPolicy::ReadOnly);
    assert!(elsewhere.always_allow_commands.is_empty());
    assert!(elsewhere.project_hooks.is_empty());
}

#[test]
fn work_tree_is_trusted_with_its_project() {
    let cfg = with_project("/repo");
    assert!(cfg.is_cwd_trusted("/repo", None));
    assert!(cfg.is_cwd_trusted("/repo-worktree", Some("/repo")));
    assert!(!cfg.is_cwd_trusted("/repo-worktree", None));
    assert!(!cfg.is_cwd_trusted("/repo/sub", Some("/else")));
    assert!(!ConfigToml::default().is_cwd_trusted("/repo", None));
}

#[test]
fn profile_is_found_or_refused() {
    let cfg = fixture();
    let profile = cfg.get_config_profile(None).expect("the written one");
    assert_eq!(profile.model.as_deref(), Some("gpt-3.5-turbo"));
    let err = cfg.get_config_profile(Some("nope".to_string())).expect_err("none");
    assert_eq!(err.kind, ConfigErrorKind::NotFound);
    assert_eq!(err.message, "config profile `nope` not found");
    assert_eq!(
        ConfigToml::default().get_config_profile(None).expect("none asked for"),
        ConfigProfile::default()
    );
    assert_eq!(load_error(cfg, with_profile("nope"), gpt3_facts()), err);
}

#[test]
fn reserved_providers_are_refused() {
    let both = providers(vec![("oss", provider("a")), ("openai", provider("b"))]);
    let message = "model_providers contains reserved built-in provider IDs: `openai`, `oss`. \
                   Built-in providers cannot be overridden. Rename your custom provider.";
    assert_eq!(validate_reserved_model_provider_ids(&both), Err(message.to_string()));
    let mut cfg = unwritten();
    cfg.model_providers = both;
    let err = load_error(cfg, here(), facts(family("gpt-5.5", 1, 1)));
    assert_eq!(err.kind, ConfigErrorKind::Other);
    assert_eq!(err.message, message);
    assert_eq!(validate_reserved_model_provider_ids(&OrderedMap::new()), Ok(()));
}

#[test]
fn broken_provider_is_refused() {
    let broken = |why: &str| ModelProviderInfo {
        definition: JsonValue::Null,
        problem: Some(why.to_string()),
    };
    let map = providers(vec![("z", broken("late")), ("b", broken("bad")), ("a", provider("fine"))]);
    assert_eq!(validate_model_providers(&map), Err("model_providers.b: bad".to_string()));
}

#[test]
fn unknown_provider_is_refused() {
    let overrides = ConfigOverrides { model_provider: Some("x".to_string()), ..here() };
    let err = load_error(unwritten(), overrides, facts(family("gpt-5.5", 1, 1)));
    assert_eq!(err.kind, ConfigErrorKind::NotFound);
    assert_eq!(err.message, "Model provider `x` not found");
}

#[test]
fn built_in_provider_is_not_replaced() {
    let merged = merge_model_providers(
        providers(vec![("a", provider("built-in"))]),
        providers(vec![("a", provider("user")), ("b", provider("user"))]),
    );
    assert_eq!(merged, providers(vec![("a", provider("built-in")), ("b", provider("user"))]));
}

#[test]
fn missing_files_and_directories_are_reported_in_turn() {
    let io = |m: &str| ConfigError { kind: ConfigErrorKind::Io, message: m.to_string() };
    let mut found = facts(family("gpt-5.5", 1, 1));
    found.file_compact_prompt = Err(io("prompt"));
    assert_eq!(load_error(unwritten(), here(), found).message, "prompt");
    let mut found = facts(family("gpt-5.5", 1, 1));
    found.file_compact_prompt = Err(io("prompt"));
    found.file_base_instructions = Err(io("instructions"));
    assert_eq!(load_error(unwritten(), here(), found).message, "instructions");
    let mut found = facts(family("gpt-5.5", 1, 1));
    found.file_base_instructions = Err(io("instructions"));
    found.cwd = Err(io("cwd"));
    assert_eq!(load_error(unwritten(), here(), found).message, "cwd");
}

fn pattern(regex: &str) -> ConfirmGuardPattern {
    ConfirmGuardPattern { regex: regex.to_string(), other: JsonValue::Null }
}

#[test]
fn patterns_must_be_regular_expressions() {
    let mut cfg = unwritten();
    cfg.confirm_guard = Some(ConfirmGuardConfig { patterns: vec![pattern("^rm .*$")] });
    let mut found = facts(family("gpt-5.5", 1, 1));
    found.defaults.confirm_patterns = vec![pattern("git push")];
    let config = load(cfg, here(), found);
    assert_eq!(config.confirm_guard.patterns, vec![pattern("git push"), pattern("^rm .*$")]);

    let mut cfg = unwritten();
    cfg.confirm_guard = Some(ConfirmGuardConfig { patterns: vec![pattern("a("), pattern("b(")] });
    let err = load_error(cfg, here(), facts(family("gpt-5.5", 1, 1)));
    assert_eq!(err.kind, ConfigErrorKind::InvalidData);
    assert_eq!(
        err.message,
        "invalid confirm_guard pattern `a(`: found open group without closing ')'",
    );

    let told = regex_problems(&vec![pattern("push2"), pattern("b)"), pattern("x{3}")]);
    let unopened = "found closing ')' without matching '('".to_string();
    assert_eq!(told, vec![None, Some(unopened), None]);

    let large = regex_problems(&vec![pattern("\\w{1000000}"), pattern("{1000000}")]);
    assert_eq!(large[0], Some("compiled regex exceeded size limit".to_string()));
    assert!(large[1].is_some() && large[1] != large[0]);

    let problems = vec![None, Some("why".to_string())];
    let err = check_patterns(&vec![pattern("x"), pattern("y")], &problems).expect_err("a problem");
    assert_eq!(err.message, "invalid confirm_guard pattern `y`: why");
}

#[test]
fn agents_start_agents() {
    assert_eq!(subagent_depth(None), Ok(1));
    assert_eq!(subagent_depth(Some(3)), Ok(3));
    let mut cfg = unwritten();
    cfg.subagents = Some(SubagentsToml { max_depth: Some(0), commands: vec![] });
    let err = load_error(cfg, here(), facts(family("gpt-5.5", 1, 1)));
    assert_eq!(err.kind, ConfigErrorKind::InvalidInput);
    assert_eq!(err.message, "subagents.max-depth must be at least 1");
}

#[test]
fn efforts_are_cut_to_what_a_model_can() {
    let rule = |model: &str, asked, granted| EffortRule { model: model.to_string(), asked, granted };
    let mut found = facts(family("small", 1, 1));
    found.effort_limits = EffortLimits {
        rules: vec![
            rule("small", ReasoningEffort::XHigh, ReasoningEffort::Medium),
            rule("gpt-5.5", ReasoningEffort::High, ReasoningEffort::Low),
        ],
    };
    let cfg = ConfigToml {
        model: Some("small".to_string()),
        model_reasoning_effort: Some(ReasoningEffort::XHigh),
        planning_model: Some("plan".to_string()),
        ..unwritten()
    };
    let config = load(cfg, here(), found);
    assert_eq!(config.model_reasoning_effort, ReasoningEffort::Medium);
    assert_eq!(config.preferred_model_reasoning_effort, Some(ReasoningEffort::XHigh));
    assert_eq!(config.review_model, "gpt-5.5");
    assert_eq!(config.review_model_reasoning_effort, ReasoningEffort::Low);
    assert!(!config.planning_use_chat_model);
    assert_eq!(config.planning_model, "plan");
    assert_eq!(config.planning_model_reasoning_effort, ReasoningEffort::Medium);
    assert_eq!(config.review_resolve_model, "small");
    assert_eq!(config.review_resolve_model_reasoning_effort, ReasoningEffort::Medium);
    assert_eq!(config.auto_review_resolve_model, "small");
    assert_eq!(config.auto_review_model, "gpt-5.5");
}

#[test]
fn settings_of_old_still_count() {
    let mut cfg = unwritten();
    let mut settings = usual_auto_drive();
    settings.model = "old".to_string();
    cfg.tui = Some(Tui {
        auto_drive: Some(settings),
        notifications: Notifications::Custom(vec!["done".to_string()]),
        other: JsonValue::Null,
    });
    let config = load(cfg, here(), facts(family("gpt-5.5", 1, 1)));
    assert_eq!(config.auto_drive.model, "old");
    assert_eq!(config.tui_notifications, Notifications::Custom(vec!["done".to_string()]));

    let mut found = facts(family("gpt-5.5", 1, 1));
    found.using_chatgpt_auth = true;
    found.defaults.auto_drive.model = "x".to_string();
    let config = load(unwritten(), here(), found);
    assert_eq!(config.auto_drive.model, "gpt-5.5");
    assert_eq!(config.auto_drive.model_reasoning_effort, ReasoningEffort::XHigh);
    assert_eq!(config.tui_notifications, Notifications::Enabled(false));
}

#[test]
fn usual_values() {
    let config = load(unwritten(), here(), facts(family("gpt-5.5", 1, 1)));
    assert_eq!(config.model, "gpt-5.5");
    assert!(!config.model_explicit);
    assert_eq!(config.chatgpt_base_url, "https://chatgpt.com/backend-api/");
    assert_eq!(config.project_doc_max_bytes, 32 * 1024);
    assert_eq!(config.auto_drive_observer_cadence, 5);
    assert!(config.auto_switch_accounts_on_rate_limit);
    assert!(!config.api_key_fallback_on_all_accounts_limited);
    assert!(config.skills_enabled && !config.memories_enabled);
    assert!(config.include_view_image_tool && !config.include_plan_tool);
    assert!(config.tools_web_search_external && !config.tools_web_search_request);
    assert_eq!(config.responses_originator_header, "code_cli_rs");
    assert_eq!(config.subagent_max_depth, 1);
    assert_eq!(log_dir(&config).parts, vec!["debug_logs"]);
    assert_eq!(log_dir(&config).base, CODE_HOME);
}

#[test]
fn switches_are_read() {
    let cfg = ConfigToml {
        tools: Some(ToolsToml {
            web_search: Some(true),
            web_search_external: Some(false),
            web_search_indexed: Some(true),
            search_tool: Some(true),
            web_search_allowed_domains: Some(vec!["a.example".to_string()]),
            view_image: Some(false),
        }),
        features: Some(FeaturesToml { skills: Some(false), memories: Some(true) }),
        otel: Some(OtelConfigToml {
            log_user_prompt: Some(true),
            environment: Some("prod".to_string()),
            exporter: Some(OtelExporterKind::To(json_str("there"))),
        }),
        project_doc_fallback_filenames: Some(vec![" A.md ".to_string(), "  ".to_string()]),
        ..unwritten()
    };
    let config = load(cfg, here(), facts(family("gpt-5.5", 1, 1)));
    assert!(config.tools_web_search_request && !config.tools_web_search_external);
    assert!(config.tools_web_search_indexed && config.tools_search_tool);
    assert_eq!(config.tools_web_search_allowed_domains, Some(vec!["a.example".to_string()]));
    assert!(!config.include_view_image_tool);
    assert!(!config.skills_enabled && config.memories_enabled);
    assert_eq!(config.otel.environment, "prod");
    assert_eq!(config.otel.exporter, OtelExporterKind::To(json_str("there")));
    assert_eq!(config.project_doc_fallback_filenames, vec!["A.md".to_string()]);
    assert_eq!(fallback_filenames(&vec!["\n".to_string()]), Vec::<String>::new());
}

#[test]
fn questions_come_before_the_load() {
    let mut cfg = fixture();
    cfg.openai_base_url = Some("  ".to_string());
    cfg.experimental_instructions_file = Some("i.md".to_string());
    let env = Some("https://e.example".to_string());
    let q = load_questions(&cfg, &here(), env.clone(), false, &usual_auto_drive(), false)
        .expect("questions");
    assert_eq!(q.openai_base_url, env);
    assert_eq!(q.cwd, CwdChoice::BelowCurrent(CWD.to_string()));
    assert_eq!(q.model, "gpt-3.5-turbo");
    assert_eq!(q.context_mode, Some(ContextMode::Auto));
    assert_eq!(q.instructions_file.as_deref(), Some("i.md"));
    assert_eq!(
        q.models,
        vec![
            "gpt-3.5-turbo",
            "gpt-3.5-turbo",
            "gpt-5.5",
            "gpt-3.5-turbo",
            "gpt-5.5",
            "gpt-3.5-turbo",
            "gpt-5.5"
        ]
    );
    assert_eq!(cwd_choice(None, true), CwdChoice::Current);
    assert_eq!(cwd_choice(Some("/a".to_string()), true), CwdChoice::Given("/a".to_string()));
    assert!(load_questions(&cfg, &with_profile("x"), None, true, &usual_auto_drive(), false).is_err());
    assert_eq!(
        effective_openai_base_url(Some("https://w".to_string()), env),
        Some("https://w".to_string())
    );
}

#[test]
fn routing_is_put_in_form() {
    assert_eq!(
        normalize_auto_drive_routing_reasoning_levels(&vec![
            ReasoningEffort::XHigh,
            ReasoningEffort::NoReasoning,
            ReasoningEffort::Minimal,
            ReasoningEffort::XHigh,
        ]),
        vec![ReasoningEffort::Minimal, ReasoningEffort::XHigh]
    );
    assert_eq!(normalize_auto_drive_routing_model(" GPT-5 "), Some("gpt-5".to_string()));
    assert_eq!(normalize_auto_drive_routing_model("  "), None);
    assert_eq!(normalize_auto_drive_routing_model("o3"), None);
    let mut entries = vec![
        routing("gpt-5", true, &[ReasoningEffort::NoReasoning]),
        routing(" GPT-6", false, &[ReasoningEffort::Low]),
    ];
    sanitize_auto_drive_routing_entries(&mut entries);
    assert_eq!(entries, vec![routing("gpt-6", false, &[ReasoningEffort::Low])]);
    let once = entries.clone();
    sanitize_auto_drive_routing_entries(&mut entries);
    assert_eq!(entries, once);
}

#[test]
fn allowed_ways_of_asking() {
    let all =
        ApprovalLimits { unless_trusted: true, on_failure: true, on_request: true, never: true };
    assert_eq!(load_allowed_approval_policies(all), None);
    let some = ApprovalLimits { never: false, on_failure: false, ..all };
    assert_eq!(
        load_allowed_approval_policies(some),
        Some(vec![AskForApproval::UnlessTrusted, AskForApproval::OnRequest])
    );
}

#[test]
fn account_is_recognised() {
    assert!(is_using_chatgpt_auth(Ok(Some(true))));
    assert!(!is_using_chatgpt_auth(Ok(Some(false))));
    assert!(!is_using_chatgpt_auth(Ok(None)));
    let err = ConfigError { kind: ConfigErrorKind::Io, message: String::new() };
    assert!(!is_using_chatgpt_auth(Err(err)));
}
