//! What the user can set, and where.

use crate::config_routing::AutoDriveSettings;
use crate::json::JsonValue;
use crate::memory_store::MemoriesConfig;
use crate::omap::OrderedMap;
use crate::protocol::{AskForApproval, ReasoningEffort, ReasoningSummary};
use crate::remote_models::Personality;
use crate::tool_list::DynamicToolSpec;
use vstd::prelude::*;

verus! {

/// What kind of thing went wrong.
#[derive(Debug, PartialEq, Eq, Clone, Copy, Structural)]
pub enum ConfigErrorKind {
    /// Something that was named is not there.
    NotFound,
    /// Something that was written cannot be read.
    InvalidData,
    /// Something that was asked for is not allowed.
    InvalidInput,
    /// Something else that was written is not allowed.
    Other,
    /// A file or a directory could not be had.
    Io,
}

/// Why there is no configuration.
#[derive(Debug, PartialEq, Eq)]
pub struct ConfigError {
    pub kind: ConfigErrorKind,
    pub message: String,
}

/// What a command may do, by name.
#[derive(Debug, PartialEq, Eq, Clone, Copy, Structural)]
pub enum SandboxMode {
    ReadOnly,
    WorkspaceWrite,
    DangerFullAccess,
}

/// What a command may do in a workspace that it may write to.
#[derive(Debug, PartialEq, Eq)]
pub struct SandboxWorkspaceWrite {
    pub writable_roots: Vec<String>,
    pub network_access: bool,
    pub exclude_tmpdir_env_var: bool,
    pub exclude_slash_tmp: bool,
    pub allow_git_writes: bool,
}

/// How soon an answer is wanted.
#[derive(Debug, PartialEq, Eq, Clone, Copy, Structural)]
pub enum ServiceTier {
    Fast,
    Flex,
    Standard,
}

/// How much a model is shown.
#[derive(Debug, PartialEq, Eq, Clone, Copy, Structural)]
pub enum ContextMode {
    OneM,
    Auto,
    Disabled,
}

/// How long an answer is.
#[derive(Debug, PartialEq, Eq, Clone, Copy, Structural)]
pub enum TextVerbosity {
    Low,
    Medium,
    High,
}

/// What opens a file that an answer speaks of.
#[derive(Debug, PartialEq, Eq)]
pub enum UriBasedFileOpener {
    VsCode,
    /// What has this name.
    Other(String),
}

/// What the user is told of while they look elsewhere.
#[derive(Debug, PartialEq, Eq)]
pub enum Notifications {
    /// Of everything or of nothing.
    Enabled(bool),
    /// Of these.
    Custom(Vec<String>),
}

/// What is shown on the screen.
#[derive(Debug, PartialEq)]
pub struct Tui {
    /// How this program works on its own, where it was written of old.
    pub auto_drive: Option<AutoDriveSettings>,
    pub notifications: Notifications,
    /// What else was written there.
    pub other: JsonValue,
}

/// Where it is told what this program does.
#[derive(Debug, PartialEq)]
pub enum OtelExporterKind {
    /// Nowhere.
    Off,
    /// There.
    To(JsonValue),
}

/// Whether it is told what this program does, as it was written.
#[derive(Debug, PartialEq)]
pub struct OtelConfigToml {
    pub log_user_prompt: Option<bool>,
    pub environment: Option<String>,
    pub exporter: Option<OtelExporterKind>,
}

/// Whether it is told what this program does.
#[derive(Debug, PartialEq)]
pub struct OtelConfig {
    pub log_user_prompt: bool,
    pub environment: String,
    pub exporter: OtelExporterKind,
}

/// A command that is not run unless it is confirmed.
#[derive(Debug, PartialEq)]
pub struct ConfirmGuardPattern {
    pub regex: String,
    /// What else was written of it.
    pub other: JsonValue,
}

/// The commands that are not run unless they are confirmed.
#[derive(Debug, PartialEq)]
pub struct ConfirmGuardConfig {
    pub patterns: Vec<ConfirmGuardPattern>,
}

/// How a command is compared with one that was allowed.
#[derive(Debug, PartialEq, Eq, Clone, Copy, Structural)]
pub enum AllowedCommandMatchKind {
    Exact,
    Prefix,
}

/// A command that the user has allowed.
#[derive(Debug, PartialEq, Eq)]
pub struct AllowedCommand {
    pub argv: Vec<String>,
    pub match_kind: AllowedCommandMatchKind,
}

/// A command that is run without asking.
#[derive(Debug, PartialEq, Eq)]
pub struct ApprovedCommandPattern {
    pub argv: Vec<String>,
    pub kind: AllowedCommandMatchKind,
    /// What a command begins with to be run.
    pub semantic_prefix: Option<Vec<String>>,
}

/// What was written for one project.
#[derive(Debug, PartialEq)]
pub struct ProjectConfig {
    pub trust_level: Option<String>,
    pub approval_policy: Option<AskForApproval>,
    pub sandbox_mode: Option<SandboxMode>,
    pub always_allow_commands: Option<Vec<AllowedCommand>>,
    pub hooks: Vec<JsonValue>,
    pub commands: Vec<JsonValue>,
}

/// Which tools a model has, as it was written.
#[derive(Debug, PartialEq, Eq)]
pub struct ToolsToml {
    pub web_search: Option<bool>,
    /// The search looks outside; it does unless it is said not to.
    pub web_search_external: Option<bool>,
    /// The search looks at what is indexed only.
    pub web_search_indexed: Option<bool>,
    pub search_tool: Option<bool>,
    /// The search looks at these domains only.
    pub web_search_allowed_domains: Option<Vec<String>>,
    pub view_image: Option<bool>,
}

impl Default for ToolsToml {
    fn default() -> (r: Self)
        ensures
            r.web_search is None,
            r.web_search_external is None,
            r.web_search_indexed is None,
            r.search_tool is None,
            r.web_search_allowed_domains is None,
            r.view_image is None,
    {
        ToolsToml {
            web_search: None,
            web_search_external: None,
            web_search_indexed: None,
            search_tool: None,
            web_search_allowed_domains: None,
            view_image: None,
        }
    }
}

/// What this program does on trial, as it was written.
#[derive(Debug, PartialEq, Eq)]
pub struct FeaturesToml {
    pub skills: Option<bool>,
    pub memories: Option<bool>,
}

impl Default for FeaturesToml {
    fn default() -> (r: Self)
        ensures
            r.skills is None,
            r.memories is None,
    {
        FeaturesToml { skills: None, memories: None }
    }
}

/// The commands that other agents run, as they were written.
#[derive(Debug, PartialEq)]
pub struct SubagentsToml {
    /// How deep agents may start agents.
    pub max_depth: Option<i32>,
    pub commands: Vec<JsonValue>,
}

/// Another program that a task can be given to.
#[derive(Debug, PartialEq)]
pub struct AgentConfig {
    pub name: String,
    pub enabled: bool,
    /// What else was written of it.
    pub other: JsonValue,
}

/// Who offers models.
#[derive(Debug, PartialEq)]
pub struct ModelProviderInfo {
    /// What was written of them.
    pub definition: JsonValue,
    /// What is wrong with it, if anything is.
    pub problem: Option<String>,
}

/// Settings under a name.
#[derive(Debug, PartialEq, Eq)]
pub struct ConfigProfile {
    pub model: Option<String>,
    pub model_provider: Option<String>,
    pub approval_policy: Option<AskForApproval>,
    pub disable_response_storage: Option<bool>,
    pub model_reasoning_effort: Option<ReasoningEffort>,
    pub preferred_model_reasoning_effort: Option<ReasoningEffort>,
    pub model_reasoning_summary: Option<ReasoningSummary>,
    pub model_text_verbosity: Option<TextVerbosity>,
    pub model_personality: Option<Personality>,
    pub context_mode: Option<ContextMode>,
    pub service_tier: Option<ServiceTier>,
    pub chatgpt_base_url: Option<String>,
    pub experimental_instructions_file: Option<String>,
    pub compact_prompt_override: Option<String>,
    pub compact_prompt_override_file: Option<String>,
    pub planning_model: Option<String>,
    pub planning_model_reasoning_effort: Option<ReasoningEffort>,
    pub planning_use_chat_model: Option<bool>,
    pub review_model: Option<String>,
    pub review_model_reasoning_effort: Option<ReasoningEffort>,
    pub review_use_chat_model: Option<bool>,
    pub review_resolve_model: Option<String>,
    pub review_resolve_model_reasoning_effort: Option<ReasoningEffort>,
    pub review_resolve_use_chat_model: Option<bool>,
    pub auto_review_model: Option<String>,
    pub auto_review_model_reasoning_effort: Option<ReasoningEffort>,
    pub auto_review_use_chat_model: Option<bool>,
    pub auto_review_resolve_model: Option<String>,
    pub auto_review_resolve_model_reasoning_effort: Option<ReasoningEffort>,
    pub auto_review_resolve_use_chat_model: Option<bool>,
    pub auto_switch_accounts_on_rate_limit: Option<bool>,
    pub api_key_fallback_on_all_accounts_limited: Option<bool>,
}

/// Settings that set nothing.
pub open spec fn blank_profile() -> ConfigProfile {
    ConfigProfile {
        model: None,
        model_provider: None,
        approval_policy: None,
        disable_response_storage: None,
        model_reasoning_effort: None,
        preferred_model_reasoning_effort: None,
        model_reasoning_summary: None,
        model_text_verbosity: None,
        model_personality: None,
        context_mode: None,
        service_tier: None,
        chatgpt_base_url: None,
        experimental_instructions_file: None,
        compact_prompt_override: None,
        compact_prompt_override_file: None,
        planning_model: None,
        planning_model_reasoning_effort: None,
        planning_use_chat_model: None,
        review_model: None,
        review_model_reasoning_effort: None,
        review_use_chat_model: None,
        review_resolve_model: None,
        review_resolve_model_reasoning_effort: None,
        review_resolve_use_chat_model: None,
        auto_review_model: None,
        auto_review_model_reasoning_effort: None,
        auto_review_use_chat_model: None,
        auto_review_resolve_model: None,
        auto_review_resolve_model_reasoning_effort: None,
        auto_review_resolve_use_chat_model: None,
        auto_switch_accounts_on_rate_limit: None,
        api_key_fallback_on_all_accounts_limited: None,
    }
}

impl Default for ConfigProfile {
    fn default() -> (r: Self)
        ensures
            r == blank_profile(),
    {
        ConfigProfile {
            model: None,
            model_provider: None,
            approval_policy: None,
            disable_response_storage: None,
            model_reasoning_effort: None,
            preferred_model_reasoning_effort: None,
            model_reasoning_summary: None,
            model_text_verbosity: None,
            model_personality: None,
            context_mode: None,
            service_tier: None,
            chatgpt_base_url: None,
            experimental_instructions_file: None,
            compact_prompt_override: None,
            compact_prompt_override_file: None,
            planning_model: None,
            planning_model_reasoning_effort: None,
            planning_use_chat_model: None,
            review_model: None,
            review_model_reasoning_effort: None,
            review_use_chat_model: None,
            review_resolve_model: None,
            review_resolve_model_reasoning_effort: None,
            review_resolve_use_chat_model: None,
            auto_review_model: None,
            auto_review_model_reasoning_effort: None,
            auto_review_use_chat_model: None,
            auto_review_resolve_model: None,
            auto_review_resolve_model_reasoning_effort: None,
            auto_review_resolve_use_chat_model: None,
            auto_switch_accounts_on_rate_limit: None,
            api_key_fallback_on_all_accounts_limited: None,
        }
    }
}

fn clone_opt(o: &Option<String>) -> (r: Option<String>)
    ensures
        r == *o,
{
    match o {
        Some(s) => Some(s.clone()),
        None => None,
    }
}

impl Clone for ConfigProfile {
    fn clone(&self) -> (r: Self)
        ensures
            r == *self,
    {
        ConfigProfile {
            model: clone_opt(&self.model),
            model_provider: clone_opt(&self.model_provider),
            approval_policy: self.approval_policy,
            disable_response_storage: self.disable_response_storage,
            model_reasoning_effort: self.model_reasoning_effort,
            preferred_model_reasoning_effort: self.preferred_model_reasoning_effort,
            model_reasoning_summary: self.model_reasoning_summary,
            model_text_verbosity: self.model_text_verbosity,
            model_personality: self.model_personality,
            context_mode: self.context_mode,
            service_tier: self.service_tier,
            chatgpt_base_url: clone_opt(&self.chatgpt_base_url),
            experimental_instructions_file: clone_opt(&self.experimental_instructions_file),
            compact_prompt_override: clone_opt(&self.compact_prompt_override),
            compact_prompt_override_file: clone_opt(&self.compact_prompt_override_file),
            planning_model: clone_opt(&self.planning_model),
            planning_model_reasoning_effort: self.planning_model_reasoning_effort,
            planning_use_chat_model: self.planning_use_chat_model,
            review_model: clone_opt(&self.review_model),
            review_model_reasoning_effort: self.review_model_reasoning_effort,
            review_use_chat_model: self.review_use_chat_model,
            review_resolve_model: clone_opt(&self.review_resolve_model),
            review_resolve_model_reasoning_effort: self.review_resolve_model_reasoning_effort,
            review_resolve_use_chat_model: self.review_resolve_use_chat_model,
            auto_review_model: clone_opt(&self.auto_review_model),
            auto_review_model_reasoning_effort: self.auto_review_model_reasoning_effort,
            auto_review_use_chat_model: self.auto_review_use_chat_model,
            auto_review_resolve_model: clone_opt(&self.auto_review_resolve_model),
            auto_review_resolve_model_reasoning_effort: self.auto_review_resolve_model_reasoning_effort,
            auto_review_resolve_use_chat_model: self.auto_review_resolve_use_chat_model,
            auto_switch_accounts_on_rate_limit: self.auto_switch_accounts_on_rate_limit,
            api_key_fallback_on_all_accounts_limited: self.api_key_fallback_on_all_accounts_limited,
        }
    }
}

/// What the user wrote down.
#[derive(Debug, PartialEq)]
pub struct ConfigToml {
    pub model: Option<String>,
    pub planning_model: Option<String>,
    pub planning_model_reasoning_effort: Option<ReasoningEffort>,
    pub planning_use_chat_model: Option<bool>,
    pub review_model: Option<String>,
    pub review_model_reasoning_effort: Option<ReasoningEffort>,
    pub review_use_chat_model: bool,
    pub review_resolve_model: Option<String>,
    pub review_resolve_model_reasoning_effort: Option<ReasoningEffort>,
    pub review_resolve_use_chat_model: bool,
    pub auto_review_model: Option<String>,
    pub auto_review_model_reasoning_effort: Option<ReasoningEffort>,
    pub auto_review_use_chat_model: bool,
    pub auto_review_resolve_model: Option<String>,
    pub auto_review_resolve_model_reasoning_effort: Option<ReasoningEffort>,
    pub auto_review_resolve_use_chat_model: bool,
    pub model_provider: Option<String>,
    pub model_context_window: Option<u64>,
    pub model_max_output_tokens: Option<u64>,
    pub model_auto_compact_token_limit: Option<i64>,
    pub approval_policy: Option<AskForApproval>,
    pub shell_environment_policy: JsonValue,
    pub sandbox_mode: Option<SandboxMode>,
    pub sandbox_workspace_write: Option<SandboxWorkspaceWrite>,
    pub confirm_guard: Option<ConfirmGuardConfig>,
    pub disable_response_storage: Option<bool>,
    pub otel: Option<OtelConfigToml>,
    pub auto_upgrade_enabled: Option<bool>,
    pub notify: Option<Vec<String>>,
    pub notice: Option<JsonValue>,
    pub instructions: Option<String>,
    pub mcp_servers: OrderedMap<JsonValue>,
    pub experimental_client_tools: Option<JsonValue>,
    pub dynamic_tools: Option<Vec<DynamicToolSpec>>,
    pub agents: Vec<AgentConfig>,
    pub model_providers: OrderedMap<ModelProviderInfo>,
    pub openai_base_url: Option<String>,
    pub project_doc_max_bytes: Option<usize>,
    pub tool_output_max_bytes: Option<usize>,
    pub project_doc_fallback_filenames: Option<Vec<String>>,
    pub profile: Option<String>,
    pub profiles: OrderedMap<ConfigProfile>,
    pub history: Option<JsonValue>,
    pub file_opener: Option<UriBasedFileOpener>,
    pub tui: Option<Tui>,
    pub auto_drive: Option<AutoDriveSettings>,
    pub auto_drive_use_chat_model: Option<bool>,
    pub auto_drive_observer_cadence: Option<u32>,
    pub browser: Option<JsonValue>,
    pub hide_agent_reasoning: Option<bool>,
    pub show_raw_agent_reasoning: Option<bool>,
    pub model_reasoning_effort: Option<ReasoningEffort>,
    pub preferred_model_reasoning_effort: Option<ReasoningEffort>,
    pub model_reasoning_summary: Option<ReasoningSummary>,
    pub model_text_verbosity: Option<TextVerbosity>,
    pub model_personality: Option<Personality>,
    pub context_mode: Option<ContextMode>,
    pub service_tier: Option<ServiceTier>,
    pub model_supports_reasoning_summaries: Option<bool>,
    pub chatgpt_base_url: Option<String>,
    pub experimental_instructions_file: Option<String>,
    pub compact_prompt_override: Option<String>,
    pub compact_prompt_file: Option<String>,
    pub experimental_use_exec_command_tool: Option<bool>,
    pub use_experimental_reasoning_summary: Option<bool>,
    pub responses_originator_header_internal_override: Option<String>,
    pub projects: Option<OrderedMap<ProjectConfig>>,
    pub preferred_auth_method: Option<String>,
    pub auto_switch_accounts_on_rate_limit: Option<bool>,
    pub api_key_fallback_on_all_accounts_limited: Option<bool>,
    pub tools: Option<ToolsToml>,
    pub features: Option<FeaturesToml>,
    pub memories: Option<MemoriesConfig>,
    pub disable_paste_burst: Option<bool>,
    pub github: Option<JsonValue>,
    pub validation: Option<JsonValue>,
    pub subagents: Option<SubagentsToml>,
    pub experimental_resume: Option<String>,
}

/// Nothing was written down.
pub open spec fn is_unwritten(c: ConfigToml) -> bool {
    &&& c.model is None
    &&& c.planning_model is None
    &&& c.planning_model_reasoning_effort is None
    &&& c.planning_use_chat_model is None
    &&& c.review_model is None
    &&& c.review_model_reasoning_effort is None
    &&& !c.review_use_chat_model
    &&& c.review_resolve_model is None
    &&& c.review_resolve_model_reasoning_effort is None
    &&& !c.review_resolve_use_chat_model
    &&& c.auto_review_model is None
    &&& c.auto_review_model_reasoning_effort is None
    &&& !c.auto_review_use_chat_model
    &&& c.auto_review_resolve_model is None
    &&& c.auto_review_resolve_model_reasoning_effort is None
    &&& !c.auto_review_resolve_use_chat_model
    &&& c.model_provider is None
    &&& c.model_context_window is None
    &&& c.model_max_output_tokens is None
    &&& c.model_auto_compact_token_limit is None
    &&& c.approval_policy is None
    &&& c.shell_environment_policy is Null
    &&& c.sandbox_mode is None
    &&& c.sandbox_workspace_write is None
    &&& c.confirm_guard is None
    &&& c.disable_response_storage is None
    &&& c.otel is None
    &&& c.auto_upgrade_enabled is None
    &&& c.notify is None
    &&& c.notice is None
    &&& c.instructions is None
    &&& c.mcp_servers@ == Map::<Seq<char>, JsonValue>::empty()
    &&& c.experimental_client_tools is None
    &&& c.dynamic_tools is None
    &&& c.agents@.len() == 0
    &&& c.model_providers@ == Map::<Seq<char>, ModelProviderInfo>::empty()
    &&& c.openai_base_url is None
    &&& c.project_doc_max_bytes is None
    &&& c.tool_output_max_bytes is None
    &&& c.project_doc_fallback_filenames is None
    &&& c.profile is None
    &&& c.profiles@ == Map::<Seq<char>, ConfigProfile>::empty()
    &&& c.history is None
    &&& c.file_opener is None
    &&& c.tui is None
    &&& c.auto_drive is None
    &&& c.auto_drive_use_chat_model is None
    &&& c.auto_drive_observer_cadence is None
    &&& c.browser is None
    &&& c.hide_agent_reasoning is None
    &&& c.show_raw_agent_reasoning is None
    &&& c.model_reasoning_effort is None
    &&& c.preferred_model_reasoning_effort is None
    &&& c.model_reasoning_summary is None
    &&& c.model_text_verbosity is None
    &&& c.model_personality is None
    &&& c.context_mode is None
    &&& c.service_tier is None
    &&& c.model_supports_reasoning_summaries is None
    &&& c.chatgpt_base_url is None
    &&& c.experimental_instructions_file is None
    &&& c.compact_prompt_override is None
    &&& c.compact_prompt_file is None
    &&& c.experimental_use_exec_command_tool is None
    &&& c.use_experimental_reasoning_summary is None
    &&& c.responses_originator_header_internal_override is None
    &&& c.projects is None
    &&& c.preferred_auth_method is None
    &&& c.auto_switch_accounts_on_rate_limit is None
    &&& c.api_key_fallback_on_all_accounts_limited is None
    &&& c.tools is None
    &&& c.features is None
    &&& c.memories is None
    &&& c.disable_paste_burst is None
    &&& c.github is None
    &&& c.validation is None
    &&& c.subagents is None
    &&& c.experimental_resume is None
}

impl Default for ConfigToml {
    fn default() -> (r: Self)
        ensures
            is_unwritten(r),
    {
        ConfigToml {
            model: None,
            planning_model: None,
            planning_model_reasoning_effort: None,
            planning_use_chat_model: None,
            review_model: None,
            review_model_reasoning_effort: None,
            review_use_chat_model: false,
            review_resolve_model: None,
            review_resolve_model_reasoning_effort: None,
            review_resolve_use_chat_model: false,
            auto_review_model: None,
            auto_review_model_reasoning_effort: None,
            auto_review_use_chat_model: false,
            auto_review_resolve_model: None,
            auto_review_resolve_model_reasoning_effort: None,
            auto_review_resolve_use_chat_model: false,
            model_provider: None,
            model_context_window: None,
            model_max_output_tokens: None,
            model_auto_compact_token_limit: None,
            approval_policy: None,
            shell_environment_policy: JsonValue::Null,
            sandbox_mode: None,
            sandbox_workspace_write: None,
            confirm_guard: None,
            disable_response_storage: None,
            otel: None,
            auto_upgrade_enabled: None,
            notify: None,
            notice: None,
            instructions: None,
            mcp_servers: OrderedMap::new(),
            experimental_client_tools: None,
            dynamic_tools: None,
            agents: Vec::new(),
            model_providers: OrderedMap::new(),
            openai_base_url: None,
            project_doc_max_bytes: None,
            tool_output_max_bytes: None,
            project_doc_fallback_filenames: None,
            profile: None,
            profiles: OrderedMap::new(),
            history: None,
            file_opener: None,
            tui: None,
            auto_drive: None,
            auto_drive_use_chat_model: None,
            auto_drive_observer_cadence: None,
            browser: None,
            hide_agent_reasoning: None,
            show_raw_agent_reasoning: None,
            model_reasoning_effort: None,
            preferred_model_reasoning_effort: None,
            model_reasoning_summary: None,
            model_text_verbosity: None,
            model_personality: None,
            context_mode: None,
            service_tier: None,
            model_supports_reasoning_summaries: None,
            chatgpt_base_url: None,
            experimental_instructions_file: None,
            compact_prompt_override: None,
            compact_prompt_file: None,
            experimental_use_exec_command_tool: None,
            use_experimental_reasoning_summary: None,
            responses_originator_header_internal_override: None,
            projects: None,
            preferred_auth_method: None,
            auto_switch_accounts_on_rate_limit: None,
            api_key_fallback_on_all_accounts_limited: None,
            tools: None,
            features: None,
            memories: None,
            disable_paste_burst: None,
            github: None,
            validation: None,
            subagents: None,
            experimental_resume: None,
        }
    }
}

/// What was set for this run alone.
#[derive(Debug, PartialEq)]
pub struct ConfigOverrides {
    pub model: Option<String>,
    pub review_model: Option<String>,
    pub cwd: Option<String>,
    pub approval_policy: Option<AskForApproval>,
    pub sandbox_mode: Option<SandboxMode>,
    pub model_provider: Option<String>,
    pub config_profile: Option<String>,
    pub code_linux_sandbox_exe: Option<String>,
    pub base_instructions: Option<String>,
    pub include_plan_tool: Option<bool>,
    pub include_apply_patch_tool: Option<bool>,
    pub include_view_image_tool: Option<bool>,
    pub disable_response_storage: Option<bool>,
    pub show_raw_agent_reasoning: Option<bool>,
    pub debug: Option<bool>,
    pub tools_web_search_request: Option<bool>,
    pub mcp_servers: Option<OrderedMap<JsonValue>>,
    pub experimental_client_tools: Option<JsonValue>,
    pub dynamic_tools: Option<Vec<DynamicToolSpec>>,
    pub compact_prompt_override: Option<String>,
    pub compact_prompt_override_file: Option<String>,
}

/// Nothing was set for this run.
pub open spec fn overrides_nothing(c: ConfigOverrides) -> bool {
    &&& c.model is None
    &&& c.review_model is None
    &&& c.cwd is None
    &&& c.approval_policy is None
    &&& c.sandbox_mode is None
    &&& c.model_provider is None
    &&& c.config_profile is None
    &&& c.code_linux_sandbox_exe is None
    &&& c.base_instructions is None
    &&& c.include_plan_tool is None
    &&& c.include_apply_patch_tool is None
    &&& c.include_view_image_tool is None
    &&& c.disable_response_storage is None
    &&& c.show_raw_agent_reasoning is None
    &&& c.debug is None
    &&& c.tools_web_search_request is None
    &&& c.mcp_servers is None
    &&& c.experimental_client_tools is None
    &&& c.dynamic_tools is None
    &&& c.compact_prompt_override is None
    &&& c.compact_prompt_override_file is None
}

impl Default for ConfigOverrides {
    fn default() -> (r: Self)
        ensures
            overrides_nothing(r),
    {
        ConfigOverrides {
            model: None,
            review_model: None,
            cwd: None,
            approval_policy: None,
            sandbox_mode: None,
            model_provider: None,
            config_profile: None,
            code_linux_sandbox_exe: None,
            base_instructions: None,
            include_plan_tool: None,
            include_apply_patch_tool: None,
            include_view_image_tool: None,
            disable_response_storage: None,
            show_raw_agent_reasoning: None,
            debug: None,
            tools_web_search_request: None,
            mcp_servers: None,
            experimental_client_tools: None,
            dynamic_tools: None,
            compact_prompt_override: None,
            compact_prompt_override_file: None,
        }
    }
}

} // verus!
