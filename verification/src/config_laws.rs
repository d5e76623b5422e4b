//! What holds of every configuration.

use crate::config::{
    depth_of, is_config, load_error, project_approval, project_sandbox, Config, LoadFacts,
};
use crate::config_parts::{
    approved, approved_for, approved_view, first_of, merged, named_files, profile_exists,
    profile_of, reserved_ids, reserved_used, sandbox_of, value_or,
};
use crate::config_roles::{role_models, roles_of};
use crate::config_routing::{any_enabled, one_entry_is_in_use, EffortLimits};
use crate::config_types::{
    AllowedCommand, AllowedCommandMatchKind, ApprovedCommandPattern, ConfigError, ConfigErrorKind,
    ConfigOverrides, ConfigProfile, ConfigToml, ContextMode, ModelProviderInfo, Notifications,
    SandboxMode, ServiceTier,
};
use crate::protocol::ReasoningEffort;
use crate::text::{opt_text, texts};
use vstd::prelude::*;

verus! {

/// What was set for this run holds, whatever a profile sets or was written.
pub proof fn this_run_comes_first(
    c: Config,
    cfg: ConfigToml,
    overrides: ConfigOverrides,
    code_home: String,
    facts: LoadFacts,
)
    requires
        is_config(c, cfg, overrides, code_home, facts),
    ensures
        overrides.model is Some ==> c.model@ == overrides.model->0@ && c.model_explicit,
        overrides.model_provider is Some ==> c.model_provider_id@ == overrides.model_provider->0@,
        overrides.approval_policy is Some ==> c.approval_policy == overrides.approval_policy->0,
        overrides.sandbox_mode is Some ==> c.sandbox_policy.view() == sandbox_of(
            overrides.sandbox_mode->0,
            cfg.sandbox_workspace_write,
            facts.defaults.workspace_write.view(),
        ),
        overrides.review_model is Some && !c.review_use_chat_model ==> c.review_model@
            == overrides.review_model->0@,
        overrides.base_instructions is Some ==> c.base_instructions == overrides.base_instructions,
        overrides.compact_prompt_override is Some ==> c.compact_prompt_override
            == overrides.compact_prompt_override,
        overrides.disable_response_storage is Some ==> c.disable_response_storage
            == overrides.disable_response_storage->0,
        overrides.show_raw_agent_reasoning is Some ==> c.show_raw_agent_reasoning
            == overrides.show_raw_agent_reasoning->0,
        overrides.include_view_image_tool is Some ==> c.include_view_image_tool
            == overrides.include_view_image_tool->0,
        overrides.tools_web_search_request is Some ==> c.tools_web_search_request
            == overrides.tools_web_search_request->0,
        overrides.include_apply_patch_tool is Some ==> c.include_apply_patch_tool
            == overrides.include_apply_patch_tool->0,
        overrides.mcp_servers is Some ==> c.mcp_servers@ == overrides.mcp_servers->0@,
        overrides.experimental_client_tools is Some ==> c.experimental_client_tools
            == overrides.experimental_client_tools,
        overrides.dynamic_tools is Some ==> c.dynamic_tools@ == overrides.dynamic_tools->0@,
        overrides.include_plan_tool is Some ==> c.include_plan_tool
            == overrides.include_plan_tool->0,
        overrides.debug is Some ==> c.debug == overrides.debug->0,
        c.code_linux_sandbox_exe == overrides.code_linux_sandbox_exe,
        overrides.config_profile is Some ==> c.active_profile is Some && c.active_profile->0@
            == overrides.config_profile->0@,
{
}

/// What the profile sets holds, whatever was written, where nothing was set for this
/// run.
pub proof fn profile_comes_second(
    c: Config,
    cfg: ConfigToml,
    overrides: ConfigOverrides,
    code_home: String,
    facts: LoadFacts,
)
    requires
        is_config(c, cfg, overrides, code_home, facts),
    ensures
        ({
            let p = profile_of(cfg, overrides.config_profile);
            &&& overrides.model is None && p.model is Some ==> c.model@ == p.model->0@
                && c.model_explicit
            &&& overrides.model_provider is None && p.model_provider is Some
                ==> c.model_provider_id@ == p.model_provider->0@
            &&& overrides.approval_policy is None && p.approval_policy is Some
                ==> c.approval_policy == p.approval_policy->0
            &&& overrides.disable_response_storage is None && p.disable_response_storage is Some
                ==> c.disable_response_storage == p.disable_response_storage->0
            &&& overrides.compact_prompt_override is None && p.compact_prompt_override is Some
                ==> c.compact_prompt_override == p.compact_prompt_override
            &&& p.model_reasoning_summary is Some ==> c.model_reasoning_summary
                == p.model_reasoning_summary->0
            &&& p.model_text_verbosity is Some ==> c.model_text_verbosity
                == p.model_text_verbosity->0
            &&& p.model_personality is Some ==> c.model_personality == p.model_personality
            &&& p.context_mode is Some ==> c.context_mode == p.context_mode
            &&& p.chatgpt_base_url is Some ==> c.chatgpt_base_url@ == p.chatgpt_base_url->0@
            &&& p.auto_switch_accounts_on_rate_limit is Some
                ==> c.auto_switch_accounts_on_rate_limit
                == p.auto_switch_accounts_on_rate_limit->0
            &&& p.api_key_fallback_on_all_accounts_limited is Some
                ==> c.api_key_fallback_on_all_accounts_limited
                == p.api_key_fallback_on_all_accounts_limited->0
            &&& p.service_tier == Some(ServiceTier::Fast) ==> c.service_tier == Some(
                ServiceTier::Fast,
            )
            &&& p.service_tier == Some(ServiceTier::Flex) ==> c.service_tier == Some(
                ServiceTier::Flex,
            )
            &&& p.service_tier == Some(ServiceTier::Standard) ==> c.service_tier is None
            &&& p.preferred_model_reasoning_effort is Some ==> {
                &&& c.preferred_model_reasoning_effort == p.preferred_model_reasoning_effort
                &&& c.model_reasoning_effort == facts.effort_limits.spec_clamp(
                    c.model@,
                    p.preferred_model_reasoning_effort->0,
                )
            }
            &&& p.preferred_model_reasoning_effort is None
                && cfg.preferred_model_reasoning_effort is None && p.model_reasoning_effort is Some
                ==> {
                &&& c.preferred_model_reasoning_effort == p.model_reasoning_effort
                &&& c.model_reasoning_effort == facts.effort_limits.spec_clamp(
                    c.model@,
                    p.model_reasoning_effort->0,
                )
            }
        }),
{
}

/// Of the other models too, what the profile sets holds, whatever was written.
pub proof fn profile_chooses_the_other_models(
    c: Config,
    cfg: ConfigToml,
    overrides: ConfigOverrides,
    code_home: String,
    facts: LoadFacts,
)
    requires
        is_config(c, cfg, overrides, code_home, facts),
    ensures
        ({
            let p = profile_of(cfg, overrides.config_profile);
            let limits = facts.effort_limits;
            &&& p.planning_use_chat_model is Some ==> c.planning_use_chat_model
                == p.planning_use_chat_model->0
            &&& !c.planning_use_chat_model && p.planning_model is Some ==> c.planning_model@
                == p.planning_model->0@
            &&& !c.planning_use_chat_model && p.planning_model_reasoning_effort is Some
                ==> c.planning_model_reasoning_effort == limits.spec_clamp(
                c.planning_model@,
                p.planning_model_reasoning_effort->0,
            )
            &&& p.review_use_chat_model is Some ==> c.review_use_chat_model
                == p.review_use_chat_model->0
            &&& !c.review_use_chat_model && overrides.review_model is None
                && p.review_model is Some ==> c.review_model@ == p.review_model->0@
            &&& !c.review_use_chat_model && p.review_model_reasoning_effort is Some
                ==> c.review_model_reasoning_effort == limits.spec_clamp(
                c.review_model@,
                p.review_model_reasoning_effort->0,
            )
            &&& p.review_resolve_use_chat_model is Some ==> c.review_resolve_use_chat_model
                == p.review_resolve_use_chat_model->0
            &&& !c.review_resolve_use_chat_model && p.review_resolve_model is Some
                ==> c.review_resolve_model@ == p.review_resolve_model->0@
            &&& !c.review_resolve_use_chat_model && p.review_resolve_model_reasoning_effort is Some
                ==> c.review_resolve_model_reasoning_effort == limits.spec_clamp(
                c.review_resolve_model@,
                p.review_resolve_model_reasoning_effort->0,
            )
            &&& p.auto_review_use_chat_model is Some ==> c.auto_review_use_chat_model
                == p.auto_review_use_chat_model->0
            &&& !c.auto_review_use_chat_model && p.auto_review_model is Some
                ==> c.auto_review_model@ == p.auto_review_model->0@
            &&& !c.auto_review_use_chat_model && p.auto_review_model_reasoning_effort is Some
                ==> c.auto_review_model_reasoning_effort == limits.spec_clamp(
                c.auto_review_model@,
                p.auto_review_model_reasoning_effort->0,
            )
            &&& p.auto_review_resolve_use_chat_model is Some
                ==> c.auto_review_resolve_use_chat_model
                == p.auto_review_resolve_use_chat_model->0
            &&& !c.auto_review_resolve_use_chat_model && p.auto_review_resolve_model is Some
                ==> c.auto_review_resolve_model@ == p.auto_review_resolve_model->0@
            &&& !c.auto_review_resolve_use_chat_model
                && p.auto_review_resolve_model_reasoning_effort is Some
                ==> c.auto_review_resolve_model_reasoning_effort == limits.spec_clamp(
                c.auto_review_resolve_model@,
                p.auto_review_resolve_model_reasoning_effort->0,
            )
        }),
{
}

/// Where the profile sets nothing of them, what was written of the other models holds.
pub proof fn written_models_come_next(
    c: Config,
    cfg: ConfigToml,
    overrides: ConfigOverrides,
    code_home: String,
    facts: LoadFacts,
)
    requires
        is_config(c, cfg, overrides, code_home, facts),
    ensures
        ({
            let p = profile_of(cfg, overrides.config_profile);
            let limits = facts.effort_limits;
            &&& p.planning_use_chat_model is None && cfg.planning_use_chat_model is Some
                ==> c.planning_use_chat_model == cfg.planning_use_chat_model->0
            &&& !c.planning_use_chat_model && p.planning_model is None && cfg.planning_model is Some
                ==> c.planning_model@ == cfg.planning_model->0@
            &&& !c.planning_use_chat_model && p.planning_model_reasoning_effort is None
                && cfg.planning_model_reasoning_effort is Some ==> c.planning_model_reasoning_effort
                == limits.spec_clamp(c.planning_model@, cfg.planning_model_reasoning_effort->0)
            &&& p.review_use_chat_model is None ==> c.review_use_chat_model
                == cfg.review_use_chat_model
            &&& !c.review_use_chat_model && overrides.review_model is None
                && p.review_model is None && cfg.review_model is Some ==> c.review_model@
                == cfg.review_model->0@
            &&& !c.review_use_chat_model && p.review_model_reasoning_effort is None
                && cfg.review_model_reasoning_effort is Some ==> c.review_model_reasoning_effort
                == limits.spec_clamp(c.review_model@, cfg.review_model_reasoning_effort->0)
            &&& p.review_resolve_use_chat_model is None ==> c.review_resolve_use_chat_model
                == cfg.review_resolve_use_chat_model
            &&& !c.review_resolve_use_chat_model && p.review_resolve_model is None
                && cfg.review_resolve_model is Some ==> c.review_resolve_model@
                == cfg.review_resolve_model->0@
            &&& !c.review_resolve_use_chat_model && p.review_resolve_model_reasoning_effort is None
                && cfg.review_resolve_model_reasoning_effort is Some
                ==> c.review_resolve_model_reasoning_effort == limits.spec_clamp(
                c.review_resolve_model@,
                cfg.review_resolve_model_reasoning_effort->0,
            )
            &&& p.auto_review_use_chat_model is None ==> c.auto_review_use_chat_model
                == cfg.auto_review_use_chat_model
            &&& !c.auto_review_use_chat_model && p.auto_review_model is None
                && cfg.auto_review_model is Some ==> c.auto_review_model@
                == cfg.auto_review_model->0@
            &&& !c.auto_review_use_chat_model && p.auto_review_model_reasoning_effort is None
                && cfg.auto_review_model_reasoning_effort is Some
                ==> c.auto_review_model_reasoning_effort == limits.spec_clamp(
                c.auto_review_model@,
                cfg.auto_review_model_reasoning_effort->0,
            )
            &&& p.auto_review_resolve_use_chat_model is None
                ==> c.auto_review_resolve_use_chat_model == cfg.auto_review_resolve_use_chat_model
            &&& !c.auto_review_resolve_use_chat_model && p.auto_review_resolve_model is None
                && cfg.auto_review_resolve_model is Some ==> c.auto_review_resolve_model@
                == cfg.auto_review_resolve_model->0@
            &&& !c.auto_review_resolve_use_chat_model
                && p.auto_review_resolve_model_reasoning_effort is None
                && cfg.auto_review_resolve_model_reasoning_effort is Some
                ==> c.auto_review_resolve_model_reasoning_effort == limits.spec_clamp(
                c.auto_review_resolve_model@,
                cfg.auto_review_resolve_model_reasoning_effort->0,
            )
        }),
{
}

/// Where nobody chose them, the models and how much they reason are the usual ones. The
/// model that plans is the one that the user talks to, unless a model was named for
/// planning. One that mends is that model too.
pub proof fn unchosen_models_are_the_usual_ones(
    c: Config,
    cfg: ConfigToml,
    overrides: ConfigOverrides,
    code_home: String,
    facts: LoadFacts,
)
    requires
        is_config(c, cfg, overrides, code_home, facts),
    ensures
        ({
            let p = profile_of(cfg, overrides.config_profile);
            let limits = facts.effort_limits;
            &&& overrides.model is None && p.model is None && cfg.model is None ==> c.model@
                == "gpt-5.5"@
            &&& p.preferred_model_reasoning_effort is None
                && cfg.preferred_model_reasoning_effort is None && p.model_reasoning_effort is None
                && cfg.model_reasoning_effort is None ==> {
                &&& c.preferred_model_reasoning_effort is None
                &&& c.model_reasoning_effort == limits.spec_clamp(c.model@, ReasoningEffort::Medium)
            }
            &&& p.planning_use_chat_model is None && cfg.planning_use_chat_model is None ==> (
            c.planning_use_chat_model <==> p.planning_model is None && cfg.planning_model is None)
            &&& p.planning_model is None && cfg.planning_model is None ==> c.planning_model@
                == c.model@
            &&& !c.planning_use_chat_model && p.planning_model_reasoning_effort is None
                && cfg.planning_model_reasoning_effort is None ==> c.planning_model_reasoning_effort
                == limits.spec_clamp(c.planning_model@, c.model_reasoning_effort)
            &&& !c.review_use_chat_model && overrides.review_model is None && p.review_model is None
                && cfg.review_model is None ==> c.review_model@ == "gpt-5.5"@
            &&& !c.review_use_chat_model && p.review_model_reasoning_effort is None
                && cfg.review_model_reasoning_effort is None ==> c.review_model_reasoning_effort
                == limits.spec_clamp(c.review_model@, ReasoningEffort::High)
            &&& p.review_resolve_model is None && cfg.review_resolve_model is None
                ==> c.review_resolve_model@ == c.model@
            &&& !c.review_resolve_use_chat_model && p.review_resolve_model_reasoning_effort is None
                && cfg.review_resolve_model_reasoning_effort is None
                ==> c.review_resolve_model_reasoning_effort == limits.spec_clamp(
                c.review_resolve_model@,
                ReasoningEffort::High,
            )
            &&& !c.auto_review_use_chat_model && p.auto_review_model is None
                && cfg.auto_review_model is None ==> c.auto_review_model@ == "gpt-5.5"@
            &&& !c.auto_review_use_chat_model && p.auto_review_model_reasoning_effort is None
                && cfg.auto_review_model_reasoning_effort is None
                ==> c.auto_review_model_reasoning_effort == limits.spec_clamp(
                c.auto_review_model@,
                ReasoningEffort::High,
            )
            &&& p.auto_review_resolve_model is None && cfg.auto_review_resolve_model is None
                ==> c.auto_review_resolve_model@ == c.model@
            &&& !c.auto_review_resolve_use_chat_model
                && p.auto_review_resolve_model_reasoning_effort is None
                && cfg.auto_review_resolve_model_reasoning_effort is None
                ==> c.auto_review_resolve_model_reasoning_effort == limits.spec_clamp(
                c.auto_review_resolve_model@,
                ReasoningEffort::High,
            )
        }),
{
}

/// What was written holds, whatever is usual, where nothing was set for this run and
/// the profile sets nothing; and what was written for the project comes before what
/// was written for all.
pub proof fn written_comes_third(
    c: Config,
    cfg: ConfigToml,
    overrides: ConfigOverrides,
    code_home: String,
    facts: LoadFacts,
)
    requires
        is_config(c, cfg, overrides, code_home, facts),
    ensures
        ({
            let p = profile_of(cfg, overrides.config_profile);
            let project = cfg.spec_project(c.cwd@);
            &&& overrides.model is None && p.model is None && cfg.model is Some ==> c.model@
                == cfg.model->0@ && c.model_explicit
            &&& overrides.model is None && p.model is None && cfg.model is None
                ==> !c.model_explicit
            &&& overrides.model_provider is None && p.model_provider is None
                && cfg.model_provider is Some ==> c.model_provider_id@ == cfg.model_provider->0@
            &&& overrides.approval_policy is None && p.approval_policy is None ==> (
            c.approval_policy == match first_of(project_approval(project), cfg.approval_policy) {
                Some(policy) => policy,
                None => facts.defaults.approval_policy,
            })
            &&& overrides.sandbox_mode is None ==> c.sandbox_policy.view() == sandbox_of(
                value_or(
                    first_of(project_sandbox(project), cfg.sandbox_mode),
                    SandboxMode::ReadOnly,
                ),
                cfg.sandbox_workspace_write,
                facts.defaults.workspace_write.view(),
            )
            &&& cfg.model_context_window is Some ==> c.model_context_window
                == cfg.model_context_window
            &&& cfg.tool_output_max_bytes is Some ==> c.tool_output_max_bytes
                == cfg.tool_output_max_bytes->0
            &&& p.preferred_model_reasoning_effort is None
                && cfg.preferred_model_reasoning_effort is Some ==> {
                &&& c.preferred_model_reasoning_effort == cfg.preferred_model_reasoning_effort
                &&& c.model_reasoning_effort == facts.effort_limits.spec_clamp(
                    c.model@,
                    cfg.preferred_model_reasoning_effort->0,
                )
            }
            &&& p.preferred_model_reasoning_effort is None
                && cfg.preferred_model_reasoning_effort is None && p.model_reasoning_effort is None
                && cfg.model_reasoning_effort is Some ==> {
                &&& c.preferred_model_reasoning_effort == cfg.model_reasoning_effort
                &&& c.model_reasoning_effort == facts.effort_limits.spec_clamp(
                    c.model@,
                    cfg.model_reasoning_effort->0,
                )
            }
            &&& overrides.approval_policy is None && p.approval_policy is None && project is Some
                && project->0.approval_policy is Some ==> c.approval_policy
                == project->0.approval_policy->0
            &&& overrides.approval_policy is None && p.approval_policy is None && (project is None
                || project->0.approval_policy is None) && cfg.approval_policy is Some
                ==> c.approval_policy == cfg.approval_policy->0
            &&& p.service_tier is None && cfg.service_tier == Some(ServiceTier::Fast)
                ==> c.service_tier == Some(ServiceTier::Fast)
            &&& p.service_tier is None && cfg.service_tier == Some(ServiceTier::Flex)
                ==> c.service_tier == Some(ServiceTier::Flex)
            &&& p.service_tier is None && (cfg.service_tier is None || cfg.service_tier == Some(
                ServiceTier::Standard,
            )) ==> c.service_tier is None
            &&& p.model_reasoning_summary is None && cfg.model_reasoning_summary is Some
                ==> c.model_reasoning_summary == cfg.model_reasoning_summary->0
            &&& p.model_text_verbosity is None && cfg.model_text_verbosity is Some
                ==> c.model_text_verbosity == cfg.model_text_verbosity->0
            &&& p.model_personality is None ==> c.model_personality == cfg.model_personality
            &&& p.context_mode is None && cfg.context_mode is Some ==> c.context_mode
                == cfg.context_mode
            &&& p.chatgpt_base_url is None && cfg.chatgpt_base_url is Some
                ==> c.chatgpt_base_url@ == cfg.chatgpt_base_url->0@
            &&& overrides.disable_response_storage is None && p.disable_response_storage is None
                && cfg.disable_response_storage is Some ==> c.disable_response_storage
                == cfg.disable_response_storage->0
            &&& overrides.show_raw_agent_reasoning is None && cfg.show_raw_agent_reasoning is Some
                ==> c.show_raw_agent_reasoning == cfg.show_raw_agent_reasoning->0
            &&& overrides.compact_prompt_override is None && p.compact_prompt_override is None
                && cfg.compact_prompt_override is Some ==> c.compact_prompt_override
                == cfg.compact_prompt_override
            &&& overrides.compact_prompt_override is None && p.compact_prompt_override is None
                && cfg.compact_prompt_override is None ==> Ok::<_, ConfigError>(
                c.compact_prompt_override,
            ) == facts.file_compact_prompt || facts.file_compact_prompt is Err
            &&& overrides.base_instructions is None ==> Ok::<_, ConfigError>(c.base_instructions)
                == facts.file_base_instructions || facts.file_base_instructions is Err
            &&& p.auto_switch_accounts_on_rate_limit is None
                && cfg.auto_switch_accounts_on_rate_limit is Some
                ==> c.auto_switch_accounts_on_rate_limit
                == cfg.auto_switch_accounts_on_rate_limit->0
            &&& p.api_key_fallback_on_all_accounts_limited is None
                && cfg.api_key_fallback_on_all_accounts_limited is Some
                ==> c.api_key_fallback_on_all_accounts_limited
                == cfg.api_key_fallback_on_all_accounts_limited->0
            &&& cfg.model_max_output_tokens is Some ==> c.model_max_output_tokens
                == cfg.model_max_output_tokens
            &&& cfg.model_auto_compact_token_limit is Some ==> c.model_auto_compact_token_limit
                == cfg.model_auto_compact_token_limit
            &&& cfg.project_doc_max_bytes is Some ==> c.project_doc_max_bytes
                == cfg.project_doc_max_bytes->0
            &&& cfg.responses_originator_header_internal_override is Some
                ==> c.responses_originator_header@
                == cfg.responses_originator_header_internal_override->0@
            &&& overrides.config_profile is None && cfg.profile is Some ==> c.active_profile is Some
                && c.active_profile->0@ == cfg.profile->0@
        }),
{
}

/// Of what neither a run nor a profile sets, what was written holds.
pub proof fn written_switches_hold(
    c: Config,
    cfg: ConfigToml,
    overrides: ConfigOverrides,
    code_home: String,
    facts: LoadFacts,
)
    requires
        is_config(c, cfg, overrides, code_home, facts),
    ensures
        cfg.hide_agent_reasoning is Some ==> c.hide_agent_reasoning == cfg.hide_agent_reasoning->0,
        cfg.auto_upgrade_enabled is Some ==> c.auto_upgrade_enabled == cfg.auto_upgrade_enabled->0,
        c.notify == cfg.notify,
        cfg.notice is Some ==> c.notices == cfg.notice->0,
        cfg.history is Some ==> c.history == cfg.history->0,
        cfg.file_opener is Some ==> c.file_opener == cfg.file_opener->0,
        cfg.tui is Some ==> c.tui == cfg.tui->0,
        cfg.github is Some ==> c.github == cfg.github->0,
        cfg.validation is Some ==> c.validation == cfg.validation->0,
        c.experimental_resume == cfg.experimental_resume,
        c.shell_environment_policy == cfg.shell_environment_policy,
        cfg.experimental_use_exec_command_tool is Some ==> c.use_experimental_streamable_shell_tool
            == cfg.experimental_use_exec_command_tool->0,
        cfg.memories is Some ==> c.memories == cfg.memories->0,
        cfg.auto_drive_use_chat_model is Some ==> c.auto_drive_use_chat_model
            == cfg.auto_drive_use_chat_model->0,
        cfg.auto_drive_observer_cadence is Some ==> c.auto_drive_observer_cadence
            == cfg.auto_drive_observer_cadence->0,
        cfg.features matches Some(f) ==> {
            &&& f.skills is Some ==> c.skills_enabled == f.skills->0
            &&& f.memories is Some ==> c.memories_enabled == f.memories->0
        },
        cfg.tools matches Some(t) ==> {
            &&& overrides.tools_web_search_request is None && t.web_search is Some
                ==> c.tools_web_search_request == t.web_search->0
            &&& overrides.include_view_image_tool is None && t.view_image is Some
                ==> c.include_view_image_tool == t.view_image->0
            &&& t.web_search_external is Some ==> c.tools_web_search_external
                == t.web_search_external->0
            &&& t.web_search_indexed is Some ==> c.tools_web_search_indexed
                == t.web_search_indexed->0
            &&& t.search_tool is Some ==> c.tools_search_tool == t.search_tool->0
            &&& t.web_search_allowed_domains is None ==> c.tools_web_search_allowed_domains is None
            &&& t.web_search_allowed_domains is Some
                ==> c.tools_web_search_allowed_domains is Some && texts(
                c.tools_web_search_allowed_domains->0@,
            ) == texts(t.web_search_allowed_domains->0@)
        },
        cfg.otel matches Some(t) ==> {
            &&& t.log_user_prompt is Some ==> c.otel.log_user_prompt == t.log_user_prompt->0
            &&& t.environment is Some ==> c.otel.environment@ == t.environment->0@
            &&& t.exporter is Some ==> c.otel.exporter == t.exporter->0
        },
        cfg.subagents matches Some(a) ==> {
            &&& a.max_depth is Some ==> c.subagent_max_depth == a.max_depth->0
            &&& c.subagent_commands@ == a.commands@
        },
        overrides.mcp_servers is None ==> c.mcp_servers@ == cfg.mcp_servers@,
        overrides.experimental_client_tools is None ==> c.experimental_client_tools
            == cfg.experimental_client_tools,
        overrides.dynamic_tools is None && cfg.dynamic_tools is Some ==> c.dynamic_tools@
            == cfg.dynamic_tools->0@,
{
}

/// Where nobody says anything of a thing, it is as is usual.
pub proof fn usual_comes_last(
    c: Config,
    cfg: ConfigToml,
    overrides: ConfigOverrides,
    code_home: String,
    facts: LoadFacts,
)
    requires
        is_config(c, cfg, overrides, code_home, facts),
    ensures
        ({
            let p = profile_of(cfg, overrides.config_profile);
            let project = cfg.spec_project(c.cwd@);
            &&& overrides.model_provider is None && p.model_provider is None
                && cfg.model_provider is None ==> c.model_provider_id@ == "openai"@
            &&& overrides.approval_policy is None && p.approval_policy is None && (project is None
                || project->0.approval_policy is None) && cfg.approval_policy is None
                ==> c.approval_policy == facts.defaults.approval_policy
            &&& p.context_mode is None && cfg.context_mode is None ==> c.context_mode == Some(
                ContextMode::Auto,
            )
            &&& p.chatgpt_base_url is None && cfg.chatgpt_base_url is None
                ==> c.chatgpt_base_url@ == "https://chatgpt.com/backend-api/"@
            &&& p.model_reasoning_summary is None && cfg.model_reasoning_summary is None
                ==> c.model_reasoning_summary == facts.defaults.model_reasoning_summary
            &&& p.model_text_verbosity is None && cfg.model_text_verbosity is None
                ==> c.model_text_verbosity == facts.defaults.model_text_verbosity
            &&& overrides.disable_response_storage is None && p.disable_response_storage is None
                && cfg.disable_response_storage is None ==> c.disable_response_storage
            &&& p.auto_switch_accounts_on_rate_limit is None
                && cfg.auto_switch_accounts_on_rate_limit is None
                ==> c.auto_switch_accounts_on_rate_limit
            &&& p.api_key_fallback_on_all_accounts_limited is None
                && cfg.api_key_fallback_on_all_accounts_limited is None
                ==> !c.api_key_fallback_on_all_accounts_limited
        }),
        overrides.show_raw_agent_reasoning is None && cfg.show_raw_agent_reasoning is None
            ==> !c.show_raw_agent_reasoning,
        overrides.include_plan_tool is None ==> !c.include_plan_tool,
        overrides.include_apply_patch_tool is None ==> c.include_apply_patch_tool
            == facts.is_windows,
        overrides.debug is None ==> !c.debug,
        overrides.config_profile is None && cfg.profile is None ==> c.active_profile is None,
        cfg.hide_agent_reasoning is None ==> !c.hide_agent_reasoning,
        cfg.auto_upgrade_enabled is None ==> !c.auto_upgrade_enabled,
        cfg.experimental_use_exec_command_tool is None
            ==> !c.use_experimental_streamable_shell_tool,
        cfg.auto_drive_use_chat_model is None ==> !c.auto_drive_use_chat_model,
        cfg.auto_drive_observer_cadence is None ==> c.auto_drive_observer_cadence == 5,
        cfg.project_doc_max_bytes is None ==> c.project_doc_max_bytes == 32 * 1024,
        cfg.features is None ==> c.skills_enabled && !c.memories_enabled,
        cfg.features matches Some(f) ==> (f.skills is None ==> c.skills_enabled) && (
        f.memories is None ==> !c.memories_enabled),
        cfg.tools is None ==> {
            &&& c.tools_web_search_external && !c.tools_web_search_indexed && !c.tools_search_tool
            &&& c.tools_web_search_allowed_domains is None
            &&& overrides.tools_web_search_request is None ==> !c.tools_web_search_request
            &&& overrides.include_view_image_tool is None ==> c.include_view_image_tool
        },
        cfg.tools matches Some(t) ==> {
            &&& t.web_search_external is None ==> c.tools_web_search_external
            &&& t.web_search_indexed is None ==> !c.tools_web_search_indexed
            &&& t.search_tool is None ==> !c.tools_search_tool
            &&& overrides.tools_web_search_request is None && t.web_search is None
                ==> !c.tools_web_search_request
            &&& overrides.include_view_image_tool is None && t.view_image is None
                ==> c.include_view_image_tool
        },
        cfg.subagents is None ==> c.subagent_max_depth == 1 && c.subagent_commands@.len() == 0,
        cfg.subagents matches Some(a) ==> (a.max_depth is None ==> c.subagent_max_depth == 1),
        cfg.file_opener is None ==> c.file_opener is VsCode,
        cfg.otel is None ==> !c.otel.log_user_prompt && c.otel.exporter is Off
            && c.otel.environment@ == facts.defaults.otel_environment@,
        cfg.otel matches Some(t) ==> {
            &&& t.log_user_prompt is None ==> !c.otel.log_user_prompt
            &&& t.environment is None ==> c.otel.environment@ == facts.defaults.otel_environment@
            &&& t.exporter is None ==> c.otel.exporter is Off
        },
        overrides.dynamic_tools is None && cfg.dynamic_tools is None ==> c.dynamic_tools@.len()
            == 0,
        cfg.model_context_window is None ==> c.model_context_window == facts.context_window,
        cfg.model_auto_compact_token_limit is None ==> c.model_auto_compact_token_limit
            == facts.auto_compact_token_limit,
        cfg.model_max_output_tokens is None ==> c.model_max_output_tokens
            == facts.model_family.max_output_tokens,
        cfg.tool_output_max_bytes is None ==> c.tool_output_max_bytes
            == facts.family_tool_output_max_bytes,
        cfg.memories is None ==> c.memories == facts.defaults.memories,
        cfg.tui is None ==> c.tui == facts.defaults.tui,
        cfg.history is None ==> c.history == facts.defaults.history,
        cfg.notice is None ==> c.notices == facts.defaults.notices,
        cfg.github is None ==> c.github == facts.defaults.github,
        cfg.validation is None ==> c.validation == facts.defaults.validation,
        cfg.responses_originator_header_internal_override is None
            ==> c.responses_originator_header@ == facts.defaults.responses_originator_header@,
        c.max_run_seconds is None && c.max_run_deadline is None && !c.timeboxed_exec_mode,
        c.code_home == code_home,
        c.user_instructions == facts.user_instructions,
        c.demo_developer_message is None,
        c.using_chatgpt_auth == facts.using_chatgpt_auth,
        c.agents == facts.agents,
        c.model_family == facts.model_family,
        c.retention == facts.defaults.retention,
        c.env_ctx_v2 == facts.env_ctx_v2,
{
}

/// The user is told of what the settings for the screen say, else of nothing.
pub proof fn notifications_are_the_screens(
    c: Config,
    cfg: ConfigToml,
    overrides: ConfigOverrides,
    code_home: String,
    facts: LoadFacts,
)
    requires
        is_config(c, cfg, overrides, code_home, facts),
    ensures
        cfg.tui is None ==> (c.tui_notifications matches Notifications::Enabled(b) && !b),
        cfg.tui matches Some(t) ==> match t.notifications {
            Notifications::Enabled(b) => c.tui_notifications matches Notifications::Enabled(d) && d
                == b,
            Notifications::Custom(v) => c.tui_notifications matches Notifications::Custom(w)
                && texts(w@) == texts(v@),
        },
{
    assert(c.tui_notifications.view() is Enabled <==> c.tui_notifications is Enabled);
    if let Some(t) = cfg.tui {
        assert(t.notifications.view() is Enabled <==> t.notifications is Enabled);
        assert(c.tui_notifications.view() == t.notifications.view());
    }
}

/// The profile that is asked for is the one of that name: for this run, else in what was
/// written. Where none is asked for, nothing is set.
pub proof fn asked_profile_is_the_one_of_that_name(cfg: ConfigToml, asked: Option<String>)
    ensures
        asked matches Some(key) ==> profile_of(cfg, asked) == cfg.profiles@[key@] && (
        profile_exists(cfg, asked) <==> cfg.profiles@.contains_key(key@)),
        asked is None && cfg.profile is Some ==> profile_of(cfg, asked)
            == cfg.profiles@[cfg.profile->0@] && (profile_exists(cfg, asked)
            <==> cfg.profiles@.contains_key(cfg.profile->0@)),
        asked is None && cfg.profile is None ==> {
            let p = profile_of(cfg, asked);
            &&& profile_exists(cfg, asked)
            &&& p.model is None && p.model_provider is None && p.approval_policy is None
            &&& p.disable_response_storage is None && p.model_reasoning_effort is None
            &&& p.preferred_model_reasoning_effort is None && p.model_reasoning_summary is None
            &&& p.model_text_verbosity is None && p.model_personality is None
            &&& p.context_mode is None && p.service_tier is None && p.chatgpt_base_url is None
            &&& p.experimental_instructions_file is None && p.compact_prompt_override is None
            &&& p.compact_prompt_override_file is None && p.planning_model is None
            &&& p.planning_model_reasoning_effort is None && p.planning_use_chat_model is None
            &&& p.review_model is None && p.review_model_reasoning_effort is None
            &&& p.review_use_chat_model is None && p.review_resolve_model is None
            &&& p.review_resolve_model_reasoning_effort is None
            &&& p.review_resolve_use_chat_model is None && p.auto_review_model is None
            &&& p.auto_review_model_reasoning_effort is None
            &&& p.auto_review_use_chat_model is None && p.auto_review_resolve_model is None
            &&& p.auto_review_resolve_model_reasoning_effort is None
            &&& p.auto_review_resolve_use_chat_model is None
            &&& p.auto_switch_accounts_on_rate_limit is None
            &&& p.api_key_fallback_on_all_accounts_limited is None
        },
{
}

/// What was written for a project is what was written under its very path, and a project
/// is trusted where that says so.
pub proof fn project_is_the_one_of_that_path(cfg: ConfigToml, path: Seq<char>)
    ensures
        cfg.spec_project(path) is Some <==> cfg.projects is Some
            && cfg.projects->0@.contains_key(path),
        cfg.spec_project(path) is Some ==> cfg.spec_project(path)->0 == cfg.projects->0@[path],
        cfg.trusts(path) <==> cfg.projects is Some && cfg.projects->0@.contains_key(path)
            && cfg.projects->0@[path].trust_level is Some
            && cfg.projects->0@[path].trust_level->0@ == "trusted"@,
{
}

/// What a command may do is what the mode says that was set for this run, else for the
/// project, else for all; where none was, it may only read. What it may do in a
/// workspace is what was written of it.
pub proof fn sandbox_is_the_mode_that_was_set(
    c: Config,
    cfg: ConfigToml,
    overrides: ConfigOverrides,
    code_home: String,
    facts: LoadFacts,
    mode: SandboxMode,
)
    requires
        is_config(c, cfg, overrides, code_home, facts),
        ({
            let project = cfg.spec_project(c.cwd@);
            let for_project = project is Some && project->0.sandbox_mode is Some;
            ||| overrides.sandbox_mode == Some(mode)
            ||| overrides.sandbox_mode is None && for_project && project->0.sandbox_mode == Some(
                mode,
            )
            ||| overrides.sandbox_mode is None && !for_project && cfg.sandbox_mode == Some(mode)
            ||| overrides.sandbox_mode is None && !for_project && cfg.sandbox_mode is None && mode
                == SandboxMode::ReadOnly
        }),
    ensures
        mode == SandboxMode::ReadOnly ==> c.sandbox_policy is ReadOnly,
        mode == SandboxMode::DangerFullAccess ==> c.sandbox_policy is DangerFullAccess,
        mode == SandboxMode::WorkspaceWrite && cfg.sandbox_workspace_write is None
            ==> c.sandbox_policy.view() == facts.defaults.workspace_write.view(),
        mode == SandboxMode::WorkspaceWrite ==> (cfg.sandbox_workspace_write matches Some(w) ==> {
            &&& c.sandbox_policy is WorkspaceWrite
            &&& texts(c.sandbox_policy->writable_roots@) == texts(w.writable_roots@)
            &&& c.sandbox_policy->network_access == w.network_access
            &&& c.sandbox_policy->exclude_tmpdir_env_var == w.exclude_tmpdir_env_var
            &&& c.sandbox_policy->exclude_slash_tmp == w.exclude_slash_tmp
            &&& c.sandbox_policy->allow_git_writes == w.allow_git_writes
        }),
{
    let v = c.sandbox_policy.view();
    assert(v is ReadOnly <==> c.sandbox_policy is ReadOnly);
    assert(v is DangerFullAccess <==> c.sandbox_policy is DangerFullAccess);
    assert(v is WorkspaceWrite <==> c.sandbox_policy is WorkspaceWrite);
}

/// A command that was allowed for the project is run without asking, unless it is empty.
pub proof fn allowed_commands_are_approved(
    c: Config,
    cfg: ConfigToml,
    overrides: ConfigOverrides,
    code_home: String,
    facts: LoadFacts,
    commands: Seq<AllowedCommand>,
    i: int,
)
    requires
        is_config(c, cfg, overrides, code_home, facts),
        cfg.projects matches Some(m) && m@.contains_key(c.cwd@) && (
        m@[c.cwd@].always_allow_commands matches Some(v) && v@ == commands),
        0 <= i < commands.len(),
        commands[i].argv@.len() > 0,
    ensures
        exists|j: int|
            0 <= j < c.always_allow_commands@.len() && is_approval_of(
                #[trigger] c.always_allow_commands@[j],
                commands[i],
            ),
{
    let views = c.always_allow_commands@.map_values(|p: ApprovedCommandPattern| approved_view(p));
    assert(cfg.spec_project(c.cwd@) is Some);
    assert(views == approved(commands));
    let j = approved_holds(commands, i);
    assert(views[j] == approved_view(c.always_allow_commands@[j]));
    assert(is_approval_of(c.always_allow_commands@[j], commands[i]));
}

/// Only a command that was allowed for the project is run without asking.
pub proof fn approved_commands_were_allowed(
    c: Config,
    cfg: ConfigToml,
    overrides: ConfigOverrides,
    code_home: String,
    facts: LoadFacts,
    j: int,
)
    requires
        is_config(c, cfg, overrides, code_home, facts),
        0 <= j < c.always_allow_commands@.len(),
    ensures
        cfg.projects is Some,
        cfg.projects->0@.contains_key(c.cwd@),
        cfg.projects->0@[c.cwd@].always_allow_commands is Some,
        ({
            let commands = cfg.projects->0@[c.cwd@].always_allow_commands->0@;
            exists|i: int|
                0 <= i < commands.len() && (#[trigger] commands[i]).argv@.len() > 0
                    && is_approval_of(c.always_allow_commands@[j], commands[i])
        }),
{
    let views = c.always_allow_commands@.map_values(|p: ApprovedCommandPattern| approved_view(p));
    assert(views[j] == approved_view(c.always_allow_commands@[j]));
    assert(views == approved_for(cfg.spec_project(c.cwd@)));
    assert(views.len() > 0);
    let commands = cfg.projects->0@[c.cwd@].always_allow_commands->0@;
    let i = approved_source(commands, j);
    assert(commands[i].argv@.len() > 0 && is_approval_of(
        c.always_allow_commands@[j],
        commands[i],
    ));
}

/// The command is run without asking as it was allowed: its very words, or whatever
/// begins with them.
pub open spec fn is_approval_of(p: ApprovedCommandPattern, allowed: AllowedCommand) -> bool {
    &&& texts(p.argv@) == texts(allowed.argv@)
    &&& p.kind == allowed.match_kind
    &&& allowed.match_kind == AllowedCommandMatchKind::Exact ==> p.semantic_prefix is None
    &&& allowed.match_kind == AllowedCommandMatchKind::Prefix ==> p.semantic_prefix is Some
        && texts(p.semantic_prefix->0@) == texts(allowed.argv@)
}

proof fn approved_holds(commands: Seq<AllowedCommand>, i: int) -> (j: int)
    requires
        0 <= i < commands.len(),
        commands[i].argv@.len() > 0,
    ensures
        0 <= j < approved(commands).len(),
        approved(commands)[j].argv == texts(commands[i].argv@),
        approved(commands)[j].kind == commands[i].match_kind,
        approved(commands)[j].semantic_prefix == match commands[i].match_kind {
            AllowedCommandMatchKind::Prefix => Some(texts(commands[i].argv@)),
            AllowedCommandMatchKind::Exact => None,
        },
    decreases commands.len(),
{
    if i == commands.len() - 1 {
        approved(commands).len() - 1
    } else {
        approved_holds(commands.drop_last(), i)
    }
}

proof fn approved_source(commands: Seq<AllowedCommand>, j: int) -> (i: int)
    requires
        0 <= j < approved(commands).len(),
    ensures
        0 <= i < commands.len(),
        commands[i].argv@.len() > 0,
        approved(commands)[j].argv == texts(commands[i].argv@),
        approved(commands)[j].kind == commands[i].match_kind,
        approved(commands)[j].semantic_prefix == match commands[i].match_kind {
            AllowedCommandMatchKind::Prefix => Some(texts(commands[i].argv@)),
            AllowedCommandMatchKind::Exact => None,
        },
    decreases commands.len(),
{
    let before = approved(commands.drop_last());
    if j < before.len() {
        approved_source(commands.drop_last(), j)
    } else {
        commands.len() - 1
    }
}

/// The hooks and the commands of a project are in use where something was written for
/// it, and only there.
pub proof fn project_hooks_need_a_project(
    c: Config,
    cfg: ConfigToml,
    overrides: ConfigOverrides,
    code_home: String,
    facts: LoadFacts,
)
    requires
        is_config(c, cfg, overrides, code_home, facts),
    ensures
        ({
            let written = cfg.projects is Some && cfg.projects->0@.contains_key(c.cwd@);
            &&& written ==> c.project_hooks@ == facts.project_hooks@ && c.project_commands@
                == facts.project_commands@
            &&& !written ==> c.project_hooks@.len() == 0 && c.project_commands@.len() == 0
        }),
        facts.cwd matches Ok(cwd) ==> c.cwd == cwd,
{
}

/// Whatever is usual, what the user wrote is confirmed too, and comes after it.
pub proof fn confirmed_patterns_add_up(
    c: Config,
    cfg: ConfigToml,
    overrides: ConfigOverrides,
    code_home: String,
    facts: LoadFacts,
)
    requires
        is_config(c, cfg, overrides, code_home, facts),
    ensures
        ({
            let usual = facts.defaults.confirm_patterns@;
            let all = c.confirm_guard.patterns@;
            &&& all.len() >= usual.len()
            &&& forall|i: int| 0 <= i < usual.len() ==> #[trigger] all[i] == usual[i]
            &&& cfg.confirm_guard is None ==> all.len() == usual.len()
            &&& cfg.confirm_guard matches Some(guard) ==> {
                &&& all.len() == usual.len() + guard.patterns@.len()
                &&& forall|i: int|
                    0 <= i < guard.patterns@.len() ==> #[trigger] guard.patterns@[i]
                        == all[usual.len() + i]
            }
        }),
{
}

/// Every provider is known, the built-in ones and the user's, and so is every file that is
/// looked for beside the usual one.
pub proof fn providers_and_files_are_known(
    c: Config,
    cfg: ConfigToml,
    overrides: ConfigOverrides,
    code_home: String,
    facts: LoadFacts,
    key: Seq<char>,
)
    requires
        is_config(c, cfg, overrides, code_home, facts),
    ensures
        facts.built_in_providers@.contains_key(key) ==> c.model_providers@.contains_key(key)
            && c.model_providers@[key] == facts.built_in_providers@[key],
        !facts.built_in_providers@.contains_key(key) && cfg.model_providers@.contains_key(key)
            ==> c.model_providers@.contains_key(key) && c.model_providers@[key]
            == cfg.model_providers@[key],
        c.model_providers@.contains_key(key) ==> facts.built_in_providers@.contains_key(key)
            || cfg.model_providers@.contains_key(key),
        cfg.project_doc_fallback_filenames is None ==> c.project_doc_fallback_filenames@.len() == 0,
        cfg.project_doc_fallback_filenames matches Some(names) ==> texts(
            c.project_doc_fallback_filenames@,
        ) == named_files(texts(names@)),
{
    assert(texts(c.project_doc_fallback_filenames@).len()
        == c.project_doc_fallback_filenames@.len());
}

/// The provider that is used is the one of that name: a built-in one, else the user's.
pub proof fn provider_is_the_one_of_that_name(
    c: Config,
    cfg: ConfigToml,
    overrides: ConfigOverrides,
    code_home: String,
    facts: LoadFacts,
)
    requires
        is_config(c, cfg, overrides, code_home, facts),
        facts.built_in_providers@.contains_key(c.model_provider_id@)
            || cfg.model_providers@.contains_key(c.model_provider_id@),
    ensures
        ({
            let id = c.model_provider_id@;
            let expected = if facts.built_in_providers@.contains_key(id) {
                facts.built_in_providers@[id]
            } else {
                cfg.model_providers@[id]
            };
            &&& c.model_provider.definition.view() == expected.definition.view()
            &&& opt_text(c.model_provider.problem) == opt_text(expected.problem)
        }),
{
}

/// Asking for no profile is asking for the one that was written.
pub proof fn written_profile_is_asked_for(cfg: ConfigToml)
    ensures
        profile_exists(cfg, None) == profile_exists(cfg, cfg.profile),
        profile_of(cfg, None) == profile_of(cfg, cfg.profile),
{
}

/// A profile that is not there is always refused.
pub proof fn missing_profile_is_refused(
    cfg: ConfigToml,
    overrides: ConfigOverrides,
    facts: LoadFacts,
    problems: Seq<Option<String>>,
)
    requires
        !profile_exists(cfg, overrides.config_profile),
    ensures
        load_error(cfg, overrides, facts, problems) matches Some((kind, _)) && kind
            == ConfigErrorKind::NotFound,
{
}

/// So is a provider under a name that is taken.
pub proof fn taken_provider_is_refused(
    cfg: ConfigToml,
    overrides: ConfigOverrides,
    facts: LoadFacts,
    problems: Seq<Option<String>>,
    i: int,
)
    requires
        0 <= i < 2,
        cfg.model_providers@.contains_key(reserved_ids()[i]),
    ensures
        load_error(cfg, overrides, facts, problems) is Some,
{
    broadcast use vstd::seq_lib::group_filter_ensures;

    let keep = |k: Seq<char>| cfg.model_providers@.contains_key(k);
    assert(keep(reserved_ids()[i]));
    assert(reserved_ids().contains(reserved_ids()[i]));
    assert(reserved_used(cfg.model_providers@).contains(reserved_ids()[i]));
}

/// No provider of the user's replaces a built-in one, and none gets lost.
pub proof fn built_in_providers_stay(
    built_in: Map<Seq<char>, ModelProviderInfo>,
    user: Map<Seq<char>, ModelProviderInfo>,
    key: Seq<char>,
)
    ensures
        built_in.contains_key(key) ==> merged(built_in, user).contains_key(key) && merged(
            built_in,
            user,
        )[key] == built_in[key],
        user.contains_key(key) && !built_in.contains_key(key) ==> merged(
            built_in,
            user,
        ).contains_key(key) && merged(built_in, user)[key] == user[key],
        merged(built_in, user).contains_key(key) ==> built_in.contains_key(key)
            || user.contains_key(key),
{
}

/// Where a model reasons as it did when it is asked for what it was granted, each
/// model that follows the one that the user talks to is that model and reasons as
/// much.
pub proof fn followers_follow(
    c: Config,
    cfg: ConfigToml,
    overrides: ConfigOverrides,
    code_home: String,
    facts: LoadFacts,
)
    requires
        is_config(c, cfg, overrides, code_home, facts),
        facts.effort_limits.spec_clamp(c.model@, c.model_reasoning_effort)
            == c.model_reasoning_effort,
    ensures
        c.planning_use_chat_model ==> c.planning_model@ == c.model@
            && c.planning_model_reasoning_effort == c.model_reasoning_effort,
        c.review_use_chat_model ==> c.review_model@ == c.model@ && c.review_model_reasoning_effort
            == c.model_reasoning_effort,
        c.review_resolve_use_chat_model ==> c.review_resolve_model@ == c.model@
            && c.review_resolve_model_reasoning_effort == c.model_reasoning_effort,
        c.auto_review_use_chat_model ==> c.auto_review_model@ == c.model@
            && c.auto_review_model_reasoning_effort == c.model_reasoning_effort,
        c.auto_review_resolve_use_chat_model ==> c.auto_review_resolve_model@ == c.model@
            && c.auto_review_resolve_model_reasoning_effort == c.model_reasoning_effort,
        c.auto_drive_use_chat_model ==> c.auto_drive.model@ == c.model@
            && c.auto_drive.model_reasoning_effort == c.model_reasoning_effort,
{
    assert(c.auto_drive.view().model == c.auto_drive.model@);
    assert(c.auto_drive.view().model_reasoning_effort == c.auto_drive.model_reasoning_effort);
}

/// The two say the same of this model.
pub open spec fn agree_on(a: EffortLimits, b: EffortLimits, model: Seq<char>) -> bool {
    forall|e: ReasoningEffort| #[trigger] a.spec_clamp(model, e) == b.spec_clamp(model, e)
}

/// How much a model reasons that does nothing decides nothing: where two tables agree
/// on the models that do something, the choices are the same.
pub proof fn only_models_in_use_count(
    profile: ConfigProfile,
    cfg: ConfigToml,
    model: Option<String>,
    review_model: Option<String>,
    using_chatgpt_auth: bool,
    a: EffortLimits,
    b: EffortLimits,
)
    requires
        forall|i: int|
            0 <= i < 6 ==> agree_on(
                a,
                b,
                #[trigger] role_models(
                    roles_of(profile, cfg, model, review_model, using_chatgpt_auth, a),
                )[i],
            ),
    ensures
        roles_of(profile, cfg, model, review_model, using_chatgpt_auth, a) == roles_of(
            profile,
            cfg,
            model,
            review_model,
            using_chatgpt_auth,
            b,
        ),
{
    let r = roles_of(profile, cfg, model, review_model, using_chatgpt_auth, a);
    let m = role_models(r);
    assert(agree_on(a, b, m[0]) && agree_on(a, b, m[1]) && agree_on(a, b, m[2]) && agree_on(
        a,
        b,
        m[3],
    ) && agree_on(a, b, m[4]) && agree_on(a, b, m[5]));
}

/// Where this program may choose a model for a task, there is one to choose, as long
/// as there are usual ones.
pub proof fn routing_has_a_choice(
    c: Config,
    cfg: ConfigToml,
    overrides: ConfigOverrides,
    code_home: String,
    facts: LoadFacts,
)
    requires
        is_config(c, cfg, overrides, code_home, facts),
        c.auto_drive.model_routing_enabled,
        facts.defaults.model_routing_entries@.len() > 0,
    ensures
        any_enabled(c.auto_drive.view().model_routing_entries),
        exists|i: int|
            0 <= i < c.auto_drive.model_routing_entries@.len() && (
            #[trigger] c.auto_drive.model_routing_entries@[i]).enabled,
{
    let written = crate::config::written_auto_drive(
        cfg,
        facts.defaults.auto_drive,
        facts.using_chatgpt_auth,
    );
    assert(c.auto_drive.view().model_routing_enabled);
    one_entry_is_in_use(
        written.model_routing_entries,
        crate::config_routing::entry_views(facts.defaults.model_routing_entries@),
    );
    let views = c.auto_drive.view().model_routing_entries;
    let i = choose|i: int| 0 <= i < views.len() && (#[trigger] views[i]).enabled;
    assert(views[i] == c.auto_drive.model_routing_entries@[i].view());
    assert(c.auto_drive.model_routing_entries@[i].enabled);
}

/// Agents can start agents in every configuration.
pub proof fn depth_is_positive(
    c: Config,
    cfg: ConfigToml,
    overrides: ConfigOverrides,
    code_home: String,
    facts: LoadFacts,
    problems: Seq<Option<String>>,
)
    requires
        load_error(cfg, overrides, facts, problems) is None,
        is_config(c, cfg, overrides, code_home, facts),
    ensures
        c.subagent_max_depth >= 1,
{
    assert(depth_of(cfg) >= 1);
}

} // verus!
