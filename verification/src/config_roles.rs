//! Which model does what, and how much it reasons.

use crate::config_parts::{clone_opt, first, first_of, text_or, text_or_else, value_or};
use crate::config_routing::EffortLimits;
use crate::config_types::{ConfigProfile, ConfigToml};
use crate::protocol::ReasoningEffort;
use vstd::prelude::*;

verus! {

/// The model that is used where none was chosen.
pub const OPENAI_DEFAULT_MODEL: &'static str = "gpt-5.5";

/// The model that reviews where none was chosen.
pub const OPENAI_DEFAULT_REVIEW_MODEL: &'static str = "gpt-5.5";

/// The model that is used, by one who is signed in with an account, where none was
/// chosen.
pub const GPT_5_CODEX_MEDIUM_MODEL: &'static str = "gpt-5.5";

/// The model that the user talks to.
#[derive(Debug, PartialEq, Eq)]
pub struct ChatChoice {
    pub model: String,
    /// The user chose it.
    pub explicit: bool,
    /// How much it would reason, if it could.
    pub preferred: Option<ReasoningEffort>,
    /// How much it reasons.
    pub effort: ReasoningEffort,
}

/// The model that the user talks to.
pub struct ChatView {
    pub model: Seq<char>,
    pub explicit: bool,
    pub preferred: Option<ReasoningEffort>,
    pub effort: ReasoningEffort,
}

impl ChatChoice {
    /// What was chosen.
    pub open spec fn view(&self) -> ChatView {
        ChatView {
            model: self.model@,
            explicit: self.explicit,
            preferred: self.preferred,
            effort: self.effort,
        }
    }
}

/// A model that does something else.
#[derive(Debug, PartialEq, Eq)]
pub struct RoleChoice {
    pub model: String,
    pub effort: ReasoningEffort,
    /// It is the model that the user talks to.
    pub use_chat_model: bool,
}

/// A model that does something else.
pub struct RoleView {
    pub model: Seq<char>,
    pub effort: ReasoningEffort,
    pub use_chat_model: bool,
}

impl RoleChoice {
    /// What was chosen.
    pub open spec fn view(&self) -> RoleView {
        RoleView { model: self.model@, effort: self.effort, use_chat_model: self.use_chat_model }
    }
}

/// The model that is used where none was chosen.
pub open spec fn default_model(using_chatgpt_auth: bool) -> Seq<char> {
    if using_chatgpt_auth {
        GPT_5_CODEX_MEDIUM_MODEL@
    } else {
        OPENAI_DEFAULT_MODEL@
    }
}

/// The model that the user talks to: the one for this run, else the profile's, else
/// the one that was written, else the usual one.
pub open spec fn chat_of(
    profile: ConfigProfile,
    cfg: ConfigToml,
    model: Option<String>,
    using_chatgpt_auth: bool,
    limits: EffortLimits,
) -> ChatView {
    let chosen = first_of(model, first_of(profile.model, cfg.model));
    let name = text_or(chosen, default_model(using_chatgpt_auth));
    let preferred = first_of(
        profile.preferred_model_reasoning_effort,
        first_of(
            cfg.preferred_model_reasoning_effort,
            first_of(profile.model_reasoning_effort, cfg.model_reasoning_effort),
        ),
    );
    ChatView {
        model: name,
        explicit: chosen is Some,
        preferred,
        effort: limits.spec_clamp(name, value_or(preferred, ReasoningEffort::Medium)),
    }
}

/// The model that the user talks to.
pub fn choose_chat(
    profile: &ConfigProfile,
    cfg: &ConfigToml,
    model: &Option<String>,
    using_chatgpt_auth: bool,
    limits: &EffortLimits,
) -> (r: ChatChoice)
    ensures
        r.view() == chat_of(*profile, *cfg, *model, using_chatgpt_auth, *limits),
{
    let chosen: Option<String> = first(
        clone_opt(model),
        first(clone_opt(&profile.model), clone_opt(&cfg.model)),
    );
    let explicit: bool = chosen.is_some();
    let usual: &str = if using_chatgpt_auth {
        GPT_5_CODEX_MEDIUM_MODEL
    } else {
        OPENAI_DEFAULT_MODEL
    };
    let name: String = text_or_else(chosen, usual);
    let preferred: Option<ReasoningEffort> = first(
        profile.preferred_model_reasoning_effort,
        first(
            cfg.preferred_model_reasoning_effort,
            first(profile.model_reasoning_effort, cfg.model_reasoning_effort),
        ),
    );
    let asked: ReasoningEffort = match preferred {
        Some(effort) => effort,
        None => ReasoningEffort::Medium,
    };
    let effort: ReasoningEffort = limits.clamp(name.as_str(), asked);
    ChatChoice { model: name, explicit, preferred, effort }
}

/// A model that does something else: the one that the user talks to, where that is
/// wanted, reasoning as much; else the one that was chosen, or else another. What it
/// is asked to reason is cut to what it can.
pub open spec fn role_of(
    use_chat_model: bool,
    chosen: Option<String>,
    otherwise: Seq<char>,
    effort: Option<ReasoningEffort>,
    otherwise_effort: ReasoningEffort,
    chat: ChatView,
    limits: EffortLimits,
) -> RoleView {
    let model = if use_chat_model {
        chat.model
    } else {
        text_or(chosen, otherwise)
    };
    let asked = if use_chat_model {
        chat.effort
    } else {
        value_or(effort, otherwise_effort)
    };
    RoleView { model, effort: limits.spec_clamp(model, asked), use_chat_model }
}

fn choose_role(
    use_chat_model: bool,
    chosen: Option<String>,
    otherwise: &str,
    effort: Option<ReasoningEffort>,
    otherwise_effort: ReasoningEffort,
    chat: &ChatChoice,
    limits: &EffortLimits,
) -> (r: RoleChoice)
    ensures
        r.view() == role_of(
            use_chat_model,
            chosen,
            otherwise@,
            effort,
            otherwise_effort,
            chat.view(),
            *limits,
        ),
{
    let model: String = if use_chat_model {
        chat.model.clone()
    } else {
        text_or_else(chosen, otherwise)
    };
    let asked: ReasoningEffort = if use_chat_model {
        chat.effort
    } else {
        match effort {
            Some(effort) => effort,
            None => otherwise_effort,
        }
    };
    let granted: ReasoningEffort = limits.clamp(model.as_str(), asked);
    RoleChoice { model, effort: granted, use_chat_model }
}

/// The model that plans. It is the one that the user talks to, unless another was
/// chosen or it was said otherwise.
pub open spec fn planning_of(
    profile: ConfigProfile,
    cfg: ConfigToml,
    chat: ChatView,
    limits: EffortLimits,
) -> RoleView {
    role_of(
        value_or(
            first_of(profile.planning_use_chat_model, cfg.planning_use_chat_model),
            profile.planning_model is None && cfg.planning_model is None,
        ),
        first_of(profile.planning_model, cfg.planning_model),
        chat.model,
        first_of(profile.planning_model_reasoning_effort, cfg.planning_model_reasoning_effort),
        chat.effort,
        chat,
        limits,
    )
}

/// The model that plans.
pub fn choose_planning(
    profile: &ConfigProfile,
    cfg: &ConfigToml,
    chat: &ChatChoice,
    limits: &EffortLimits,
) -> (r: RoleChoice)
    ensures
        r.view() == planning_of(*profile, *cfg, chat.view(), *limits),
{
    let use_chat_model: bool = match first(
        profile.planning_use_chat_model,
        cfg.planning_use_chat_model,
    ) {
        Some(b) => b,
        None => profile.planning_model.is_none() && cfg.planning_model.is_none(),
    };
    choose_role(
        use_chat_model,
        first(clone_opt(&profile.planning_model), clone_opt(&cfg.planning_model)),
        chat.model.as_str(),
        first(profile.planning_model_reasoning_effort, cfg.planning_model_reasoning_effort),
        chat.effort,
        chat,
        limits,
    )
}

/// The model that reviews.
pub open spec fn review_of(
    profile: ConfigProfile,
    cfg: ConfigToml,
    review_model: Option<String>,
    chat: ChatView,
    limits: EffortLimits,
) -> RoleView {
    role_of(
        value_or(profile.review_use_chat_model, cfg.review_use_chat_model),
        first_of(review_model, first_of(profile.review_model, cfg.review_model)),
        OPENAI_DEFAULT_REVIEW_MODEL@,
        first_of(profile.review_model_reasoning_effort, cfg.review_model_reasoning_effort),
        ReasoningEffort::High,
        chat,
        limits,
    )
}

/// The model that reviews.
pub fn choose_review(
    profile: &ConfigProfile,
    cfg: &ConfigToml,
    review_model: &Option<String>,
    chat: &ChatChoice,
    limits: &EffortLimits,
) -> (r: RoleChoice)
    ensures
        r.view() == review_of(*profile, *cfg, *review_model, chat.view(), *limits),
{
    let use_chat_model: bool = match profile.review_use_chat_model {
        Some(b) => b,
        None => cfg.review_use_chat_model,
    };
    choose_role(
        use_chat_model,
        first(
            clone_opt(review_model),
            first(clone_opt(&profile.review_model), clone_opt(&cfg.review_model)),
        ),
        OPENAI_DEFAULT_REVIEW_MODEL,
        first(profile.review_model_reasoning_effort, cfg.review_model_reasoning_effort),
        ReasoningEffort::High,
        chat,
        limits,
    )
}

/// The model that mends what a review found.
pub open spec fn review_resolve_of(
    profile: ConfigProfile,
    cfg: ConfigToml,
    chat: ChatView,
    limits: EffortLimits,
) -> RoleView {
    role_of(
        value_or(profile.review_resolve_use_chat_model, cfg.review_resolve_use_chat_model),
        first_of(profile.review_resolve_model, cfg.review_resolve_model),
        chat.model,
        first_of(
            profile.review_resolve_model_reasoning_effort,
            cfg.review_resolve_model_reasoning_effort,
        ),
        ReasoningEffort::High,
        chat,
        limits,
    )
}

/// The model that mends what a review found.
pub fn choose_review_resolve(
    profile: &ConfigProfile,
    cfg: &ConfigToml,
    chat: &ChatChoice,
    limits: &EffortLimits,
) -> (r: RoleChoice)
    ensures
        r.view() == review_resolve_of(*profile, *cfg, chat.view(), *limits),
{
    let use_chat_model: bool = match profile.review_resolve_use_chat_model {
        Some(b) => b,
        None => cfg.review_resolve_use_chat_model,
    };
    choose_role(
        use_chat_model,
        first(clone_opt(&profile.review_resolve_model), clone_opt(&cfg.review_resolve_model)),
        chat.model.as_str(),
        first(
            profile.review_resolve_model_reasoning_effort,
            cfg.review_resolve_model_reasoning_effort,
        ),
        ReasoningEffort::High,
        chat,
        limits,
    )
}

/// The model that reviews unasked.
pub open spec fn auto_review_of(
    profile: ConfigProfile,
    cfg: ConfigToml,
    chat: ChatView,
    limits: EffortLimits,
) -> RoleView {
    role_of(
        value_or(profile.auto_review_use_chat_model, cfg.auto_review_use_chat_model),
        first_of(profile.auto_review_model, cfg.auto_review_model),
        OPENAI_DEFAULT_REVIEW_MODEL@,
        first_of(
            profile.auto_review_model_reasoning_effort,
            cfg.auto_review_model_reasoning_effort,
        ),
        ReasoningEffort::High,
        chat,
        limits,
    )
}

/// The model that reviews unasked.
pub fn choose_auto_review(
    profile: &ConfigProfile,
    cfg: &ConfigToml,
    chat: &ChatChoice,
    limits: &EffortLimits,
) -> (r: RoleChoice)
    ensures
        r.view() == auto_review_of(*profile, *cfg, chat.view(), *limits),
{
    let use_chat_model: bool = match profile.auto_review_use_chat_model {
        Some(b) => b,
        None => cfg.auto_review_use_chat_model,
    };
    choose_role(
        use_chat_model,
        first(clone_opt(&profile.auto_review_model), clone_opt(&cfg.auto_review_model)),
        OPENAI_DEFAULT_REVIEW_MODEL,
        first(profile.auto_review_model_reasoning_effort, cfg.auto_review_model_reasoning_effort),
        ReasoningEffort::High,
        chat,
        limits,
    )
}

/// The model that mends what was found unasked.
pub open spec fn auto_review_resolve_of(
    profile: ConfigProfile,
    cfg: ConfigToml,
    chat: ChatView,
    limits: EffortLimits,
) -> RoleView {
    role_of(
        value_or(
            profile.auto_review_resolve_use_chat_model,
            cfg.auto_review_resolve_use_chat_model,
        ),
        first_of(profile.auto_review_resolve_model, cfg.auto_review_resolve_model),
        chat.model,
        first_of(
            profile.auto_review_resolve_model_reasoning_effort,
            cfg.auto_review_resolve_model_reasoning_effort,
        ),
        ReasoningEffort::High,
        chat,
        limits,
    )
}

/// The model that mends what was found unasked.
pub fn choose_auto_review_resolve(
    profile: &ConfigProfile,
    cfg: &ConfigToml,
    chat: &ChatChoice,
    limits: &EffortLimits,
) -> (r: RoleChoice)
    ensures
        r.view() == auto_review_resolve_of(*profile, *cfg, chat.view(), *limits),
{
    let use_chat_model: bool = match profile.auto_review_resolve_use_chat_model {
        Some(b) => b,
        None => cfg.auto_review_resolve_use_chat_model,
    };
    choose_role(
        use_chat_model,
        first(
            clone_opt(&profile.auto_review_resolve_model),
            clone_opt(&cfg.auto_review_resolve_model),
        ),
        chat.model.as_str(),
        first(
            profile.auto_review_resolve_model_reasoning_effort,
            cfg.auto_review_resolve_model_reasoning_effort,
        ),
        ReasoningEffort::High,
        chat,
        limits,
    )
}

/// Which model does what.
#[derive(Debug, PartialEq, Eq)]
pub struct ModelRoles {
    pub chat: ChatChoice,
    pub planning: RoleChoice,
    pub review: RoleChoice,
    pub review_resolve: RoleChoice,
    pub auto_review: RoleChoice,
    pub auto_review_resolve: RoleChoice,
}

/// Which model does what.
pub struct RolesView {
    pub chat: ChatView,
    pub planning: RoleView,
    pub review: RoleView,
    pub review_resolve: RoleView,
    pub auto_review: RoleView,
    pub auto_review_resolve: RoleView,
}

impl ModelRoles {
    /// What was chosen.
    pub open spec fn view(&self) -> RolesView {
        RolesView {
            chat: self.chat.view(),
            planning: self.planning.view(),
            review: self.review.view(),
            review_resolve: self.review_resolve.view(),
            auto_review: self.auto_review.view(),
            auto_review_resolve: self.auto_review_resolve.view(),
        }
    }
}

/// Which model does what.
pub open spec fn roles_of(
    profile: ConfigProfile,
    cfg: ConfigToml,
    model: Option<String>,
    review_model: Option<String>,
    using_chatgpt_auth: bool,
    limits: EffortLimits,
) -> RolesView {
    let chat = chat_of(profile, cfg, model, using_chatgpt_auth, limits);
    RolesView {
        chat,
        planning: planning_of(profile, cfg, chat, limits),
        review: review_of(profile, cfg, review_model, chat, limits),
        review_resolve: review_resolve_of(profile, cfg, chat, limits),
        auto_review: auto_review_of(profile, cfg, chat, limits),
        auto_review_resolve: auto_review_resolve_of(profile, cfg, chat, limits),
    }
}

/// Which model does what.
pub fn choose_roles(
    profile: &ConfigProfile,
    cfg: &ConfigToml,
    model: &Option<String>,
    review_model: &Option<String>,
    using_chatgpt_auth: bool,
    limits: &EffortLimits,
) -> (r: ModelRoles)
    ensures
        r.view() == roles_of(*profile, *cfg, *model, *review_model, using_chatgpt_auth, *limits),
{
    let chat: ChatChoice = choose_chat(profile, cfg, model, using_chatgpt_auth, limits);
    let planning: RoleChoice = choose_planning(profile, cfg, &chat, limits);
    let review: RoleChoice = choose_review(profile, cfg, review_model, &chat, limits);
    let review_resolve: RoleChoice = choose_review_resolve(profile, cfg, &chat, limits);
    let auto_review: RoleChoice = choose_auto_review(profile, cfg, &chat, limits);
    let auto_review_resolve: RoleChoice = choose_auto_review_resolve(profile, cfg, &chat, limits);
    ModelRoles { chat, planning, review, review_resolve, auto_review, auto_review_resolve }
}

/// The models, in the order of what they do.
pub open spec fn role_models(r: RolesView) -> Seq<Seq<char>> {
    seq![
        r.chat.model,
        r.planning.model,
        r.review.model,
        r.review_resolve.model,
        r.auto_review.model,
        r.auto_review_resolve.model,
    ]
}

} // verus!
