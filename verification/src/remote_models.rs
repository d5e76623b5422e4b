//! The models that a provider offers: what is known of them, whether they are
//! asked for again, and what they change in what is known of a family.

use crate::protocol::{
    ApplyPatchToolType, ModelFamily, ReasoningEffort, ReasoningSummary, TruncationPolicy,
    WebSearchToolType,
};
use crate::text::{
    ascii_lower_text, clone_strings, eq_ignore_ascii_case, opt_text, starts, starts_with, texts,
    trim, trim_text,
};
use vstd::prelude::*;
use vstd::utf8::encode_utf8;

verus! {

/// The file that the list is kept in.
pub const MODEL_CACHE_FILE: &'static str = "models_cache.json";

/// How long the list is good, in seconds.
pub const DEFAULT_MODEL_CACHE_TTL_SECS: u64 = 300;

/// How long an answer is waited for, in seconds.
pub const REMOTE_MODELS_REQUEST_TIMEOUT_SECS: u64 = 10;

/// The model that is taken where none was chosen.
pub const CODEX_AUTO_BALANCED_MODEL: &'static str = "codex-auto-balanced";

/// What a model can be shown.
#[derive(Debug, PartialEq, Eq, Clone, Copy, Structural)]
pub enum InputModality {
    Text,
    Image,
}

/// In what manner a model speaks.
#[derive(Debug, PartialEq, Eq, Clone, Copy, Structural)]
pub enum Personality {
    /// In none.
    NoPersonality,
    Friendly,
    Pragmatic,
}

/// How much a model reasons, as a provider says it.
#[derive(Debug, PartialEq, Eq)]
pub enum ModelReasoningLevel {
    /// Not at all.
    NoReasoning,
    Minimal,
    Low,
    Medium,
    High,
    XHigh,
    Max,
    Ultra,
    Persistent,
    /// Something else.
    Custom(String),
}

/// What a cut is counted in.
#[derive(Debug, PartialEq, Eq, Clone, Copy, Structural)]
pub enum TruncationMode {
    Bytes,
    Tokens,
}

/// How the output of a tool is cut, as a provider says it.
#[derive(Debug, PartialEq, Eq, Clone, Copy, Structural)]
pub struct TruncationPolicyConfig {
    pub mode: TruncationMode,
    pub limit: i64,
}

/// What a model is told, for each manner in which it may speak.
#[derive(Debug, PartialEq, Eq)]
pub struct ModelMessages {
    /// Where no manner was asked for.
    pub unspecified: String,
    /// Where none was asked for by name.
    pub no_personality: String,
    pub friendly: String,
    pub pragmatic: String,
}

/// What a provider says of a model.
#[derive(Debug, PartialEq, Eq)]
pub struct ModelInfo {
    pub slug: String,
    pub base_instructions: String,
    pub model_messages: Option<ModelMessages>,
    pub default_reasoning_level: Option<ModelReasoningLevel>,
    pub context_window: Option<i64>,
    pub apply_patch_tool_type: Option<ApplyPatchToolType>,
    pub web_search_tool_type: WebSearchToolType,
    pub supports_image_detail_original: bool,
    pub input_modalities: Vec<InputModality>,
    pub additional_speed_tiers: Vec<String>,
    pub supports_search_tool: bool,
    pub auto_compact_token_limit: Option<i64>,
    pub truncation_policy: TruncationPolicyConfig,
    pub supports_reasoning_summaries: bool,
    pub supports_parallel_tool_calls: bool,
    pub use_responses_lite: bool,
    pub prefer_websockets: bool,
    pub default_reasoning_summary: ReasoningSummary,
}

/// What a model is told, as texts.
pub open spec fn messages_view(m: Option<ModelMessages>) -> Option<
    (Seq<char>, Seq<char>, Seq<char>, Seq<char>),
> {
    match m {
        Some(m) => Some((m.unspecified@, m.no_personality@, m.friendly@, m.pragmatic@)),
        None => None,
    }
}

/// The same is said of both.
pub open spec fn same_info(a: ModelInfo, b: ModelInfo) -> bool {
    &&& a.slug@ == b.slug@
    &&& a.base_instructions@ == b.base_instructions@
    &&& messages_view(a.model_messages) == messages_view(b.model_messages)
    &&& a.default_reasoning_level == b.default_reasoning_level
    &&& a.context_window == b.context_window
    &&& a.apply_patch_tool_type == b.apply_patch_tool_type
    &&& a.web_search_tool_type == b.web_search_tool_type
    &&& a.supports_image_detail_original == b.supports_image_detail_original
    &&& a.input_modalities@ == b.input_modalities@
    &&& texts(a.additional_speed_tiers@) == texts(b.additional_speed_tiers@)
    &&& a.supports_search_tool == b.supports_search_tool
    &&& a.auto_compact_token_limit == b.auto_compact_token_limit
    &&& a.truncation_policy == b.truncation_policy
    &&& a.supports_reasoning_summaries == b.supports_reasoning_summaries
    &&& a.supports_parallel_tool_calls == b.supports_parallel_tool_calls
    &&& a.use_responses_lite == b.use_responses_lite
    &&& a.prefer_websockets == b.prefer_websockets
    &&& a.default_reasoning_summary == b.default_reasoning_summary
}

/// The same is said, model by model.
pub open spec fn same_infos(a: Seq<ModelInfo>, b: Seq<ModelInfo>) -> bool {
    a.len() == b.len() && forall|i: int|
        0 <= i < a.len() ==> #[trigger] same_info(a[i], b[i])
}

impl Clone for ModelReasoningLevel {
    fn clone(&self) -> (r: Self)
        ensures
            r == *self,
    {
        match self {
            ModelReasoningLevel::NoReasoning => ModelReasoningLevel::NoReasoning,
            ModelReasoningLevel::Minimal => ModelReasoningLevel::Minimal,
            ModelReasoningLevel::Low => ModelReasoningLevel::Low,
            ModelReasoningLevel::Medium => ModelReasoningLevel::Medium,
            ModelReasoningLevel::High => ModelReasoningLevel::High,
            ModelReasoningLevel::XHigh => ModelReasoningLevel::XHigh,
            ModelReasoningLevel::Max => ModelReasoningLevel::Max,
            ModelReasoningLevel::Ultra => ModelReasoningLevel::Ultra,
            ModelReasoningLevel::Persistent => ModelReasoningLevel::Persistent,
            ModelReasoningLevel::Custom(name) => ModelReasoningLevel::Custom(name.clone()),
        }
    }
}

fn clone_modalities(v: &Vec<InputModality>) -> (r: Vec<InputModality>)
    ensures
        r@ == v@,
{
    let mut out: Vec<InputModality> = Vec::new();
    let mut i: usize = 0;
    while i < v.len()
        invariant
            i <= v.len(),
            out@ =~= v@.take(i as int),
        decreases v.len() - i,
    {
        out.push(v[i]);
        assert(v@.take(i + 1) =~= v@.take(i as int).push(v@[i as int]));
        i = i + 1;
    }
    assert(v@.take(i as int) =~= v@);
    out
}

impl Clone for ModelInfo {
    fn clone(&self) -> (r: Self)
        ensures
            same_info(*self, r),
    {
        ModelInfo {
            slug: self.slug.clone(),
            base_instructions: self.base_instructions.clone(),
            model_messages: match &self.model_messages {
                Some(m) => Some(
                    ModelMessages {
                        unspecified: m.unspecified.clone(),
                        no_personality: m.no_personality.clone(),
                        friendly: m.friendly.clone(),
                        pragmatic: m.pragmatic.clone(),
                    },
                ),
                None => None,
            },
            default_reasoning_level: match &self.default_reasoning_level {
                Some(level) => Some(level.clone()),
                None => None,
            },
            context_window: self.context_window,
            apply_patch_tool_type: self.apply_patch_tool_type,
            web_search_tool_type: self.web_search_tool_type,
            supports_image_detail_original: self.supports_image_detail_original,
            input_modalities: clone_modalities(&self.input_modalities),
            additional_speed_tiers: clone_strings(&self.additional_speed_tiers),
            supports_search_tool: self.supports_search_tool,
            auto_compact_token_limit: self.auto_compact_token_limit,
            truncation_policy: self.truncation_policy,
            supports_reasoning_summaries: self.supports_reasoning_summaries,
            supports_parallel_tool_calls: self.supports_parallel_tool_calls,
            use_responses_lite: self.use_responses_lite,
            prefer_websockets: self.prefer_websockets,
            default_reasoning_summary: self.default_reasoning_summary,
        }
    }
}

// ---------------------------------------------------------------------------
// Which model is meant

/// A letter, a digit, `_` or `-`.
pub open spec fn is_namespace_char(c: char) -> bool {
    ||| 'a' <= c <= 'z'
    ||| 'A' <= c <= 'Z'
    ||| '0' <= c <= '9'
    ||| c == '_'
    ||| c == '-'
}

/// At this place the one `/` of the name stands, behind a plain namespace.
pub open spec fn namespace_ends(model: Seq<char>, i: int) -> bool {
    &&& 0 <= i < model.len()
    &&& model[i] == '/'
    &&& forall|j: int| 0 <= j < i ==> is_namespace_char(#[trigger] model[j])
    &&& forall|j: int| i < j < model.len() ==> #[trigger] model[j] != '/'
}

/// What stands behind the namespace.
pub open spec fn namespaced_suffix(model: Seq<char>) -> Option<Seq<char>> {
    if exists|i: int| namespace_ends(model, i) {
        Some(model.skip((choose|i: int| namespace_ends(model, i)) + 1))
    } else {
        None
    }
}

/// What stands behind the namespace of a model's name: behind the one `/` in it,
/// where letters, digits, `_` and `-` alone stand before that.
pub fn namespaced_model_suffix(model: &str) -> (r: Option<String>)
    ensures
        opt_text(r) == namespaced_suffix(model@),
{
    let mut behind: bool = false;
    let mut suffix: String = String::new();
    let ghost mut at: int = 0;
    for c in it: model.chars()
        invariant
            it.seq() == model@,
            !behind ==> forall|j: int| 0 <= j < it.index() ==> is_namespace_char(#[trigger] model@[j]),
            behind ==> {
                &&& 0 <= at < it.index()
                &&& model@[at] == '/'
                &&& forall|j: int| 0 <= j < at ==> is_namespace_char(#[trigger] model@[j])
                &&& forall|j: int| at < j < it.index() ==> #[trigger] model@[j] != '/'
                &&& suffix@ =~= model@.subrange(at + 1, it.index() as int)
            },
            !behind ==> suffix@.len() == 0,
    {
        if behind {
            if c == '/' {
                proof {
                    let second = it.index() as int;
                    assert(model@[second] == '/');
                    assert forall|i: int| !namespace_ends(model@, i) by {
                        if namespace_ends(model@, i) {
                            assert(!is_namespace_char('/'));
                            if i < at {
                                assert(is_namespace_char(model@[i]));
                            } else if i > at {
                                assert(is_namespace_char(model@[at]));
                            }
                        }
                    }
                }
                return None;
            }
            suffix.push(c);
        } else if c == '/' {
            behind = true;
            proof {
                at = it.index() as int;
            }
        } else if !(('a' <= c && c <= 'z') || ('A' <= c && c <= 'Z') || ('0' <= c && c <= '9') || c
            == '_' || c == '-') {
            proof {
                let bad = it.index() as int;
                assert(model@[bad] == c);
                assert forall|i: int| !namespace_ends(model@, i) by {
                    if namespace_ends(model@, i) {
                        if i < bad {
                            assert(is_namespace_char(model@[i]));
                        } else if i > bad {
                            assert(is_namespace_char(model@[bad]));
                        }
                    }
                }
            }
            return None;
        }
    }
    if behind {
        proof {
            assert(namespace_ends(model@, at));
            let i = choose|i: int| namespace_ends(model@, i);
            if i < at {
                assert(is_namespace_char(model@[i]));
            }
            assert(suffix@ =~= model@.skip(at + 1));
        }
        Some(suffix)
    } else {
        proof {
            assert forall|i: int| !namespace_ends(model@, i) by {
                if namespace_ends(model@, i) {
                    assert(is_namespace_char(model@[i]));
                }
            }
        }
        None
    }
}

/// The name is this model's: its slug, letter case aside, or one that begins with
/// its slug.
pub open spec fn is_named(slug: Seq<char>, name: Seq<char>) -> bool {
    ascii_lower_text(name) == ascii_lower_text(slug) || starts(name, slug)
}

/// How many bytes the slug takes.
pub open spec fn slug_size(slug: Seq<char>) -> usize {
    encode_utf8(slug).len() as usize
}

/// Of the models of this name, the one with the longest slug, the last of those.
pub open spec fn best_at(models: Seq<ModelInfo>, name: Seq<char>, i: int) -> bool {
    &&& 0 <= i < models.len()
    &&& is_named(models[i].slug@, name)
    &&& forall|j: int|
        0 <= j < models.len() && is_named(#[trigger] models[j].slug@, name) ==> slug_size(
            models[j].slug@,
        ) <= slug_size(models[i].slug@)
    &&& forall|j: int|
        i < j < models.len() && is_named(#[trigger] models[j].slug@, name) ==> slug_size(
            models[j].slug@,
        ) < slug_size(models[i].slug@)
}

/// A model has the name.
pub open spec fn any_named(models: Seq<ModelInfo>, name: Seq<char>) -> bool {
    exists|i: int| 0 <= i < models.len() && is_named(#[trigger] models[i].slug@, name)
}

/// Which model is meant: by the whole name, else by what stands behind its
/// namespace.
pub open spec fn meant(models: Seq<ModelInfo>, model: Seq<char>, i: int) -> bool {
    if any_named(models, model) {
        best_at(models, model, i)
    } else {
        match namespaced_suffix(model) {
            Some(suffix) => best_at(models, suffix, i),
            None => false,
        }
    }
}

fn best_named(models: &[ModelInfo], name: &str) -> (r: Option<usize>)
    ensures
        match r {
            Some(i) => best_at(models@, name@, i as int),
            None => !any_named(models@, name@),
        },
{
    let mut best: Option<usize> = None;
    let mut i: usize = 0;
    while i < models.len()
        invariant
            i <= models.len(),
            match best {
                Some(b) => best_at(models@.take(i as int), name@, b as int),
                None => !any_named(models@.take(i as int), name@),
            },
        decreases models.len() - i,
    {
        let ghost before = models@.take(i as int);
        let ghost after = models@.take(i + 1);
        let slug: &str = models[i].slug.as_str();
        proof {
            assert(after =~= before.push(models@[i as int]));
            assert(forall|j: int| 0 <= j < i ==> after[j] == before[j]);
        }
        if eq_ignore_ascii_case(name, slug) || starts_with(name, slug) {
            match best {
                Some(b) => {
                    if models[b].slug.as_str().len() <= slug.len() {
                        best = Some(i);
                    }
                },
                None => {
                    proof {
                        assert forall|j: int| 0 <= j < i implies !is_named(
                            #[trigger] after[j].slug@,
                            name@,
                        ) by {
                            assert(before[j].slug@ == after[j].slug@);
                        }
                    }
                    best = Some(i);
                },
            }
        }
        proof {
            if best is None {
                assert forall|j: int| 0 <= j < i + 1 implies !is_named(
                    #[trigger] after[j].slug@,
                    name@,
                ) by {
                    if j < i {
                        assert(before[j].slug@ == after[j].slug@);
                    }
                }
            }
        }
        i = i + 1;
    }
    assert(models@.take(i as int) =~= models@);
    best
}

/// What is said of the model that is meant.
pub fn find_remote_model_info<'a>(models: &'a [ModelInfo], model: &str) -> (r: Option<
    &'a ModelInfo,
>)
    ensures
        match r {
            Some(info) => exists|i: int| #[trigger] meant(models@, model@, i) && *info == models@[i],
            None => forall|i: int| !meant(models@, model@, i),
        },
{
    match best_named(models, model) {
        Some(i) => {
            assert(any_named(models@, model@)) by {
                assert(is_named(models@[i as int].slug@, model@));
            }
            assert(meant(models@, model@, i as int));
            Some(&models[i])
        },
        None => match namespaced_model_suffix(model) {
            Some(suffix) => match best_named(models, suffix.as_str()) {
                Some(i) => {
                    assert(meant(models@, model@, i as int));
                    Some(&models[i])
                },
                None => {
                    assert forall|i: int| !meant(models@, model@, i) by {
                        if meant(models@, model@, i) {
                            assert(is_named(models@[i].slug@, suffix@));
                        }
                    }
                    None
                },
            },
            None => None,
        },
    }
}

// ---------------------------------------------------------------------------
// What a model changes in what is known of its family

/// How much the model reasons, as this program says it.
pub open spec fn effort_of(level: ModelReasoningLevel) -> ReasoningEffort {
    match level {
        ModelReasoningLevel::NoReasoning => ReasoningEffort::NoReasoning,
        ModelReasoningLevel::Minimal => ReasoningEffort::Minimal,
        ModelReasoningLevel::Low => ReasoningEffort::Low,
        ModelReasoningLevel::Medium => ReasoningEffort::Medium,
        ModelReasoningLevel::High => ReasoningEffort::High,
        ModelReasoningLevel::XHigh => ReasoningEffort::XHigh,
        ModelReasoningLevel::Max => ReasoningEffort::XHigh,
        ModelReasoningLevel::Ultra => ReasoningEffort::XHigh,
        ModelReasoningLevel::Persistent => ReasoningEffort::XHigh,
        ModelReasoningLevel::Custom(_) => ReasoningEffort::Medium,
    }
}

/// How much the model reasons, as this program says it.
pub fn map_reasoning_effort(level: &ModelReasoningLevel) -> (r: ReasoningEffort)
    ensures
        r == effort_of(*level),
{
    match level {
        ModelReasoningLevel::NoReasoning => ReasoningEffort::NoReasoning,
        ModelReasoningLevel::Minimal => ReasoningEffort::Minimal,
        ModelReasoningLevel::Low => ReasoningEffort::Low,
        ModelReasoningLevel::Medium => ReasoningEffort::Medium,
        ModelReasoningLevel::High => ReasoningEffort::High,
        ModelReasoningLevel::XHigh
        | ModelReasoningLevel::Max
        | ModelReasoningLevel::Ultra
        | ModelReasoningLevel::Persistent => ReasoningEffort::XHigh,
        ModelReasoningLevel::Custom(_) => ReasoningEffort::Medium,
    }
}

/// How the output of a tool is cut: at the limit where it is a size, else not.
pub open spec fn cut_of(policy: TruncationPolicyConfig) -> TruncationPolicy {
    let limit: usize = if 0 <= policy.limit <= usize::MAX {
        policy.limit as usize
    } else {
        usize::MAX
    };
    match policy.mode {
        TruncationMode::Bytes => TruncationPolicy::Bytes(limit),
        TruncationMode::Tokens => TruncationPolicy::Tokens(limit),
    }
}

/// How the output of a tool is cut: at the limit where it is a size, else not.
pub fn map_truncation_policy(policy: &TruncationPolicyConfig) -> (r: TruncationPolicy)
    ensures
        r == cut_of(*policy),
{
    let limit: usize = if policy.limit < 0 || policy.limit as u64 > usize::MAX as u64 {
        usize::MAX
    } else {
        policy.limit as usize
    };
    match policy.mode {
        TruncationMode::Bytes => TruncationPolicy::Bytes(limit),
        TruncationMode::Tokens => TruncationPolicy::Tokens(limit),
    }
}

/// The model can be shown images.
pub fn supports_image_generation(info: &ModelInfo) -> (r: bool)
    ensures
        r == info.input_modalities@.contains(InputModality::Image),
{
    let mut i: usize = 0;
    while i < info.input_modalities.len()
        invariant
            i <= info.input_modalities.len(),
            forall|j: int| 0 <= j < i ==> info.input_modalities@[j] != InputModality::Image,
        decreases info.input_modalities.len() - i,
    {
        if info.input_modalities[i] == InputModality::Image {
            assert(info.input_modalities@[i as int] == InputModality::Image);
            return true;
        }
        i = i + 1;
    }
    false
}

/// What the model is told, in the manner that was asked for.
pub open spec fn instructions_of(info: ModelInfo, personality: Option<Personality>) -> Seq<char> {
    match info.model_messages {
        Some(m) => match personality {
            None => m.unspecified@,
            Some(Personality::NoPersonality) => m.no_personality@,
            Some(Personality::Friendly) => m.friendly@,
            Some(Personality::Pragmatic) => m.pragmatic@,
        },
        None => info.base_instructions@,
    }
}

fn model_instructions(info: &ModelInfo, personality: Option<Personality>) -> (r: String)
    ensures
        r@ == instructions_of(*info, personality),
{
    match &info.model_messages {
        Some(m) => match personality {
            None => m.unspecified.clone(),
            Some(Personality::NoPersonality) => m.no_personality.clone(),
            Some(Personality::Friendly) => m.friendly.clone(),
            Some(Personality::Pragmatic) => m.pragmatic.clone(),
        },
        None => info.base_instructions.clone(),
    }
}

/// How many tokens the model can be shown: as many as are said, where some are.
pub open spec fn window_of(said: Option<i64>, known: Option<u64>) -> Option<u64> {
    if said is Some && said->0 > 0 {
        Some(said->0 as u64)
    } else {
        known
    }
}

fn positive_window(said: Option<i64>, known: Option<u64>) -> (r: Option<u64>)
    ensures
        r == window_of(said, known),
{
    match said {
        Some(window) => if window > 0 {
            Some(window as u64)
        } else {
            known
        },
        None => known,
    }
}

/// What is known of the family once the model has had its say.
pub open spec fn overridden(
    info: ModelInfo,
    personality: Option<Personality>,
    before: ModelFamily,
    after: ModelFamily,
) -> bool {
    &&& after.slug@ == before.slug@
    &&& after.max_output_tokens == before.max_output_tokens
    &&& after.uses_local_shell_tool == before.uses_local_shell_tool
    &&& after.uses_shell_command_tool == before.uses_shell_command_tool
    &&& after.base_instructions@ == if trim_text(instructions_of(info, personality)).len() > 0 {
        instructions_of(info, personality)
    } else {
        before.base_instructions@
    }
    &&& after.context_window == window_of(info.context_window, before.context_window)
    &&& after.apply_patch_tool_type == match info.apply_patch_tool_type {
        Some(tool) => Some(tool),
        None => before.apply_patch_tool_type,
    }
    &&& after.web_search_tool_type == info.web_search_tool_type
    &&& after.supports_image_detail_original == info.supports_image_detail_original
    &&& after.supports_image_generation == info.input_modalities@.contains(InputModality::Image)
    &&& texts(after.additional_speed_tiers@) == texts(info.additional_speed_tiers@)
    &&& after.supports_search_tool == info.supports_search_tool
    &&& after.auto_compact_token_limit == match info.auto_compact_token_limit {
        Some(limit) => Some(limit),
        None => before.auto_compact_token_limit,
    }
    &&& after.truncation_policy == cut_of(info.truncation_policy)
    &&& after.supports_reasoning_summaries == info.supports_reasoning_summaries
    &&& after.supports_parallel_tool_calls == info.supports_parallel_tool_calls
    &&& after.use_responses_lite == info.use_responses_lite
    &&& after.prefer_websockets == info.prefer_websockets
    &&& after.default_reasoning_effort == match info.default_reasoning_level {
        Some(level) => Some(effort_of(level)),
        None => before.default_reasoning_effort,
    }
    &&& after.default_reasoning_summary == info.default_reasoning_summary
}

/// What is known of the family once the model has had its say.
pub fn apply_model_info_overrides_with_personality(
    info: &ModelInfo,
    family: ModelFamily,
    personality: Option<Personality>,
) -> (r: ModelFamily)
    ensures
        overridden(*info, personality, family, r),
{
    let instructions: String = model_instructions(info, personality);
    let trimmed: String = trim(instructions.as_str());
    let told: bool = trimmed.as_str().unicode_len() > 0;
    ModelFamily {
        slug: family.slug,
        base_instructions: if told {
            instructions
        } else {
            family.base_instructions
        },
        context_window: positive_window(info.context_window, family.context_window),
        max_output_tokens: family.max_output_tokens,
        auto_compact_token_limit: match info.auto_compact_token_limit {
            Some(limit) => Some(limit),
            None => family.auto_compact_token_limit,
        },
        truncation_policy: map_truncation_policy(&info.truncation_policy),
        apply_patch_tool_type: match info.apply_patch_tool_type {
            Some(tool) => Some(tool),
            None => family.apply_patch_tool_type,
        },
        web_search_tool_type: info.web_search_tool_type,
        uses_local_shell_tool: family.uses_local_shell_tool,
        uses_shell_command_tool: family.uses_shell_command_tool,
        supports_image_detail_original: info.supports_image_detail_original,
        supports_image_generation: supports_image_generation(info),
        additional_speed_tiers: clone_strings(&info.additional_speed_tiers),
        supports_search_tool: info.supports_search_tool,
        supports_reasoning_summaries: info.supports_reasoning_summaries,
        supports_parallel_tool_calls: info.supports_parallel_tool_calls,
        use_responses_lite: info.use_responses_lite,
        prefer_websockets: info.prefer_websockets,
        default_reasoning_effort: match &info.default_reasoning_level {
            Some(level) => Some(map_reasoning_effort(level)),
            None => family.default_reasoning_effort,
        },
        default_reasoning_summary: info.default_reasoning_summary,
    }
}

/// What is known of the family once the model has had its say, no manner asked for.
pub fn apply_model_info_overrides(info: &ModelInfo, family: ModelFamily) -> (r: ModelFamily)
    ensures
        overridden(*info, None, family, r),
{
    apply_model_info_overrides_with_personality(info, family, None)
}

} // verus!
