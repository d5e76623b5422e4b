//! Values that the other modules share.

use crate::text::{clone_strings, texts};
use vstd::prelude::*;

verus! {

/// When the user is asked to approve a command.
#[derive(Debug, PartialEq, Eq, Clone, Copy, Structural)]
pub enum AskForApproval {
    /// Every command that is not known to be safe.
    UnlessTrusted,
    /// Every command that failed in the sandbox.
    OnFailure,
    /// Whatever the model asks for.
    OnRequest,
    /// Nothing.
    Never,
}

/// What a command may do.
#[derive(Debug, PartialEq)]
pub enum SandboxPolicy {
    /// Everything.
    DangerFullAccess,
    /// Read.
    ReadOnly,
    /// Read, and write below the writable roots.
    WorkspaceWrite {
        writable_roots: Vec<String>,
        network_access: bool,
        exclude_tmpdir_env_var: bool,
        exclude_slash_tmp: bool,
        allow_git_writes: bool,
    },
}

/// What a sandbox policy says.
pub enum PolicyView {
    /// Everything.
    DangerFullAccess,
    /// Read.
    ReadOnly,
    /// Read, and write below the writable roots.
    WorkspaceWrite {
        writable_roots: Seq<Seq<char>>,
        network_access: bool,
        exclude_tmpdir_env_var: bool,
        exclude_slash_tmp: bool,
        allow_git_writes: bool,
    },
}

impl SandboxPolicy {
    /// What the policy says.
    pub open spec fn view(&self) -> PolicyView {
        match self {
            SandboxPolicy::DangerFullAccess => PolicyView::DangerFullAccess,
            SandboxPolicy::ReadOnly => PolicyView::ReadOnly,
            SandboxPolicy::WorkspaceWrite {
                writable_roots,
                network_access,
                exclude_tmpdir_env_var,
                exclude_slash_tmp,
                allow_git_writes,
            } => PolicyView::WorkspaceWrite {
                writable_roots: texts(writable_roots@),
                network_access: *network_access,
                exclude_tmpdir_env_var: *exclude_tmpdir_env_var,
                exclude_slash_tmp: *exclude_slash_tmp,
                allow_git_writes: *allow_git_writes,
            },
        }
    }
}

impl Clone for SandboxPolicy {
    fn clone(&self) -> (r: Self)
        ensures
            r.view() == self.view(),
    {
        match self {
            SandboxPolicy::DangerFullAccess => SandboxPolicy::DangerFullAccess,
            SandboxPolicy::ReadOnly => SandboxPolicy::ReadOnly,
            SandboxPolicy::WorkspaceWrite {
                writable_roots,
                network_access,
                exclude_tmpdir_env_var,
                exclude_slash_tmp,
                allow_git_writes,
            } => SandboxPolicy::WorkspaceWrite {
                writable_roots: clone_strings(writable_roots),
                network_access: *network_access,
                exclude_tmpdir_env_var: *exclude_tmpdir_env_var,
                exclude_slash_tmp: *exclude_slash_tmp,
                allow_git_writes: *allow_git_writes,
            },
        }
    }
}

/// The two forms of the patch tool.
#[derive(Debug, PartialEq, Eq, Clone, Copy, Structural)]
pub enum ApplyPatchToolType {
    /// A patch written freely, checked by a grammar.
    Freeform,
    /// A function with a JSON argument.
    Function,
}

/// What a web search returns.
#[derive(Debug, PartialEq, Eq, Clone, Copy, Structural)]
pub enum WebSearchToolType {
    /// Text.
    Text,
    /// Text and images.
    TextAndImage,
}

/// How much a model reasons.
#[derive(Debug, PartialEq, Eq, Clone, Copy, Structural)]
pub enum ReasoningEffort {
    Minimal,
    /// None at all.
    NoReasoning,
    Low,
    Medium,
    High,
    XHigh,
}

/// How a model sums up its reasoning.
#[derive(Debug, PartialEq, Eq, Clone, Copy, Structural)]
pub enum ReasoningSummary {
    Auto,
    Concise,
    Detailed,
    /// Not at all.
    NoSummary,
}

/// How the output of a tool is cut.
#[derive(Debug, PartialEq, Eq, Clone, Copy, Structural)]
pub enum TruncationPolicy {
    /// To a number of bytes.
    Bytes(usize),
    /// To a number of tokens.
    Tokens(usize),
}

/// What is known of a family of models.
#[derive(Debug, PartialEq)]
pub struct ModelFamily {
    pub slug: String,
    pub base_instructions: String,
    pub context_window: Option<u64>,
    pub max_output_tokens: Option<u64>,
    pub auto_compact_token_limit: Option<i64>,
    pub truncation_policy: TruncationPolicy,
    pub apply_patch_tool_type: Option<ApplyPatchToolType>,
    pub web_search_tool_type: WebSearchToolType,
    pub uses_local_shell_tool: bool,
    pub uses_shell_command_tool: bool,
    pub supports_image_detail_original: bool,
    pub supports_image_generation: bool,
    pub additional_speed_tiers: Vec<String>,
    pub supports_search_tool: bool,
    pub supports_reasoning_summaries: bool,
    pub supports_parallel_tool_calls: bool,
    pub use_responses_lite: bool,
    pub prefer_websockets: bool,
    pub default_reasoning_effort: Option<ReasoningEffort>,
    pub default_reasoning_summary: ReasoningSummary,
}

} // verus!
