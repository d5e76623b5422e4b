//! The texts that describe the tools and their arguments to a model.

use vstd::prelude::*;

verus! {

pub const SHELL_COMMAND: &'static str = "The command to execute";

pub const SHELL_WORKDIR: &'static str = "The working directory to execute the command in";

pub const SHELL_TIMEOUT: &'static str = "Optional hard timeout in milliseconds (minimum 1,800,000 / 30 minutes). By default, commands have no hard timeout; long runs are streamed and may be backgrounded by the agent.";

pub const SHELL_PREFIX_RULE: &'static str = "Suggests a command prefix to persist for future sessions";

pub const SHELL_TOOL: &'static str = "Runs a shell command and returns its output. Output streams live to the UI. Long-running commands may be backgrounded after an initial window. Use `wait` to await background tasks. Optional `timeout` can set a hard kill if needed.";

pub const IMAGE_VIEW_PATH: &'static str = "Local filesystem path to an image file.";

pub const IMAGE_VIEW_ALT_TEXT: &'static str = "Optional label for the image.";

pub const IMAGE_VIEW_TOOL: &'static str = "Attach a local image so the model can view it.";

pub const WAIT_CALL_ID: &'static str = "Background call_id to wait for.";

pub const WAIT_TIMEOUT_MS: &'static str = "Maximum time in milliseconds to wait (default 600000 = 10 minutes, max 3600000 = 60 minutes).";

pub const WAIT_TOOL: &'static str = "Wait for the background command identified by call_id to finish (optionally bounded by timeout_ms).";

pub const KILL_CALL_ID: &'static str = "Background call_id to terminate.";

pub const KILL_TOOL: &'static str = "Terminate a running background command by call_id.";

pub const GH_RUN_WAIT_RUN_ID: &'static str = "GitHub Actions run id to wait for.";

pub const GH_RUN_WAIT_REPO: &'static str = "Repository in OWNER/REPO form (optional).";

pub const GH_RUN_WAIT_WORKFLOW: &'static str = "Workflow name or filename (used to select latest run when run_id is omitted).";

pub const GH_RUN_WAIT_BRANCH: &'static str = "Branch to filter when selecting latest run (default: current branch, falling back to main).";

pub const GH_RUN_WAIT_INTERVAL_SECONDS: &'static str = "Polling interval in seconds (default 8).";

pub const GH_RUN_WAIT_TOOL: &'static str = "Wait for a GitHub Actions run to finish, using gh run view polling. If run_id is omitted, selects the latest run for the workflow/branch; if both are omitted, selects the latest run on the current branch.";

pub const BRIDGE_ACTION: &'static str = "Required: subscribe (set level + persist), screenshot (request a screenshot), javascript (run JS on the bridge client).";

pub const BRIDGE_LEVEL: &'static str = "For action=subscribe: log level to receive (errors|warn|info|trace).";

pub const BRIDGE_CODE: &'static str = "For action=javascript: JS to execute on the bridge client.";

pub const BRIDGE_TOOL: &'static str = "Code Bridge = local Sentry-style event stream + two-way control (errors/console/pageviews/screenshots/control). Actions: subscribe (set level, persists, requests full capabilities), screenshot (ask bridges for a screenshot), javascript (send JS to execute and return result). Examples: {\"action\":\"subscribe\",\"level\":\"trace\"}, {\"action\":\"screenshot\"}, {\"action\":\"javascript\",\"code\":\"window.location.href\"}.";

pub const PERMISSIONS_ENABLED: &'static str = "Set to true to enable network access for this command.";

pub const PERMISSIONS_READ: &'static str = "Additional filesystem paths to grant read access for this command.";

pub const PERMISSIONS_WRITE: &'static str = "Additional filesystem paths to grant write access for this command.";

pub const PERMISSIONS_PREFERENCES: &'static str = "macOS preferences access level for this command.";

pub const PERMISSIONS_AUTOMATIONS: &'static str = "Bundle identifiers that need Apple Events automation access.";

pub const PERMISSIONS_ACCESSIBILITY: &'static str = "Set to true to allow accessibility APIs for this command.";

pub const PERMISSIONS_CALENDAR: &'static str = "Set to true to allow Calendar access for this command.";

pub const SHELL_COMMAND_COMMAND: &'static str = "The shell script to execute in the user's default shell";

pub const SHELL_COMMAND_WORKDIR: &'static str = "The working directory to execute the command in";

pub const SHELL_COMMAND_TIMEOUT_MS: &'static str = "The timeout for the command in milliseconds";

pub const SHELL_COMMAND_LOGIN: &'static str = "Whether to run the shell with login shell semantics";

pub const SHELL_COMMAND_PREFIX_RULE: &'static str = "Suggests a command prefix to persist for future sessions";

pub const SANDBOX_PERMISSIONS: &'static str = "Sandbox permissions for the command. Use \"with_additional_permissions\" to request additional sandboxed filesystem, network, or macOS permissions (preferred), or \"require_escalated\" to request running without sandbox restrictions; defaults to \"use_default\".";

pub const SANDBOX_JUSTIFICATION: &'static str = "Only set if sandbox_permissions is \"require_escalated\". 1-sentence explanation of why we want to run this command.";

pub const SANDBOX_SHELL_COMMAND: &'static str = "The command to execute";

pub const SANDBOX_SHELL_PREFIX_RULE: &'static str = "Suggests a command prefix to persist for future sessions";

pub const SANDBOX_SHELL_WORKDIR: &'static str = "The working directory to execute the command in";

pub const SANDBOX_SHELL_TIMEOUT_MS: &'static str = "Optional hard timeout in milliseconds (minimum 1,800,000 / 30 minutes). By default, commands have no hard timeout; long runs are streamed and may be backgrounded by the agent.";

pub const SHELL_COMMAND_TOOL: &'static str = "Runs a shell command and returns its output. Long-running commands may be backgrounded after an initial window. Use `wait` to await background tasks.";

pub const SHELL_COMMAND_ROOTS: &'static str = "\n\nWritable roots:\n";

pub const SHELL_COMMAND_NO_NETWORK: &'static str = "\nCommands that require network access should request additional permissions.";

pub const SANDBOX_SHELL_TOOL: &'static str = "Runs a shell command and returns its output. Output streams live to the UI. Long-running commands may be backgrounded after an initial window. Use `wait` to await background tasks.";

pub const SANDBOX_SHELL_HEAD: &'static str = "\nThe shell tool is used to execute shell commands.\n- When invoking the shell tool, your call will be running in a sandbox, and some shell commands will require escalated privileges:\n  - Types of actions that require escalated privileges:\n    - Writing files other than those in the writable roots\n      - writable roots:\n";

pub const SANDBOX_SHELL_TAIL: &'static str = "\n  - Examples of commands that require escalated privileges:\n    - git commit\n    - npm install or pnpm install\n    - cargo build\n    - cargo test\n- When invoking a command that will require escalated privileges:\n  - Provide the sandbox_permissions parameter with the value \\\"require_escalated\\\"\n  - Include a short, 1 sentence explanation for why we need escalated permissions in the justification parameter.\n- When additional sandboxed filesystem access is enough:\n  - Provide the sandbox_permissions parameter with the value \\\"with_additional_permissions\\\"\n  - Provide additional_permissions with the minimal sandbox expansion needed.\n  - Supported fields are additional_permissions.network.enabled, additional_permissions.file_system.read, additional_permissions.file_system.write, additional_permissions.macos.preferences, additional_permissions.macos.automations, additional_permissions.macos.accessibility, and additional_permissions.macos.calendar.\n\nLong-running commands may be backgrounded after an initial window. Use `wait` to await background tasks. Optional `timeout` can set a hard kill if needed.";

pub const SANDBOX_SHELL_NO_NETWORK: &'static str = "\n    - Commands that require network access\n";

pub const USER_INPUT_LABEL: &'static str = "User-facing label (1-5 words).";

pub const USER_INPUT_DESCRIPTION: &'static str = "One short sentence explaining impact/tradeoff if selected.";

pub const USER_INPUT_ID: &'static str = "Stable identifier for mapping answers (snake_case).";

pub const USER_INPUT_HEADER: &'static str = "Short header label shown in the UI (12 or fewer chars).";

pub const USER_INPUT_QUESTION: &'static str = "Single-sentence prompt shown to the user.";

pub const USER_INPUT_OPTIONS: &'static str = "Provide 2-3 mutually exclusive choices. Put the recommended option first and suffix its label with \"(Recommended)\". Do not include an \"Other\" option in this list; the client will add a free-form \"Other\" option automatically.";

pub const USER_INPUT_QUESTIONS: &'static str = "Questions to show the user. Prefer 1 and do not exceed 3";

pub const USER_INPUT_TOOL: &'static str = "Request user input for one to three short questions and wait for the response.";

pub const TOOL_SEARCH_QUERY: &'static str = "Search query for MCP tools.";

pub const TOOL_SEARCH_LIMIT: &'static str = "Maximum number of tools to return (defaults to 8).";

pub const TOOL_SEARCH_TOOL: &'static str = "Searches MCP tool metadata with BM25 and exposes matching tools for the current session/thread.";

pub const BROWSER_ACTION: &'static str = "Required: choose one of the supported browser actions (e.g., 'open', 'click', 'fetch').";

pub const BROWSER_URL: &'static str = "For action=open or fetch: URL to navigate to or retrieve (e.g., https://example.com).";

pub const BROWSER_TYPE: &'static str = "For action=click: optional mouse event type ('click', 'mousedown', 'mouseup').";

pub const BROWSER_X: &'static str = "For actions=click/move/inspect: absolute X coordinate; use with 'y'.";

pub const BROWSER_Y: &'static str = "For actions=click/move/inspect: absolute Y coordinate; use with 'x'.";

pub const BROWSER_DX: &'static str = "For action=move/scroll: relative X delta in CSS pixels (use with 'dy').";

pub const BROWSER_DY: &'static str = "For action=move/scroll: relative Y delta in CSS pixels (use with 'dx').";

pub const BROWSER_TEXT: &'static str = "For action=type: text to send to the focused element.";

pub const BROWSER_KEY: &'static str = "For action=key: key to press (e.g., Enter, Tab, Escape).";

pub const BROWSER_CODE: &'static str = "For action=javascript: JavaScript source to execute in the browser context.";

pub const BROWSER_DIRECTION: &'static str = "For action=history: history direction ('back' or 'forward').";

pub const BROWSER_ID: &'static str = "For action=inspect: optional element id (without '#') to inspect.";

pub const BROWSER_LINES: &'static str = "For action=console: optional number of recent console lines to return.";

pub const BROWSER_METHOD: &'static str = "For action=cdp: Chrome DevTools Protocol method name (e.g., 'Page.navigate').";

pub const BROWSER_TARGET: &'static str = "For action=cdp: target session ('page' default or 'browser').";

pub const BROWSER_TIMEOUT_MS: &'static str = "For action=fetch: optional timeout in milliseconds for the HTTP request.";

pub const BROWSER_MODE: &'static str = "For action=fetch: optional fetch mode ('auto', 'browser', or 'http').";

pub const BROWSER_TOOL: &'static str = "Unified browser controller for navigation, interaction, console access, DevTools commands, and one-shot fetches. Choose an action and supply the matching fields.";

} // verus!
