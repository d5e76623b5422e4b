//! The built-in tools.

use crate::protocol::{PolicyView, SandboxPolicy};
use crate::schema::{
    no_properties, put_property, schema_map, AdditionalProperties, AdditionalView, JsonSchema,
    SchemaView,
};
use crate::text::{opt_texts, texts};
use crate::omap::OrderedMap;
use crate::tool_text::{
    SHELL_COMMAND, SHELL_WORKDIR, SHELL_TIMEOUT, SHELL_PREFIX_RULE, SHELL_TOOL,
    IMAGE_VIEW_PATH, IMAGE_VIEW_ALT_TEXT, IMAGE_VIEW_TOOL, WAIT_CALL_ID, WAIT_TIMEOUT_MS,
    WAIT_TOOL, KILL_CALL_ID, KILL_TOOL, GH_RUN_WAIT_RUN_ID, GH_RUN_WAIT_REPO,
    GH_RUN_WAIT_WORKFLOW, GH_RUN_WAIT_BRANCH, GH_RUN_WAIT_INTERVAL_SECONDS, GH_RUN_WAIT_TOOL,
    BRIDGE_ACTION, BRIDGE_LEVEL, BRIDGE_CODE, BRIDGE_TOOL, PERMISSIONS_ENABLED,
    PERMISSIONS_READ, PERMISSIONS_WRITE, PERMISSIONS_PREFERENCES, PERMISSIONS_AUTOMATIONS,
    PERMISSIONS_ACCESSIBILITY, PERMISSIONS_CALENDAR, SHELL_COMMAND_COMMAND,
    SHELL_COMMAND_WORKDIR, SHELL_COMMAND_TIMEOUT_MS, SHELL_COMMAND_LOGIN,
    SHELL_COMMAND_PREFIX_RULE, SANDBOX_PERMISSIONS, SANDBOX_JUSTIFICATION,
    SANDBOX_SHELL_COMMAND, SANDBOX_SHELL_PREFIX_RULE, SANDBOX_SHELL_WORKDIR,
    SANDBOX_SHELL_TIMEOUT_MS, SHELL_COMMAND_TOOL, SHELL_COMMAND_ROOTS,
    SHELL_COMMAND_NO_NETWORK, SANDBOX_SHELL_TOOL, SANDBOX_SHELL_HEAD, SANDBOX_SHELL_TAIL,
    SANDBOX_SHELL_NO_NETWORK, USER_INPUT_LABEL, USER_INPUT_DESCRIPTION, USER_INPUT_ID,
    USER_INPUT_HEADER, USER_INPUT_QUESTION, USER_INPUT_OPTIONS, USER_INPUT_QUESTIONS,
    USER_INPUT_TOOL, TOOL_SEARCH_QUERY, TOOL_SEARCH_LIMIT, TOOL_SEARCH_TOOL, BROWSER_ACTION,
    BROWSER_URL, BROWSER_TYPE, BROWSER_X, BROWSER_Y, BROWSER_DX, BROWSER_DY, BROWSER_TEXT,
    BROWSER_KEY, BROWSER_CODE, BROWSER_DIRECTION, BROWSER_ID, BROWSER_LINES, BROWSER_METHOD,
    BROWSER_TARGET, BROWSER_TIMEOUT_MS, BROWSER_MODE, BROWSER_TOOL,
};
use crate::tools::{FunctionView, OpenAiTool, ResponsesApiTool, ToolView};
use vstd::prelude::*;

verus! {

broadcast use vstd::seq_lib::group_seq_properties;

/// A string with a description.
pub open spec fn text_prop(d: Seq<char>) -> SchemaView {
    SchemaView::String { description: Some(d), allowed_values: None }
}

/// One of the given strings, with a description.
pub open spec fn choice_prop(d: Seq<char>, values: Seq<Seq<char>>) -> SchemaView {
    SchemaView::String { description: Some(d), allowed_values: Some(values) }
}

/// A number with a description.
pub open spec fn number_prop(d: Seq<char>) -> SchemaView {
    SchemaView::Number { description: Some(d) }
}

/// A boolean with a description.
pub open spec fn boolean_prop(d: Seq<char>) -> SchemaView {
    SchemaView::Boolean { description: Some(d) }
}

/// A list of items of one schema, with a description.
pub open spec fn list_prop(items: SchemaView, d: Seq<char>) -> SchemaView {
    SchemaView::Array { items: Box::new(items), description: Some(d) }
}

/// A list of strings with a description.
pub open spec fn strings_prop(d: Seq<char>) -> SchemaView {
    list_prop(SchemaView::String { description: None, allowed_values: None }, d)
}

/// An object with the given properties, and with others where `open` allows it.
pub open spec fn object_prop(
    properties: Map<Seq<char>, SchemaView>,
    required: Option<Seq<Seq<char>>>,
    open: bool,
) -> SchemaView {
    SchemaView::Object {
        properties,
        required,
        additional_properties: Some(AdditionalView::Boolean(open)),
    }
}

/// A function that is not strict.
pub open spec fn function_tool(
    name: Seq<char>,
    description: Seq<char>,
    parameters: SchemaView,
) -> ToolView {
    ToolView::Function(FunctionView { name, description, strict: false, parameters })
}

fn new_text(d: &str) -> (s: JsonSchema)
    ensures
        s.view() == text_prop(d@),
{
    JsonSchema::String { description: Some(d.to_string()), allowed_values: None }
}

fn new_choice(d: &str, values: Vec<String>) -> (s: JsonSchema)
    ensures
        s.view() == choice_prop(d@, texts(values@)),
{
    JsonSchema::String { description: Some(d.to_string()), allowed_values: Some(values) }
}

fn new_number(d: &str) -> (s: JsonSchema)
    ensures
        s.view() == number_prop(d@),
{
    JsonSchema::Number { description: Some(d.to_string()) }
}

fn new_boolean(d: &str) -> (s: JsonSchema)
    ensures
        s.view() == boolean_prop(d@),
{
    JsonSchema::Boolean { description: Some(d.to_string()) }
}

fn new_list(items: JsonSchema, d: &str) -> (s: JsonSchema)
    ensures
        s.view() == list_prop(items.view(), d@),
{
    JsonSchema::Array { items: Box::new(items), description: Some(d.to_string()) }
}

fn new_strings(d: &str) -> (s: JsonSchema)
    ensures
        s.view() == strings_prop(d@),
{
    new_list(JsonSchema::String { description: None, allowed_values: None }, d)
}

fn new_object(
    properties: OrderedMap<JsonSchema>,
    required: Option<Vec<String>>,
    open: bool,
) -> (s: JsonSchema)
    ensures
        s.view() == object_prop(schema_map(properties), opt_texts(required), open),
{
    JsonSchema::Object {
        properties,
        required,
        additional_properties: Some(AdditionalProperties::from(open)),
    }
}

fn new_function(name: &str, description: String, parameters: JsonSchema) -> (t: OpenAiTool)
    ensures
        t.view() == function_tool(name@, description@, parameters.view()),
{
    OpenAiTool::Function(
        ResponsesApiTool { name: name.to_string(), description, strict: false, parameters },
    )
}

/// The tool `shell`.
pub open spec fn shell_tool() -> ToolView {
    let properties = Map::<Seq<char>, SchemaView>::empty()
        .insert("command"@, strings_prop(SHELL_COMMAND@))
        .insert("workdir"@, text_prop(SHELL_WORKDIR@))
        .insert("timeout"@, number_prop(SHELL_TIMEOUT@))
        .insert("prefix_rule"@, strings_prop(SHELL_PREFIX_RULE@));
    function_tool("shell"@, SHELL_TOOL@, object_prop(properties, Some(seq!["command"@]), false))
}

/// Makes the tool `shell`.
pub fn create_shell_tool() -> (t: OpenAiTool)
    ensures
        t.view() == shell_tool(),
{
    let mut properties = no_properties();
    put_property(&mut properties, "command", new_strings(SHELL_COMMAND));
    put_property(&mut properties, "workdir", new_text(SHELL_WORKDIR));
    put_property(&mut properties, "timeout", new_number(SHELL_TIMEOUT));
    put_property(&mut properties, "prefix_rule", new_strings(SHELL_PREFIX_RULE));
    let required: Vec<String> = vec!["command".to_string()];
    assert(texts(required@) =~= seq!["command"@]);
    new_function("shell", SHELL_TOOL.to_string(), new_object(properties, Some(required), false))
}

/// The tool `image_view`.
pub open spec fn image_view_tool() -> ToolView {
    let properties = Map::<Seq<char>, SchemaView>::empty()
        .insert("path"@, text_prop(IMAGE_VIEW_PATH@))
        .insert("alt_text"@, text_prop(IMAGE_VIEW_ALT_TEXT@));
    function_tool("image_view"@, IMAGE_VIEW_TOOL@, object_prop(properties, Some(seq!["path"@]), false))
}

/// Makes the tool `image_view`.
pub fn create_image_view_tool() -> (t: OpenAiTool)
    ensures
        t.view() == image_view_tool(),
{
    let mut properties = no_properties();
    put_property(&mut properties, "path", new_text(IMAGE_VIEW_PATH));
    put_property(&mut properties, "alt_text", new_text(IMAGE_VIEW_ALT_TEXT));
    let required: Vec<String> = vec!["path".to_string()];
    assert(texts(required@) =~= seq!["path"@]);
    new_function("image_view", IMAGE_VIEW_TOOL.to_string(), new_object(properties, Some(required), false))
}

/// The tool `wait`.
pub open spec fn wait_tool() -> ToolView {
    let properties = Map::<Seq<char>, SchemaView>::empty()
        .insert("call_id"@, text_prop(WAIT_CALL_ID@))
        .insert("timeout_ms"@, number_prop(WAIT_TIMEOUT_MS@));
    function_tool("wait"@, WAIT_TOOL@, object_prop(properties, Some(seq!["call_id"@]), false))
}

/// Makes the tool `wait`.
pub fn create_wait_tool() -> (t: OpenAiTool)
    ensures
        t.view() == wait_tool(),
{
    let mut properties = no_properties();
    put_property(&mut properties, "call_id", new_text(WAIT_CALL_ID));
    put_property(&mut properties, "timeout_ms", new_number(WAIT_TIMEOUT_MS));
    let required: Vec<String> = vec!["call_id".to_string()];
    assert(texts(required@) =~= seq!["call_id"@]);
    new_function("wait", WAIT_TOOL.to_string(), new_object(properties, Some(required), false))
}

/// The tool `kill`.
pub open spec fn kill_tool() -> ToolView {
    let properties = Map::<Seq<char>, SchemaView>::empty()
        .insert("call_id"@, text_prop(KILL_CALL_ID@));
    function_tool("kill"@, KILL_TOOL@, object_prop(properties, Some(seq!["call_id"@]), false))
}

/// Makes the tool `kill`.
pub fn create_kill_tool() -> (t: OpenAiTool)
    ensures
        t.view() == kill_tool(),
{
    let mut properties = no_properties();
    put_property(&mut properties, "call_id", new_text(KILL_CALL_ID));
    let required: Vec<String> = vec!["call_id".to_string()];
    assert(texts(required@) =~= seq!["call_id"@]);
    new_function("kill", KILL_TOOL.to_string(), new_object(properties, Some(required), false))
}

/// The tool `gh_run_wait`.
pub open spec fn gh_run_wait_tool() -> ToolView {
    let properties = Map::<Seq<char>, SchemaView>::empty()
        .insert("run_id"@, text_prop(GH_RUN_WAIT_RUN_ID@))
        .insert("repo"@, text_prop(GH_RUN_WAIT_REPO@))
        .insert("workflow"@, text_prop(GH_RUN_WAIT_WORKFLOW@))
        .insert("branch"@, text_prop(GH_RUN_WAIT_BRANCH@))
        .insert("interval_seconds"@, number_prop(GH_RUN_WAIT_INTERVAL_SECONDS@));
    function_tool("gh_run_wait"@, GH_RUN_WAIT_TOOL@, object_prop(properties, None, false))
}

/// Makes the tool `gh_run_wait`.
pub fn create_gh_run_wait_tool() -> (t: OpenAiTool)
    ensures
        t.view() == gh_run_wait_tool(),
{
    let mut properties = no_properties();
    put_property(&mut properties, "run_id", new_text(GH_RUN_WAIT_RUN_ID));
    put_property(&mut properties, "repo", new_text(GH_RUN_WAIT_REPO));
    put_property(&mut properties, "workflow", new_text(GH_RUN_WAIT_WORKFLOW));
    put_property(&mut properties, "branch", new_text(GH_RUN_WAIT_BRANCH));
    put_property(&mut properties, "interval_seconds", new_number(GH_RUN_WAIT_INTERVAL_SECONDS));
    new_function("gh_run_wait", GH_RUN_WAIT_TOOL.to_string(), new_object(properties, None, false))
}

/// The tool `code_bridge`.
pub open spec fn bridge_tool() -> ToolView {
    let properties = Map::<Seq<char>, SchemaView>::empty()
        .insert("action"@, choice_prop(BRIDGE_ACTION@, seq!["subscribe"@, "screenshot"@, "javascript"@]))
        .insert("level"@, choice_prop(BRIDGE_LEVEL@, seq!["errors"@, "warn"@, "info"@, "trace"@]))
        .insert("code"@, text_prop(BRIDGE_CODE@));
    function_tool("code_bridge"@, BRIDGE_TOOL@, object_prop(properties, Some(seq!["action"@]), false))
}

/// Makes the tool `code_bridge`.
pub fn create_bridge_tool() -> (t: OpenAiTool)
    ensures
        t.view() == bridge_tool(),
{
    let mut properties = no_properties();
    let action_values: Vec<String> = vec!["subscribe".to_string(), "screenshot".to_string(), "javascript".to_string()];
    assert(texts(action_values@) =~= seq!["subscribe"@, "screenshot"@, "javascript"@]);
    put_property(&mut properties, "action", new_choice(BRIDGE_ACTION, action_values));
    let level_values: Vec<String> = vec!["errors".to_string(), "warn".to_string(), "info".to_string(), "trace".to_string()];
    assert(texts(level_values@) =~= seq!["errors"@, "warn"@, "info"@, "trace"@]);
    put_property(&mut properties, "level", new_choice(BRIDGE_LEVEL, level_values));
    put_property(&mut properties, "code", new_text(BRIDGE_CODE));
    let required: Vec<String> = vec!["action".to_string()];
    assert(texts(required@) =~= seq!["action"@]);
    new_function("code_bridge", BRIDGE_TOOL.to_string(), new_object(properties, Some(required), false))
}

/// What a command may ask for beyond its sandbox.
pub open spec fn additional_permissions_schema() -> SchemaView {
    let network = Map::<Seq<char>, SchemaView>::empty()
        .insert("enabled"@, boolean_prop(PERMISSIONS_ENABLED@));
    let file_system = Map::<Seq<char>, SchemaView>::empty()
        .insert("read"@, strings_prop(PERMISSIONS_READ@))
        .insert("write"@, strings_prop(PERMISSIONS_WRITE@));
    let macos = Map::<Seq<char>, SchemaView>::empty()
        .insert("preferences"@, choice_prop(PERMISSIONS_PREFERENCES@, seq!["none"@, "read_only"@, "read_write"@]))
        .insert("automations"@, strings_prop(PERMISSIONS_AUTOMATIONS@))
        .insert("accessibility"@, boolean_prop(PERMISSIONS_ACCESSIBILITY@))
        .insert("calendar"@, boolean_prop(PERMISSIONS_CALENDAR@));
    let properties = Map::<Seq<char>, SchemaView>::empty()
        .insert("network"@, object_prop(network, None, false))
        .insert("file_system"@, object_prop(file_system, None, false))
        .insert("macos"@, object_prop(macos, None, false));
    object_prop(properties, None, false)
}

/// Makes the schema of what a command may ask for beyond its sandbox.
pub fn create_additional_permissions_schema() -> (s: JsonSchema)
    ensures
        s.view() == additional_permissions_schema(),
{
    let mut network = no_properties();
    put_property(&mut network, "enabled", new_boolean(PERMISSIONS_ENABLED));
    let mut file_system = no_properties();
    put_property(&mut file_system, "read", new_strings(PERMISSIONS_READ));
    put_property(&mut file_system, "write", new_strings(PERMISSIONS_WRITE));
    let mut macos = no_properties();
    let preferences_values: Vec<String> = vec!["none".to_string(), "read_only".to_string(), "read_write".to_string()];
    assert(texts(preferences_values@) =~= seq!["none"@, "read_only"@, "read_write"@]);
    put_property(&mut macos, "preferences", new_choice(PERMISSIONS_PREFERENCES, preferences_values));
    put_property(&mut macos, "automations", new_strings(PERMISSIONS_AUTOMATIONS));
    put_property(&mut macos, "accessibility", new_boolean(PERMISSIONS_ACCESSIBILITY));
    put_property(&mut macos, "calendar", new_boolean(PERMISSIONS_CALENDAR));
    let mut properties = no_properties();
    put_property(&mut properties, "network", new_object(network, None, false));
    put_property(&mut properties, "file_system", new_object(file_system, None, false));
    put_property(&mut properties, "macos", new_object(macos, None, false));
    new_object(properties, None, false)
}

/// The properties with what a sandboxed command may ask for.
pub open spec fn with_sandbox_requests(m: Map<Seq<char>, SchemaView>) -> Map<Seq<char>, SchemaView> {
    m.insert("sandbox_permissions"@, choice_prop(SANDBOX_PERMISSIONS@, seq!["use_default"@, "with_additional_permissions"@, "require_escalated"@]))
        .insert("justification"@, text_prop(SANDBOX_JUSTIFICATION@))
        .insert("additional_permissions"@, additional_permissions_schema())
}

fn put_sandbox_requests(m: &mut OrderedMap<JsonSchema>)
    ensures
        schema_map(*final(m)) == with_sandbox_requests(schema_map(*old(m))),
{
    let values: Vec<String> = vec!["use_default".to_string(), "with_additional_permissions".to_string(), "require_escalated".to_string()];
    assert(texts(values@) =~= seq!["use_default"@, "with_additional_permissions"@, "require_escalated"@]);
    put_property(m, "sandbox_permissions", new_choice(SANDBOX_PERMISSIONS, values));
    put_property(m, "justification", new_text(SANDBOX_JUSTIFICATION));
    put_property(m, "additional_permissions", create_additional_permissions_schema());
}

/// One line for each root, between the given texts.
pub open spec fn root_lines(roots: Seq<Seq<char>>, lead: Seq<char>) -> Seq<char>
    decreases roots.len(),
{
    if roots.len() == 0 {
        Seq::empty()
    } else {
        root_lines(roots.drop_last(), lead) + lead + roots.last() + "\n"@
    }
}

fn append_root_lines(out: &mut String, roots: &Vec<String>, lead: &str)
    ensures
        final(out)@ == old(out)@ + root_lines(texts(roots@), lead@),
{
    let ghost all = texts(roots@);
    let ghost before = out@;
    let mut i: usize = 0;
    assert(before + root_lines(all.take(0), lead@) =~= before);
    while i < roots.len()
        invariant
            i <= roots@.len(),
            all == texts(roots@),
            out@ == before + root_lines(all.take(i as int), lead@),
        decreases roots@.len() - i,
    {
        out.append(lead);
        out.append(roots[i].as_str());
        out.append("\n");
        proof {
            assert(all.take(i + 1).drop_last() =~= all.take(i as int));
            assert(all.take(i + 1).last() == roots@[i as int]@);
            assert(out@ =~= before + root_lines(all.take(i + 1), lead@));
        }
        i = i + 1;
    }
    assert(all.take(roots@.len() as int) =~= all);
}

/// What the tool `shell_command` says of itself under a policy.
pub open spec fn shell_command_description(policy: PolicyView) -> Seq<char> {
    match policy {
        PolicyView::WorkspaceWrite { writable_roots, network_access, .. } => {
            let roots = if writable_roots.len() == 0 {
                SHELL_COMMAND_TOOL@
            } else {
                SHELL_COMMAND_TOOL@ + SHELL_COMMAND_ROOTS@ + root_lines(writable_roots, "- "@)
            };
            if network_access {
                roots
            } else {
                roots + SHELL_COMMAND_NO_NETWORK@
            }
        },
        _ => SHELL_COMMAND_TOOL@,
    }
}

/// The tool `shell_command` under a policy.
pub open spec fn shell_command_tool(policy: PolicyView) -> ToolView {
    let properties = Map::<Seq<char>, SchemaView>::empty()
        .insert("command"@, text_prop(SHELL_COMMAND_COMMAND@))
        .insert("workdir"@, text_prop(SHELL_COMMAND_WORKDIR@))
        .insert("timeout_ms"@, number_prop(SHELL_COMMAND_TIMEOUT_MS@))
        .insert("login"@, boolean_prop(SHELL_COMMAND_LOGIN@))
        .insert("prefix_rule"@, strings_prop(SHELL_COMMAND_PREFIX_RULE@));
    let all = if policy is WorkspaceWrite {
        with_sandbox_requests(properties)
    } else {
        properties
    };
    function_tool(
        "shell_command"@,
        shell_command_description(policy),
        object_prop(all, Some(seq!["command"@]), false),
    )
}

/// Makes the tool `shell_command` for a policy. Where only the workspace can be
/// written, a command may ask for more.
pub fn create_shell_command_tool(sandbox_policy: &SandboxPolicy) -> (t: OpenAiTool)
    ensures
        t.view() == shell_command_tool(sandbox_policy.view()),
{
    let mut properties = no_properties();
    put_property(&mut properties, "command", new_text(SHELL_COMMAND_COMMAND));
    put_property(&mut properties, "workdir", new_text(SHELL_COMMAND_WORKDIR));
    put_property(&mut properties, "timeout_ms", new_number(SHELL_COMMAND_TIMEOUT_MS));
    put_property(&mut properties, "login", new_boolean(SHELL_COMMAND_LOGIN));
    put_property(&mut properties, "prefix_rule", new_strings(SHELL_COMMAND_PREFIX_RULE));
    let mut description = SHELL_COMMAND_TOOL.to_string();
    if let SandboxPolicy::WorkspaceWrite { writable_roots, network_access, .. } = sandbox_policy {
        put_sandbox_requests(&mut properties);
        if writable_roots.len() > 0 {
            description.append(SHELL_COMMAND_ROOTS);
            append_root_lines(&mut description, writable_roots, "- ");
        }
        if !*network_access {
            description.append(SHELL_COMMAND_NO_NETWORK);
        }
    }
    let required: Vec<String> = vec!["command".to_string()];
    assert(texts(required@) =~= seq!["command"@]);
    new_function("shell_command", description, new_object(properties, Some(required), false))
}

/// What the tool `shell` says of itself under a policy.
pub open spec fn sandbox_shell_description(policy: PolicyView) -> Seq<char> {
    match policy {
        PolicyView::WorkspaceWrite { writable_roots, network_access, .. } => {
            let roots = if writable_roots.len() == 0 {
                "    - (none)\n"@
            } else {
                root_lines(writable_roots, "    - "@)
            };
            let network = if network_access {
                Seq::empty()
            } else {
                SANDBOX_SHELL_NO_NETWORK@
            };
            SANDBOX_SHELL_HEAD@ + roots + network + SANDBOX_SHELL_TAIL@
        },
        _ => SANDBOX_SHELL_TOOL@,
    }
}

/// The tool `shell` under a policy.
pub open spec fn sandbox_shell_tool(policy: PolicyView) -> ToolView {
    let properties = Map::<Seq<char>, SchemaView>::empty()
        .insert("command"@, strings_prop(SANDBOX_SHELL_COMMAND@))
        .insert("prefix_rule"@, strings_prop(SANDBOX_SHELL_PREFIX_RULE@))
        .insert("workdir"@, text_prop(SANDBOX_SHELL_WORKDIR@))
        .insert("timeout_ms"@, number_prop(SANDBOX_SHELL_TIMEOUT_MS@));
    let all = if policy is WorkspaceWrite {
        with_sandbox_requests(properties)
    } else {
        properties
    };
    function_tool(
        "shell"@,
        sandbox_shell_description(policy),
        object_prop(all, Some(seq!["command"@]), false),
    )
}

/// Makes the tool `shell` for a policy. Where only the workspace can be written,
/// it says what needs an escalation, and a command may ask for more.
pub fn create_shell_tool_for_sandbox(sandbox_policy: &SandboxPolicy) -> (t: OpenAiTool)
    ensures
        t.view() == sandbox_shell_tool(sandbox_policy.view()),
{
    let mut properties = no_properties();
    put_property(&mut properties, "command", new_strings(SANDBOX_SHELL_COMMAND));
    put_property(&mut properties, "prefix_rule", new_strings(SANDBOX_SHELL_PREFIX_RULE));
    put_property(&mut properties, "workdir", new_text(SANDBOX_SHELL_WORKDIR));
    put_property(&mut properties, "timeout_ms", new_number(SANDBOX_SHELL_TIMEOUT_MS));
    let description = match sandbox_policy {
        SandboxPolicy::WorkspaceWrite { writable_roots, network_access, .. } => {
            put_sandbox_requests(&mut properties);
            let mut description = SANDBOX_SHELL_HEAD.to_string();
            if writable_roots.len() == 0 {
                description.append("    - (none)\n");
            } else {
                append_root_lines(&mut description, writable_roots, "    - ");
            }
            if !*network_access {
                description.append(SANDBOX_SHELL_NO_NETWORK);
            }
            description.append(SANDBOX_SHELL_TAIL);
            assert(description@ =~= sandbox_shell_description(sandbox_policy.view()));
            description
        },
        _ => SANDBOX_SHELL_TOOL.to_string(),
    };
    let required: Vec<String> = vec!["command".to_string()];
    assert(texts(required@) =~= seq!["command"@]);
    new_function("shell", description, new_object(properties, Some(required), false))
}

/// The tool `request_user_input`.
pub open spec fn request_user_input_tool() -> ToolView {
    let option = Map::<Seq<char>, SchemaView>::empty()
        .insert("label"@, text_prop(USER_INPUT_LABEL@))
        .insert("description"@, text_prop(USER_INPUT_DESCRIPTION@));
    let options = list_prop(
        object_prop(option, Some(seq!["label"@, "description"@]), false),
        USER_INPUT_OPTIONS@,
    );
    let question = Map::<Seq<char>, SchemaView>::empty()
        .insert("id"@, text_prop(USER_INPUT_ID@))
        .insert("header"@, text_prop(USER_INPUT_HEADER@))
        .insert("question"@, text_prop(USER_INPUT_QUESTION@))
        .insert("options"@, options);
    let questions = list_prop(
        object_prop(question, Some(seq!["id"@, "header"@, "question"@, "options"@]), false),
        USER_INPUT_QUESTIONS@,
    );
    let properties = Map::<Seq<char>, SchemaView>::empty().insert("questions"@, questions);
    function_tool(
        "request_user_input"@,
        USER_INPUT_TOOL@,
        object_prop(properties, Some(seq!["questions"@]), false),
    )
}

/// Makes the tool `request_user_input`.
pub fn create_request_user_input_tool() -> (t: OpenAiTool)
    ensures
        t.view() == request_user_input_tool(),
{
    let mut option = no_properties();
    put_property(&mut option, "label", new_text(USER_INPUT_LABEL));
    put_property(&mut option, "description", new_text(USER_INPUT_DESCRIPTION));
    let option_required: Vec<String> = vec!["label".to_string(), "description".to_string()];
    assert(texts(option_required@) =~= seq!["label"@, "description"@]);
    let options = new_list(
        new_object(option, Some(option_required), false),
        USER_INPUT_OPTIONS,
    );
    let mut question = no_properties();
    put_property(&mut question, "id", new_text(USER_INPUT_ID));
    put_property(&mut question, "header", new_text(USER_INPUT_HEADER));
    put_property(&mut question, "question", new_text(USER_INPUT_QUESTION));
    put_property(&mut question, "options", options);
    let question_required: Vec<String> = vec![
        "id".to_string(),
        "header".to_string(),
        "question".to_string(),
        "options".to_string(),
    ];
    assert(texts(question_required@) =~= seq!["id"@, "header"@, "question"@, "options"@]);
    let questions = new_list(
        new_object(question, Some(question_required), false),
        USER_INPUT_QUESTIONS,
    );
    let mut properties = no_properties();
    put_property(&mut properties, "questions", questions);
    let required: Vec<String> = vec!["questions".to_string()];
    assert(texts(required@) =~= seq!["questions"@]);
    new_function(
        "request_user_input",
        USER_INPUT_TOOL.to_string(),
        new_object(properties, Some(required), false),
    )
}

/// The search among the tools of MCP servers.
pub open spec fn search_tool_bm25_tool() -> ToolView {
    let properties = Map::<Seq<char>, SchemaView>::empty()
        .insert("query"@, text_prop(TOOL_SEARCH_QUERY@))
        .insert("limit"@, number_prop(TOOL_SEARCH_LIMIT@));
    ToolView::ToolSearch {
        execution: "client"@,
        description: TOOL_SEARCH_TOOL@,
        parameters: object_prop(properties, Some(seq!["query"@]), false),
    }
}

/// Makes the search among the tools of MCP servers.
pub fn create_search_tool_bm25_tool() -> (t: OpenAiTool)
    ensures
        t.view() == search_tool_bm25_tool(),
{
    let mut properties = no_properties();
    put_property(&mut properties, "query", new_text(TOOL_SEARCH_QUERY));
    put_property(&mut properties, "limit", new_number(TOOL_SEARCH_LIMIT));
    let required: Vec<String> = vec!["query".to_string()];
    assert(texts(required@) =~= seq!["query"@]);
    OpenAiTool::ToolSearch {
        execution: "client".to_string(),
        description: TOOL_SEARCH_TOOL.to_string(),
        parameters: new_object(properties, Some(required), false),
    }
}

/// What the browser can be asked to do. Without a running browser it can only be
/// opened, asked for its status, or fetch a page.
pub open spec fn browser_actions(browser_enabled: bool) -> Seq<Seq<char>> {
    let always = seq!["open"@, "status"@, "fetch"@];
    if browser_enabled {
        always + seq![
            "close"@,
            "click"@,
            "move"@,
            "type"@,
            "key"@,
            "javascript"@,
            "scroll"@,
            "history"@,
            "inspect"@,
            "console"@,
            "cleanup"@,
            "cdp"@,
        ]
    } else {
        always
    }
}

/// The tool `browser`.
pub open spec fn browser_tool(browser_enabled: bool) -> ToolView {
    let properties = Map::<Seq<char>, SchemaView>::empty()
        .insert("action"@, choice_prop(BROWSER_ACTION@, browser_actions(browser_enabled)))
        .insert("url"@, text_prop(BROWSER_URL@))
        .insert("type"@, text_prop(BROWSER_TYPE@))
        .insert("x"@, number_prop(BROWSER_X@))
        .insert("y"@, number_prop(BROWSER_Y@))
        .insert("dx"@, number_prop(BROWSER_DX@))
        .insert("dy"@, number_prop(BROWSER_DY@))
        .insert("text"@, text_prop(BROWSER_TEXT@))
        .insert("key"@, text_prop(BROWSER_KEY@))
        .insert("code"@, text_prop(BROWSER_CODE@))
        .insert("direction"@, text_prop(BROWSER_DIRECTION@))
        .insert("id"@, text_prop(BROWSER_ID@))
        .insert("lines"@, number_prop(BROWSER_LINES@))
        .insert("method"@, text_prop(BROWSER_METHOD@))
        .insert("params"@, object_prop(Map::empty(), None, true))
        .insert("target"@, text_prop(BROWSER_TARGET@))
        .insert("timeout_ms"@, number_prop(BROWSER_TIMEOUT_MS@))
        .insert("mode"@, text_prop(BROWSER_MODE@));
    function_tool("browser"@, BROWSER_TOOL@, object_prop(properties, Some(seq!["action"@]), false))
}

fn list_browser_actions(browser_enabled: bool) -> (v: Vec<String>)
    ensures
        texts(v@) == browser_actions(browser_enabled),
{
    let mut actions: Vec<String> = vec![
        "open".to_string(),
        "status".to_string(),
        "fetch".to_string(),
    ];
    if browser_enabled {
        let mut more: Vec<String> = vec![
            "close".to_string(),
            "click".to_string(),
            "move".to_string(),
            "type".to_string(),
            "key".to_string(),
            "javascript".to_string(),
            "scroll".to_string(),
            "history".to_string(),
            "inspect".to_string(),
            "console".to_string(),
            "cleanup".to_string(),
            "cdp".to_string(),
        ];
        actions.append(&mut more);
    }
    assert(texts(actions@) =~= browser_actions(browser_enabled));
    actions
}

/// Makes the tool `browser`.
pub fn create_browser_tool(browser_enabled: bool) -> (t: OpenAiTool)
    ensures
        t.view() == browser_tool(browser_enabled),
{
    let actions = list_browser_actions(browser_enabled);
    let mut properties = no_properties();
    put_property(&mut properties, "action", new_choice(BROWSER_ACTION, actions));
    put_property(&mut properties, "url", new_text(BROWSER_URL));
    put_property(&mut properties, "type", new_text(BROWSER_TYPE));
    put_property(&mut properties, "x", new_number(BROWSER_X));
    put_property(&mut properties, "y", new_number(BROWSER_Y));
    put_property(&mut properties, "dx", new_number(BROWSER_DX));
    put_property(&mut properties, "dy", new_number(BROWSER_DY));
    put_property(&mut properties, "text", new_text(BROWSER_TEXT));
    put_property(&mut properties, "key", new_text(BROWSER_KEY));
    put_property(&mut properties, "code", new_text(BROWSER_CODE));
    put_property(&mut properties, "direction", new_text(BROWSER_DIRECTION));
    put_property(&mut properties, "id", new_text(BROWSER_ID));
    put_property(&mut properties, "lines", new_number(BROWSER_LINES));
    put_property(&mut properties, "method", new_text(BROWSER_METHOD));
    put_property(&mut properties, "params", new_object(no_properties(), None, true));
    put_property(&mut properties, "target", new_text(BROWSER_TARGET));
    put_property(&mut properties, "timeout_ms", new_number(BROWSER_TIMEOUT_MS));
    put_property(&mut properties, "mode", new_text(BROWSER_MODE));
    let required: Vec<String> = vec!["action".to_string()];
    assert(texts(required@) =~= seq!["action"@]);
    new_function(
        "browser",
        BROWSER_TOOL.to_string(),
        new_object(properties, Some(required), false),
    )
}

} // verus!
