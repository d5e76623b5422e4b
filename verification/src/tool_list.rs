//! Which tools a model is offered.

use crate::decode::{decoded, parse_tool_input_schema, InvalidSchema};
use crate::json::{json_object, json_put, json_str, json_strings, strings_view, JsonValue, JsonView};
use crate::order::{ordered, placed_at};
use crate::protocol::{
    ApplyPatchToolType, AskForApproval, ModelFamily, PolicyView, SandboxPolicy, WebSearchToolType,
};
use crate::sanitize::sanitized;
use crate::schema::typed_object;
use crate::text::{clone_strings, lex_lt, opt_text, opt_texts, str_lt, texts};
use crate::tool_defs::{
    bridge_tool, browser_tool, create_bridge_tool, create_browser_tool, create_gh_run_wait_tool,
    create_image_view_tool, create_kill_tool, create_request_user_input_tool,
    create_search_tool_bm25_tool, create_shell_command_tool, create_shell_tool,
    create_shell_tool_for_sandbox, create_wait_tool, gh_run_wait_tool, image_view_tool, kill_tool,
    request_user_input_tool, sandbox_shell_tool, search_tool_bm25_tool, shell_command_tool,
    shell_tool, wait_tool,
};
use crate::tools::{
    member_views, tool_views, FunctionView, OpenAiTool, ResponsesApiNamespace,
    ResponsesApiNamespaceTool, ResponsesApiTool, ToolView, WebSearchFilters, WebSearchTool,
    WebSearchView,
};
use vstd::prelude::*;

verus! {

broadcast use vstd::seq_lib::group_seq_properties;

/// How a model runs commands.
#[derive(Debug, PartialEq)]
pub enum ConfigShellToolType {
    DefaultShell,
    ShellWithRequest { sandbox_policy: SandboxPolicy },
    ShellCommand { sandbox_policy: SandboxPolicy },
    LocalShell,
    StreamableShell,
}

/// How a model runs commands.
pub enum ShellTypeView {
    DefaultShell,
    ShellWithRequest { sandbox_policy: PolicyView },
    ShellCommand { sandbox_policy: PolicyView },
    LocalShell,
    StreamableShell,
}

impl ConfigShellToolType {
    /// How commands are run.
    pub open spec fn view(&self) -> ShellTypeView {
        match self {
            ConfigShellToolType::DefaultShell => ShellTypeView::DefaultShell,
            ConfigShellToolType::ShellWithRequest { sandbox_policy } => ShellTypeView::ShellWithRequest {
                sandbox_policy: sandbox_policy.view(),
            },
            ConfigShellToolType::ShellCommand { sandbox_policy } => ShellTypeView::ShellCommand {
                sandbox_policy: sandbox_policy.view(),
            },
            ConfigShellToolType::LocalShell => ShellTypeView::LocalShell,
            ConfigShellToolType::StreamableShell => ShellTypeView::StreamableShell,
        }
    }
}

/// Which tools are offered.
#[derive(Debug, PartialEq)]
pub struct ToolsConfig {
    pub shell_type: ConfigShellToolType,
    pub plan_tool: bool,
    pub apply_patch_tool_type: Option<ApplyPatchToolType>,
    pub web_search_request: bool,
    pub web_search_external: bool,
    pub web_search_tool_type: WebSearchToolType,
    pub image_gen_tool: bool,
    pub search_tool: bool,
    pub include_view_image_tool: bool,
    pub web_search_allowed_domains: Option<Vec<String>>,
    pub agent_model_allowed_values: Vec<String>,
}

/// Which tools are offered.
pub struct ToolsConfigView {
    pub shell_type: ShellTypeView,
    pub plan_tool: bool,
    pub apply_patch_tool_type: Option<ApplyPatchToolType>,
    pub web_search_request: bool,
    pub web_search_external: bool,
    pub web_search_tool_type: WebSearchToolType,
    pub image_gen_tool: bool,
    pub search_tool: bool,
    pub include_view_image_tool: bool,
    pub web_search_allowed_domains: Option<Seq<Seq<char>>>,
    pub agent_model_allowed_values: Seq<Seq<char>>,
}

/// What the choice of the tools goes by.
pub struct ToolsConfigParams<'a> {
    pub model_family: &'a ModelFamily,
    pub approval_policy: AskForApproval,
    pub sandbox_policy: SandboxPolicy,
    pub include_plan_tool: bool,
    pub include_apply_patch_tool: bool,
    pub include_web_search_request: bool,
    pub use_streamable_shell_tool: bool,
    pub include_view_image_tool: bool,
    pub is_windows: bool,
}

/// How a model family runs commands on a platform. On Windows a model that could
/// use `shell_command` keeps the default shell while patches are enabled.
pub open spec fn shell_type_for(
    uses_local_shell: bool,
    uses_shell_command: bool,
    policy: PolicyView,
    streamable: bool,
    apply_patch: bool,
    is_windows: bool,
) -> ShellTypeView {
    if streamable {
        ShellTypeView::StreamableShell
    } else if uses_local_shell {
        ShellTypeView::LocalShell
    } else if uses_shell_command && !(is_windows && apply_patch) {
        ShellTypeView::ShellCommand { sandbox_policy: policy }
    } else {
        ShellTypeView::DefaultShell
    }
}

/// How the model family runs commands on the platform.
pub fn select_shell_type_for_platform(
    model_family: &ModelFamily,
    sandbox_policy: &SandboxPolicy,
    use_streamable_shell_tool: bool,
    include_apply_patch_tool: bool,
    is_windows: bool,
) -> (r: ConfigShellToolType)
    ensures
        r.view() == shell_type_for(
            model_family.uses_local_shell_tool,
            model_family.uses_shell_command_tool,
            sandbox_policy.view(),
            use_streamable_shell_tool,
            include_apply_patch_tool,
            is_windows,
        ),
{
    if use_streamable_shell_tool {
        return ConfigShellToolType::StreamableShell;
    }
    if model_family.uses_local_shell_tool {
        return ConfigShellToolType::LocalShell;
    }
    if model_family.uses_shell_command_tool && !(is_windows && include_apply_patch_tool) {
        ConfigShellToolType::ShellCommand { sandbox_policy: sandbox_policy.clone() }
    } else {
        ConfigShellToolType::DefaultShell
    }
}

/// The form of the patch tool on a platform. The shells of Windows cannot parse
/// what the free form relies on, so there it is always the function.
pub open spec fn patch_tool_for(
    of_family: Option<ApplyPatchToolType>,
    apply_patch: bool,
    is_windows: bool,
) -> Option<ApplyPatchToolType> {
    if !apply_patch || of_family is None {
        None
    } else if is_windows {
        Some(ApplyPatchToolType::Function)
    } else {
        of_family
    }
}

/// The form of the patch tool on the platform.
pub fn apply_patch_tool_type_for_platform(
    model_family: &ModelFamily,
    include_apply_patch_tool: bool,
    is_windows: bool,
) -> (r: Option<ApplyPatchToolType>)
    ensures
        r == patch_tool_for(model_family.apply_patch_tool_type, include_apply_patch_tool, is_windows),
{
    if !include_apply_patch_tool {
        return None;
    }
    match model_family.apply_patch_tool_type {
        Some(t) => if is_windows {
            Some(ApplyPatchToolType::Function)
        } else {
            Some(t)
        },
        None => None,
    }
}

/// The tools that go with a family, a policy and a platform.
pub open spec fn tools_config_for(
    family: ModelFamily,
    approval_policy: AskForApproval,
    policy: PolicyView,
    plan: bool,
    apply_patch: bool,
    web_search: bool,
    view_image: bool,
    is_windows: bool,
) -> ToolsConfigView {
    let shell = shell_type_for(
        family.uses_local_shell_tool,
        family.uses_shell_command_tool,
        policy,
        false,
        apply_patch,
        is_windows,
    );
    ToolsConfigView {
        shell_type: if approval_policy == AskForApproval::OnRequest && !(shell is ShellCommand) {
            ShellTypeView::ShellWithRequest { sandbox_policy: policy }
        } else {
            shell
        },
        plan_tool: plan,
        apply_patch_tool_type: patch_tool_for(family.apply_patch_tool_type, apply_patch, is_windows),
        web_search_request: web_search,
        web_search_external: true,
        web_search_tool_type: family.web_search_tool_type,
        image_gen_tool: false,
        search_tool: false,
        include_view_image_tool: view_image,
        web_search_allowed_domains: None,
        agent_model_allowed_values: Seq::empty(),
    }
}

impl ToolsConfig {
    /// Which tools are offered.
    pub open spec fn view(&self) -> ToolsConfigView {
        ToolsConfigView {
            shell_type: self.shell_type.view(),
            plan_tool: self.plan_tool,
            apply_patch_tool_type: self.apply_patch_tool_type,
            web_search_request: self.web_search_request,
            web_search_external: self.web_search_external,
            web_search_tool_type: self.web_search_tool_type,
            image_gen_tool: self.image_gen_tool,
            search_tool: self.search_tool,
            include_view_image_tool: self.include_view_image_tool,
            web_search_allowed_domains: opt_texts(self.web_search_allowed_domains),
            agent_model_allowed_values: texts(self.agent_model_allowed_values@),
        }
    }

    /// Chooses the tools. The streamable shell is never chosen. Where the user
    /// approves on request, the shell can ask, unless it is `shell_command`,
    /// which can do so by itself.
    pub fn new(
        model_family: &ModelFamily,
        approval_policy: AskForApproval,
        sandbox_policy: SandboxPolicy,
        include_plan_tool: bool,
        include_apply_patch_tool: bool,
        include_web_search_request: bool,
        _use_streamable_shell_tool: bool,
        include_view_image_tool: bool,
        is_windows: bool,
    ) -> (r: Self)
        ensures
            r.view() == tools_config_for(
                *model_family,
                approval_policy,
                sandbox_policy.view(),
                include_plan_tool,
                include_apply_patch_tool,
                include_web_search_request,
                include_view_image_tool,
                is_windows,
            ),
    {
        let mut shell_type = select_shell_type_for_platform(
            model_family,
            &sandbox_policy,
            false,
            include_apply_patch_tool,
            is_windows,
        );
        let shell_command = match &shell_type {
            ConfigShellToolType::ShellCommand { .. } => true,
            _ => false,
        };
        if approval_policy == AskForApproval::OnRequest && !shell_command {
            shell_type = ConfigShellToolType::ShellWithRequest { sandbox_policy };
        }
        let apply_patch_tool_type = apply_patch_tool_type_for_platform(
            model_family,
            include_apply_patch_tool,
            is_windows,
        );
        let r = ToolsConfig {
            shell_type,
            plan_tool: include_plan_tool,
            apply_patch_tool_type,
            web_search_request: include_web_search_request,
            web_search_external: true,
            web_search_tool_type: model_family.web_search_tool_type,
            image_gen_tool: false,
            search_tool: false,
            include_view_image_tool,
            web_search_allowed_domains: None,
            agent_model_allowed_values: Vec::new(),
        };
        assert(texts(r.agent_model_allowed_values@) =~= Seq::empty());
        r
    }

    /// Chooses the tools.
    pub fn new_from_params(p: &ToolsConfigParams) -> (r: Self)
        ensures
            r.view() == tools_config_for(
                *p.model_family,
                p.approval_policy,
                p.sandbox_policy.view(),
                p.include_plan_tool,
                p.include_apply_patch_tool,
                p.include_web_search_request,
                p.include_view_image_tool,
                p.is_windows,
            ),
    {
        Self::new(
            p.model_family,
            p.approval_policy,
            p.sandbox_policy.clone(),
            p.include_plan_tool,
            p.include_apply_patch_tool,
            p.include_web_search_request,
            p.use_streamable_shell_tool,
            p.include_view_image_tool,
            p.is_windows,
        )
    }

    /// Sets the models that agents may be started with.
    pub fn set_agent_models(&mut self, models: Vec<String>)
        ensures
            *final(self) == (ToolsConfig { agent_model_allowed_values: models, ..*old(self) }),
    {
        self.agent_model_allowed_values = models;
    }

    /// The models that agents may be started with.
    pub fn agent_models(&self) -> (r: &[String])
        ensures
            r@ == self.agent_model_allowed_values@,
    {
        self.agent_model_allowed_values.as_slice()
    }
}

/// The argument schema of a tool of an MCP server.
#[derive(Debug, PartialEq)]
pub struct McpToolInputSchema {
    pub properties: Option<JsonValue>,
    pub required: Option<Vec<String>>,
    /// Written as `type`.
    pub schema_type: String,
}

/// A tool of an MCP server.
#[derive(Debug, PartialEq)]
pub struct McpTool {
    pub description: Option<String>,
    pub input_schema: McpToolInputSchema,
}

/// A tool of an MCP server.
pub struct McpToolView {
    pub description: Option<Seq<char>>,
    pub properties: Option<JsonView>,
    pub required: Option<Seq<Seq<char>>>,
    pub schema_type: Seq<char>,
}

impl McpTool {
    /// What the tool is.
    pub open spec fn view(&self) -> McpToolView {
        McpToolView {
            description: opt_text(self.description),
            properties: match self.input_schema.properties {
                Some(p) => Some(p.view()),
                None => None,
            },
            required: opt_texts(self.input_schema.required),
            schema_type: self.input_schema.schema_type@,
        }
    }
}

/// The argument schema of an MCP tool as a JSON value. Where it has no
/// properties, an empty object stands for them.
pub open spec fn mcp_input_json(t: McpToolView) -> JsonView {
    let m = typed_object(t.schema_type).insert(
        "properties"@,
        match t.properties {
            Some(p) => p,
            None => JsonView::Object(Map::empty()),
        },
    );
    JsonView::Object(
        match t.required {
            Some(names) => m.insert("required"@, strings_view(names)),
            None => m,
        },
    )
}

/// The function that an MCP tool becomes, if its schema can be read.
pub open spec fn mcp_function(name: Seq<char>, t: McpToolView) -> Option<FunctionView> {
    match decoded(sanitized(mcp_input_json(t)), false) {
        Some(parameters) => Some(
            FunctionView {
                name,
                description: match t.description {
                    Some(d) => d,
                    None => Seq::empty(),
                },
                strict: false,
                parameters,
            },
        ),
        None => None,
    }
}

/// Turns a tool of an MCP server into a function of the given name.
pub fn mcp_tool_to_openai_tool(fully_qualified_name: String, tool: &McpTool) -> (r: Result<
    ResponsesApiTool,
    InvalidSchema,
>)
    ensures
        match (r, mcp_function(fully_qualified_name@, tool.view())) {
            (Ok(f), Some(w)) => f.view() == w,
            (Err(_), None) => true,
            _ => false,
        },
{
    let mut m = json_object();
    json_put(&mut m, "type", json_str(tool.input_schema.schema_type.as_str()));
    let properties = match &tool.input_schema.properties {
        Some(p) => p.clone(),
        None => JsonValue::Object(json_object()),
    };
    json_put(&mut m, "properties", properties);
    if let Some(names) = &tool.input_schema.required {
        json_put(&mut m, "required", json_strings(names));
    }
    match parse_tool_input_schema(&JsonValue::Object(m)) {
        Ok(parameters) => {
            let description = match &tool.description {
                Some(d) => d.clone(),
                None => String::new(),
            };
            Ok(
                ResponsesApiTool {
                    name: fully_qualified_name,
                    description,
                    strict: false,
                    parameters,
                },
            )
        },
        Err(e) => Err(e),
    }
}

/// The one name comes before the other.
pub open spec fn name_before<T>() -> spec_fn((Seq<char>, T), (Seq<char>, T)) -> bool {
    |a: (Seq<char>, T), b: (Seq<char>, T)| lex_lt(a.0, b.0)
}

/// The named tools in the order of their names; those of one name keep their
/// order.
pub open spec fn by_name<T>(s: Seq<(Seq<char>, T)>) -> Seq<(Seq<char>, T)> {
    ordered(s, name_before())
}

/// The functions that named MCP tools become, in order, without those whose
/// schema cannot be read.
pub open spec fn mcp_functions(s: Seq<(Seq<char>, McpToolView)>) -> Seq<ToolView>
    decreases s.len(),
{
    if s.len() == 0 {
        Seq::empty()
    } else {
        let before = mcp_functions(s.drop_last());
        match mcp_function(s.last().0, s.last().1) {
            Some(f) => before.push(ToolView::Function(f)),
            None => before,
        }
    }
}

/// The names and tools of a list of named MCP tools.
pub open spec fn named_views(s: Seq<(String, McpTool)>) -> Seq<(Seq<char>, McpToolView)> {
    s.map_values(|e: (String, McpTool)| (e.0@, e.1.view()))
}

fn sort_by_name(entries: Vec<(String, McpTool)>) -> (r: Vec<(String, McpTool)>)
    ensures
        named_views(r@) == by_name(named_views(entries@)),
{
    let ghost all = named_views(entries@);
    let mut rest = entries;
    let mut sorted: Vec<(String, McpTool)> = Vec::new();
    let n: usize = rest.len();
    let mut i: usize = 0;
    assert(all.take(0) =~= Seq::empty());
    assert(all.skip(0) =~= all);
    while i < n
        invariant
            i <= n,
            n == all.len(),
            named_views(rest@) =~= all.skip(i as int),
            named_views(sorted@) =~= by_name(all.take(i as int)),
        decreases n - i,
    {
        assert(named_views(rest@).len() == n - i);
        let e = rest.remove(0);
        let ghost ev = (e.0@, e.1.view());
        proof {
            assert(ev == all.skip(i as int)[0]);
            assert(all.take(i + 1).drop_last() =~= all.take(i as int));
            assert(all.take(i + 1).last() == ev);
            assert(named_views(rest@) =~= all.skip(i + 1));
        }
        let ghost before = named_views(sorted@);
        let ghost lt = name_before::<McpToolView>();
        let mut p: usize = sorted.len();
        while p > 0 && str_lt(e.0.as_str(), sorted[p - 1].0.as_str())
            invariant
                p <= sorted@.len(),
                before == named_views(sorted@),
                ev == (e.0@, e.1.view()),
                lt == name_before::<McpToolView>(),
                forall|k: int| p <= k < sorted@.len() ==> lt(ev, #[trigger] before[k]),
            decreases p,
        {
            assert(before[p - 1] == (sorted@[p - 1].0@, sorted@[p - 1].1.view()));
            p = p - 1;
        }
        proof {
            if p > 0 {
                assert(before[p - 1] == (sorted@[p - 1].0@, sorted@[p - 1].1.view()));
            }
            placed_at(before, ev, lt, p as int);
        }
        sorted.insert(p, e);
        assert(named_views(sorted@) =~= before.insert(p as int, ev));
        i = i + 1;
    }
    assert(all.take(n as int) =~= all);
    sorted
}

/// A tool that the session was given.
#[derive(Debug, PartialEq)]
pub struct DynamicToolSpec {
    pub namespace: Option<String>,
    pub name: String,
    pub description: String,
    pub input_schema: JsonValue,
}

/// A tool that the session was given.
pub struct DynamicToolView {
    pub namespace: Option<Seq<char>>,
    pub name: Seq<char>,
    pub description: Seq<char>,
    pub input_schema: JsonView,
}

impl DynamicToolSpec {
    /// What the tool is.
    pub open spec fn view(&self) -> DynamicToolView {
        DynamicToolView {
            namespace: opt_text(self.namespace),
            name: self.name@,
            description: self.description@,
            input_schema: self.input_schema.view(),
        }
    }
}

/// How a group of the given name is described.
pub open spec fn namespace_description(name: Seq<char>) -> Seq<char> {
    "Tools in the "@ + name + " namespace."@
}

/// Describes a group of the given name.
pub fn default_namespace_description(namespace_name: &str) -> (r: String)
    ensures
        r@ == namespace_description(namespace_name@),
{
    let mut s = "Tools in the ".to_string();
    s.append(namespace_name);
    s.append(" namespace.");
    s
}

/// The tool that a given tool becomes, if its schema can be read: a group of
/// one where it names a group, else a function.
pub open spec fn dynamic_tool(t: DynamicToolView) -> Option<ToolView> {
    match decoded(sanitized(t.input_schema), false) {
        Some(parameters) => {
            let f = FunctionView {
                name: t.name,
                description: t.description,
                strict: false,
                parameters,
            };
            Some(
                match t.namespace {
                    Some(name) => ToolView::Namespace {
                        name,
                        description: namespace_description(name),
                        tools: seq![f],
                    },
                    None => ToolView::Function(f),
                },
            )
        },
        None => None,
    }
}

/// Turns a given tool into a tool of the Responses API.
pub fn dynamic_tool_to_openai_tool(tool: &DynamicToolSpec) -> (r: Result<OpenAiTool, InvalidSchema>)
    ensures
        match (r, dynamic_tool(tool.view())) {
            (Ok(t), Some(w)) => t.view() == w,
            (Err(_), None) => true,
            _ => false,
        },
{
    match parse_tool_input_schema(&tool.input_schema) {
        Ok(parameters) => {
            let f = ResponsesApiTool {
                name: tool.name.clone(),
                description: tool.description.clone(),
                strict: false,
                parameters,
            };
            match &tool.namespace {
                Some(name) => {
                    let tools: Vec<ResponsesApiNamespaceTool> = vec![
                        ResponsesApiNamespaceTool::Function(f),
                    ];
                    assert(member_views(tools@) =~= seq![f.view()]);
                    Ok(
                        OpenAiTool::Namespace(
                            ResponsesApiNamespace {
                                name: name.clone(),
                                description: default_namespace_description(name.as_str()),
                                tools,
                            },
                        ),
                    )
                },
                None => Ok(OpenAiTool::Function(f)),
            }
        },
        Err(e) => Err(e),
    }
}

/// The tool is the group of that name.
pub open spec fn is_group(t: ToolView, name: Seq<char>) -> bool {
    t is Namespace && t->Namespace_name == name
}

/// The place of the first group of that name; the length where there is none.
pub open spec fn group_place(s: Seq<ToolView>, name: Seq<char>) -> int
    decreases s.len(),
{
    if s.len() == 0 {
        0
    } else if is_group(s[0], name) {
        0
    } else {
        1 + group_place(s.drop_first(), name)
    }
}

/// The tools with one more. A group joins the first group of its name.
pub open spec fn coalesced(s: Seq<ToolView>, t: ToolView) -> Seq<ToolView> {
    match t {
        ToolView::Namespace { name, description, tools } => {
            let p = group_place(s, name);
            if p < s.len() {
                s.update(
                    p,
                    ToolView::Namespace {
                        name,
                        description: s[p]->Namespace_description,
                        tools: s[p]->tools + tools,
                    },
                )
            } else {
                s.push(t)
            }
        },
        _ => s.push(t),
    }
}

/// The place of a group is the first that holds it.
pub proof fn group_place_is_first(s: Seq<ToolView>, name: Seq<char>)
    ensures
        0 <= group_place(s, name) <= s.len(),
        group_place(s, name) < s.len() ==> is_group(s[group_place(s, name)], name),
        forall|i: int| 0 <= i < group_place(s, name) ==> !is_group(#[trigger] s[i], name),
    decreases s.len(),
{
    if s.len() > 0 && !is_group(s[0], name) {
        let t = s.drop_first();
        group_place_is_first(t, name);
        assert forall|i: int| 0 <= i < group_place(s, name) implies !is_group(
            #[trigger] s[i],
            name,
        ) by {
            if i > 0 {
                assert(t[i - 1] == s[i]);
            }
        }
    }
}

proof fn group_place_found(s: Seq<ToolView>, name: Seq<char>, p: int)
    requires
        0 <= p <= s.len(),
        p < s.len() ==> is_group(s[p], name),
        forall|i: int| 0 <= i < p ==> !is_group(#[trigger] s[i], name),
    ensures
        group_place(s, name) == p,
{
    group_place_is_first(s, name);
    let q = group_place(s, name);
    if q < p {
        assert(!is_group(s[q], name));
    }
    if p < q {
        assert(!is_group(s[p], name));
    }
}

/// Adds a tool to the list. A group joins the first group of its name.
pub fn push_openai_tool_coalescing_namespaces(tools: &mut Vec<OpenAiTool>, tool: OpenAiTool)
    ensures
        tool_views(final(tools)@) == coalesced(tool_views(old(tools)@), tool.view()),
{
    let ghost before = tool_views(tools@);
    let ghost tv = tool.view();
    match tool {
        OpenAiTool::Namespace(mut namespace) => {
            let n: usize = tools.len();
            let mut p: usize = 0;
            while p < n && !is_group_of(&tools[p], &namespace.name)
                invariant
                    p <= n,
                    n == tools@.len(),
                    before == tool_views(tools@),
                    forall|i: int|
                        0 <= i < p ==> !is_group(#[trigger] before[i], namespace.name@),
                decreases n - p,
            {
                p = p + 1;
            }
            proof {
                group_place_found(before, namespace.name@, p as int);
            }
            if p < n {
                let ghost old_tool = tools@[p as int];
                if let OpenAiTool::Namespace(existing) = &mut tools[p] {
                    existing.tools.append(&mut namespace.tools);
                }
                proof {
                    let after = tool_views(tools@);
                    let w = coalesced(before, tv);
                    assert(before[p as int] == old_tool.view());
                    assert(after[p as int]->tools =~= w[p as int]->tools);
                    assert(after =~= w);
                }
            } else {
                tools.push(OpenAiTool::Namespace(namespace));
                assert(tool_views(tools@) =~= before.push(tv));
            }
        },
        other => {
            tools.push(other);
            assert(tool_views(tools@) =~= before.push(tv));
        },
    }
}

fn is_group_of(t: &OpenAiTool, name: &String) -> (r: bool)
    ensures
        r == is_group(t.view(), name@),
{
    match t {
        OpenAiTool::Namespace(n) => n.name == *name,
        _ => false,
    }
}

/// The tools with the given tools added in order, without those whose schema
/// cannot be read.
pub open spec fn with_dynamic(s: Seq<ToolView>, given: Seq<DynamicToolView>) -> Seq<ToolView>
    decreases given.len(),
{
    if given.len() == 0 {
        s
    } else {
        let before = with_dynamic(s, given.drop_last());
        match dynamic_tool(given.last()) {
            Some(t) => coalesced(before, t),
            None => before,
        }
    }
}

/// The tools that other parts of the program define.
#[derive(Debug, PartialEq)]
pub struct CompanionTools {
    /// Starts a command whose output streams.
    pub exec_command: ResponsesApiTool,
    /// Writes to such a command.
    pub write_stdin: ResponsesApiTool,
    /// The patch tool as a function.
    pub apply_patch_json: OpenAiTool,
    /// The patch tool in free form.
    pub apply_patch_freeform: OpenAiTool,
    /// Keeps the plan.
    pub plan: OpenAiTool,
    /// Starts and watches agents of the models that the configuration allows.
    pub agent: OpenAiTool,
}

/// The tools that run commands.
pub open spec fn shell_tools(shell_type: ShellTypeView, c: CompanionTools) -> Seq<ToolView> {
    match shell_type {
        ShellTypeView::DefaultShell => seq![shell_tool()],
        ShellTypeView::ShellWithRequest { sandbox_policy } => seq![
            sandbox_shell_tool(sandbox_policy),
        ],
        ShellTypeView::ShellCommand { sandbox_policy } => seq![shell_command_tool(sandbox_policy)],
        ShellTypeView::LocalShell => seq![ToolView::LocalShell],
        ShellTypeView::StreamableShell => seq![
            ToolView::Function(c.exec_command.view()),
            ToolView::Function(c.write_stdin.view()),
        ],
    }
}

/// The web search that the configuration asks for.
pub open spec fn web_search_of(c: ToolsConfigView) -> WebSearchView {
    WebSearchView {
        external_web_access: Some(c.web_search_external),
        search_content_types: match c.web_search_tool_type {
            WebSearchToolType::Text => None,
            WebSearchToolType::TextAndImage => Some(seq!["text"@, "image"@]),
        },
        filters: match c.web_search_allowed_domains {
            Some(d) if d.len() > 0 => Some(Some(d)),
            _ => None,
        },
        user_location: None,
        search_context_size: None,
    }
}

/// The tool, or nothing.
pub open spec fn only_if(b: bool, t: ToolView) -> Seq<ToolView> {
    if b {
        seq![t]
    } else {
        Seq::empty()
    }
}

/// The patch tool that the configuration asks for.
pub open spec fn patch_tools(t: Option<ApplyPatchToolType>, c: CompanionTools) -> Seq<ToolView> {
    match t {
        Some(ApplyPatchToolType::Function) => seq![c.apply_patch_json.view()],
        Some(ApplyPatchToolType::Freeform) => seq![c.apply_patch_freeform.view()],
        None => Seq::empty(),
    }
}

/// The tools that work on the machine, in order.
pub open spec fn machine_tools(c: ToolsConfigView, companions: CompanionTools) -> Seq<ToolView> {
    shell_tools(c.shell_type, companions) + only_if(c.include_view_image_tool, image_view_tool())
        + patch_tools(c.apply_patch_tool_type, companions) + only_if(
        c.plan_tool,
        companions.plan.view(),
    )
}

/// The tools that wait, watch and control, in order.
pub open spec fn control_tools(agent: ToolView, browser_enabled: bool) -> Seq<ToolView> {
    seq![
        browser_tool(browser_enabled),
        agent,
        wait_tool(),
        kill_tool(),
        gh_run_wait_tool(),
        bridge_tool(),
    ]
}

/// The tools that are always the same for a configuration, in order.
pub open spec fn built_in_tools(
    c: ToolsConfigView,
    companions: CompanionTools,
    browser_enabled: bool,
) -> Seq<ToolView> {
    machine_tools(c, companions) + seq![request_user_input_tool()] + only_if(
        c.search_tool,
        search_tool_bm25_tool(),
    ) + control_tools(companions.agent.view(), browser_enabled) + only_if(
        c.web_search_request,
        ToolView::WebSearch(web_search_of(c)),
    ) + only_if(c.image_gen_tool, ToolView::ImageGeneration { output_format: "png"@ })
}

/// The given tools of a list.
pub open spec fn dynamic_views(s: Seq<DynamicToolSpec>) -> Seq<DynamicToolView> {
    s.map_values(|t: DynamicToolSpec| t.view())
}

/// All tools that a model is offered: the built-in ones, those of MCP servers in
/// the order of their names, and the ones that the session was given.
pub open spec fn offered_tools(
    c: ToolsConfigView,
    companions: CompanionTools,
    mcp: Option<Seq<(Seq<char>, McpToolView)>>,
    browser_enabled: bool,
    given: Seq<DynamicToolView>,
) -> Seq<ToolView> {
    with_dynamic(
        built_in_tools(c, companions, browser_enabled) + (match mcp {
            Some(s) => mcp_functions(by_name(s)),
            None => Seq::empty(),
        }),
        given,
    )
}

fn push_tool(tools: &mut Vec<OpenAiTool>, t: OpenAiTool)
    ensures
        tool_views(final(tools)@) == tool_views(old(tools)@) + seq![t.view()],
{
    let ghost before = tool_views(tools@);
    tools.push(t);
    assert(tool_views(tools@) =~= before + seq![t.view()]);
}

fn make_web_search(config: &ToolsConfig) -> (t: WebSearchTool)
    ensures
        t.view() == web_search_of(config.view()),
{
    let search_content_types = match config.web_search_tool_type {
        WebSearchToolType::Text => None,
        WebSearchToolType::TextAndImage => {
            let types: Vec<String> = vec!["text".to_string(), "image".to_string()];
            assert(texts(types@) =~= seq!["text"@, "image"@]);
            Some(types)
        },
    };
    let filters = match &config.web_search_allowed_domains {
        Some(domains) => if domains.len() > 0 {
            Some(WebSearchFilters { allowed_domains: Some(clone_strings(domains)) })
        } else {
            None
        },
        None => None,
    };
    WebSearchTool {
        external_web_access: Some(config.web_search_external),
        search_content_types,
        filters,
        ..WebSearchTool::default()
    }
}

fn push_shell_tools(
    tools: &mut Vec<OpenAiTool>,
    shell_type: &ConfigShellToolType,
    exec_command: ResponsesApiTool,
    write_stdin: ResponsesApiTool,
)
    ensures
        forall|c: CompanionTools|
            c.exec_command == exec_command && c.write_stdin == write_stdin ==> tool_views(
                final(tools)@,
            ) == tool_views(old(tools)@) + #[trigger] shell_tools(shell_type.view(), c),
{
    let ghost before = tool_views(tools@);
    match shell_type {
        ConfigShellToolType::DefaultShell => push_tool(tools, create_shell_tool()),
        ConfigShellToolType::ShellWithRequest { sandbox_policy } => push_tool(
            tools,
            create_shell_tool_for_sandbox(sandbox_policy),
        ),
        ConfigShellToolType::ShellCommand { sandbox_policy } => push_tool(
            tools,
            create_shell_command_tool(sandbox_policy),
        ),
        ConfigShellToolType::LocalShell => push_tool(tools, OpenAiTool::LocalShell {  }),
        ConfigShellToolType::StreamableShell => {
            push_tool(tools, OpenAiTool::Function(exec_command));
            push_tool(tools, OpenAiTool::Function(write_stdin));
            assert(tool_views(tools@) =~= before + seq![
                ToolView::Function(exec_command.view()),
                ToolView::Function(write_stdin.view()),
            ]);
        },
    }
}

fn push_control_tools(tools: &mut Vec<OpenAiTool>, agent: OpenAiTool, browser_enabled: bool)
    ensures
        tool_views(final(tools)@) == tool_views(old(tools)@) + control_tools(
            agent.view(),
            browser_enabled,
        ),
{
    let ghost before = tool_views(tools@);
    push_tool(tools, create_browser_tool(browser_enabled));
    push_tool(tools, agent);
    push_tool(tools, create_wait_tool());
    push_tool(tools, create_kill_tool());
    push_tool(tools, create_gh_run_wait_tool());
    push_tool(tools, create_bridge_tool());
    assert(tool_views(tools@) =~= before + control_tools(agent.view(), browser_enabled));
}

fn make_built_in_tools(
    config: &ToolsConfig,
    companions: CompanionTools,
    browser_enabled: bool,
) -> (r: Vec<OpenAiTool>)
    ensures
        tool_views(r@) == built_in_tools(config.view(), companions, browser_enabled),
{
    let mut tools: Vec<OpenAiTool> = Vec::new();
    let ghost c = config.view();
    let CompanionTools {
        exec_command,
        write_stdin,
        apply_patch_json,
        apply_patch_freeform,
        plan,
        agent,
    } = companions;
    push_shell_tools(&mut tools, &config.shell_type, exec_command, write_stdin);
    let ghost s1 = shell_tools(c.shell_type, companions);
    assert(tool_views(tools@) =~= s1);
    if config.include_view_image_tool {
        push_tool(&mut tools, create_image_view_tool());
    }
    let ghost s2 = s1 + only_if(c.include_view_image_tool, image_view_tool());
    assert(tool_views(tools@) =~= s2);
    match config.apply_patch_tool_type {
        Some(ApplyPatchToolType::Function) => push_tool(&mut tools, apply_patch_json),
        Some(ApplyPatchToolType::Freeform) => push_tool(&mut tools, apply_patch_freeform),
        None => {},
    }
    let ghost s3 = s2 + patch_tools(c.apply_patch_tool_type, companions);
    assert(tool_views(tools@) =~= s3);
    if config.plan_tool {
        push_tool(&mut tools, plan);
    }
    let ghost s4 = s3 + only_if(c.plan_tool, companions.plan.view());
    assert(tool_views(tools@) =~= s4);
    push_tool(&mut tools, create_request_user_input_tool());
    let ghost s5 = s4 + seq![request_user_input_tool()];
    if config.search_tool {
        push_tool(&mut tools, create_search_tool_bm25_tool());
    }
    let ghost s6 = s5 + only_if(c.search_tool, search_tool_bm25_tool());
    assert(tool_views(tools@) =~= s6);
    push_control_tools(&mut tools, agent, browser_enabled);
    let ghost s7 = s6 + control_tools(companions.agent.view(), browser_enabled);
    if config.web_search_request {
        push_tool(&mut tools, OpenAiTool::WebSearch(make_web_search(config)));
    }
    let ghost s8 = s7 + only_if(c.web_search_request, ToolView::WebSearch(web_search_of(c)));
    assert(tool_views(tools@) =~= s8);
    if config.image_gen_tool {
        push_tool(&mut tools, OpenAiTool::ImageGeneration { output_format: "png".to_string() });
    }
    assert(tool_views(tools@) =~= s8 + only_if(
        c.image_gen_tool,
        ToolView::ImageGeneration { output_format: "png"@ },
    ));
    tools
}

/// The tools that a model is offered. The names of the MCP tools are their fully
/// qualified names. A tool whose schema cannot be read is left out.
pub fn get_openai_tools(
    config: &ToolsConfig,
    companions: CompanionTools,
    mcp_tools: Option<Vec<(String, McpTool)>>,
    browser_enabled: bool,
    _agents_active: bool,
    dynamic_tools: &[DynamicToolSpec],
) -> (r: Vec<OpenAiTool>)
    ensures
        tool_views(r@) == offered_tools(
            config.view(),
            companions,
            match mcp_tools {
                Some(entries) => Some(named_views(entries@)),
                None => None,
            },
            browser_enabled,
            dynamic_views(dynamic_tools@),
        ),
{
    let mut tools = make_built_in_tools(config, companions, browser_enabled);
    let ghost built_in = tool_views(tools@);
    let ghost mut with_mcp = built_in;
    if let Some(entries) = mcp_tools {
        let sorted = sort_by_name(entries);
        let ghost all = named_views(sorted@);
        let mut i: usize = 0;
        assert(built_in + mcp_functions(all.take(0)) =~= built_in);
        while i < sorted.len()
            invariant
                i <= sorted@.len(),
                all == named_views(sorted@),
                tool_views(tools@) == built_in + mcp_functions(all.take(i as int)),
            decreases sorted@.len() - i,
        {
            proof {
                assert(all.take(i + 1).drop_last() =~= all.take(i as int));
                assert(all.take(i + 1).last() == all[i as int]);
            }
            let e = &sorted[i];
            if let Ok(f) = mcp_tool_to_openai_tool(e.0.clone(), &e.1) {
                let ghost before = mcp_functions(all.take(i as int));
                let ghost fv = ToolView::Function(f.view());
                push_tool(&mut tools, OpenAiTool::Function(f));
                assert((built_in + before) + seq![fv] =~= built_in + before.push(fv));
            }
            i = i + 1;
        }
        assert(all.take(sorted@.len() as int) =~= all);
        proof {
            with_mcp = built_in + mcp_functions(all);
        }
    } else {
        assert(built_in + Seq::<ToolView>::empty() =~= built_in);
    }
    let ghost given = dynamic_views(dynamic_tools@);
    let mut i: usize = 0;
    while i < dynamic_tools.len()
        invariant
            i <= dynamic_tools@.len(),
            given == dynamic_views(dynamic_tools@),
            tool_views(tools@) == with_dynamic(with_mcp, given.take(i as int)),
        decreases dynamic_tools@.len() - i,
    {
        proof {
            assert(given.take(i + 1).drop_last() =~= given.take(i as int));
            assert(given.take(i + 1).last() == given[i as int]);
        }
        if let Ok(t) = dynamic_tool_to_openai_tool(&dynamic_tools[i]) {
            push_openai_tool_coalescing_namespaces(&mut tools, t);
        }
        i = i + 1;
    }
    assert(given.take(dynamic_tools@.len() as int) =~= given);
    tools
}

} // verus!
