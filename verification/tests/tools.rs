use code_core::json::{json_str, JsonValue};
use code_core::omap::OrderedMap;
use code_core::protocol::{
    ApplyPatchToolType, AskForApproval, ModelFamily, ReasoningSummary, SandboxPolicy,
    TruncationPolicy, WebSearchToolType,
};
use code_core::schema::JsonSchema;
use code_core::tool_defs::{create_shell_tool_for_sandbox, create_wait_tool};
use code_core::tool_list::{
    apply_patch_tool_type_for_platform, default_namespace_description,
    dynamic_tool_to_openai_tool, get_openai_tools, mcp_tool_to_openai_tool,
    push_openai_tool_coalescing_namespaces, select_shell_type_for_platform, CompanionTools,
    ConfigShellToolType, DynamicToolSpec, McpTool, McpToolInputSchema, ToolsConfig,
    ToolsConfigParams,
};
use code_core::tools::{
    create_tools_json_for_chat_completions_api, create_tools_json_for_responses_api, FreeformTool,
    FreeformToolFormat, OpenAiTool, ResponsesApiNamespace, ResponsesApiNamespaceTool,
    ResponsesApiTool, WebSearchTool,
};

fn family(slug: &str) -> ModelFamily {
    ModelFamily {
        slug: slug.to_string(),
        base_instructions: String::new(),
        context_window: None,
        max_output_tokens: None,
        auto_compact_token_limit: None,
        truncation_policy: TruncationPolicy::Bytes(10_000),
        apply_patch_tool_type: None,
        web_search_tool_type: WebSearchToolType::Text,
        uses_local_shell_tool: false,
        uses_shell_command_tool: false,
        supports_image_detail_original: false,
        supports_image_generation: false,
        additional_speed_tiers: Vec::new(),
        supports_search_tool: false,
        supports_reasoning_summaries: true,
        supports_parallel_tool_calls: false,
        use_responses_lite: false,
        prefer_websockets: false,
        default_reasoning_effort: None,
        default_reasoning_summary: ReasoningSummary::Auto,
    }
}

fn codex_mini_family() -> ModelFamily {
    let mut f = family("codex-mini-latest");
    f.uses_local_shell_tool = true;
    f
}

fn o3_family() -> ModelFamily {
    family("o3")
}

fn gpt_5_4_family() -> ModelFamily {
    let mut f = family("gpt-5.4");
    f.uses_shell_command_tool = true;
    f.apply_patch_tool_type = Some(ApplyPatchToolType::Freeform);
    f
}

fn named(name: &str) -> ResponsesApiTool {
    ResponsesApiTool {
        name: name.to_string(),
        description: format!("the {name} tool"),
        strict: false,
        parameters: JsonSchema::Object {
            properties: OrderedMap::new(),
            required: None,
            additional_properties: None,
        },
    }
}

fn companions() -> CompanionTools {
    CompanionTools {
        exec_command: named("exec_command"),
        write_stdin: named("write_stdin"),
        apply_patch_json: OpenAiTool::Function(named("apply_patch")),
        apply_patch_freeform: OpenAiTool::Freeform(FreeformTool {
            name: "apply_patch".to_string(),
            description: "patch".to_string(),
            format: FreeformToolFormat {
                format_type: "grammar".to_string(),
                syntax: "lark".to_string(),
                definition: "start: X".to_string(),
            },
        }),
        plan: OpenAiTool::Function(named("update_plan")),
        agent: OpenAiTool::Function(named("agent")),
    }
}

fn test_agent_models() -> Vec<String> {
    vec!["code-gpt-5.5".to_string(), "qwen-3-coder".to_string()]
}

fn apply_default_agent_models(config: &mut ToolsConfig) {
    config.set_agent_models(test_agent_models());
}

fn tool_name(tool: &OpenAiTool) -> &str {
    match tool {
        OpenAiTool::Function(ResponsesApiTool { name, .. }) => name,
        OpenAiTool::Namespace(ResponsesApiNamespace { name, .. }) => name,
        OpenAiTool::ToolSearch { .. } => "tool_search",
        OpenAiTool::LocalShell {} => "local_shell",
        OpenAiTool::ImageGeneration { .. } => "image_generation",
        OpenAiTool::WebSearch(_) => "web_search",
        OpenAiTool::Freeform(FreeformTool { name, .. }) => name,
    }
}

fn assert_eq_tool_names(tools: &[OpenAiTool], expected_names: &[&str]) {
    let tool_names: Vec<&str> = tools.iter().map(tool_name).collect();
    assert_eq!(tool_names, expected_names);
}

fn tools_of(
    config: &ToolsConfig,
    mcp: Vec<(String, McpTool)>,
    browser: bool,
    agents: bool,
    dynamic: &[DynamicToolSpec],
) -> Vec<OpenAiTool> {
    get_openai_tools(config, companions(), Some(mcp), browser, agents, dynamic)
}

fn obj(entries: Vec<(&str, JsonValue)>) -> JsonValue {
    let mut m = OrderedMap::new();
    for (k, v) in entries {
        m.insert(k.to_string(), v);
    }
    JsonValue::Object(m)
}

fn arr(items: Vec<JsonValue>) -> JsonValue {
    JsonValue::Array(items)
}

fn props(entries: Vec<(&str, JsonSchema)>) -> OrderedMap<JsonSchema> {
    let mut m = OrderedMap::new();
    for (k, v) in entries {
        m.insert(k.to_string(), v);
    }
    m
}

fn plain_string() -> JsonSchema {
    JsonSchema::String { description: None, allowed_values: None }
}

fn mcp_tool(description: &str, properties: JsonValue) -> McpTool {
    McpTool {
        description: Some(description.to_string()),
        input_schema: McpToolInputSchema {
            properties: Some(properties),
            required: None,
            schema_type: "object".to_string(),
        },
    }
}

fn web_search_of(tools: &[OpenAiTool]) -> &WebSearchTool {
    tools
        .iter()
        .find_map(|tool| match tool {
            OpenAiTool::WebSearch(web_search_tool) => Some(web_search_tool),
            _ => None,
        })
        .expect("web_search tool should be present")
}

#[test]
fn test_get_openai_tools() {
    let model_family = codex_mini_family();
    let mut config = ToolsConfig::new(
        &model_family,
        AskForApproval::Never,
        SandboxPolicy::ReadOnly,
        true,
        false,
        true,
        false,
        false,
        false,
    );
    apply_default_agent_models(&mut config);
    let tools = tools_of(&config, Vec::new(), false, false, &[]);

    assert_eq_tool_names(
        &tools,
        &[
            "local_shell",
            "update_plan",
            "request_user_input",
            "browser",
            "agent",
            "wait",
            "kill",
            "gh_run_wait",
            "code_bridge",
            "web_search",
        ],
    );
    assert_eq!(config.agent_models(), test_agent_models().as_slice());
}

#[test]
fn test_web_search_defaults_to_external_access_enabled() {
    let model_family = o3_family();
    let mut config = ToolsConfig::new(
        &model_family,
        AskForApproval::Never,
        SandboxPolicy::ReadOnly,
        false,
        false,
        true,
        false,
        false,
        false,
    );
    apply_default_agent_models(&mut config);

    let tools = tools_of(&config, Vec::new(), false, false, &[]);
    let web_search_tool = web_search_of(&tools);

    assert_eq!(web_search_tool.external_web_access, Some(true));
    assert_eq!(web_search_tool.search_content_types, None);
}

#[test]
fn test_web_search_text_and_image_sets_search_content_types() {
    let mut model_family = o3_family();
    model_family.web_search_tool_type = WebSearchToolType::TextAndImage;
    let mut config = ToolsConfig::new(
        &model_family,
        AskForApproval::Never,
        SandboxPolicy::ReadOnly,
        false,
        false,
        true,
        false,
        false,
        false,
    );
    apply_default_agent_models(&mut config);

    let tools = tools_of(&config, Vec::new(), false, false, &[]);
    let web_search_tool = web_search_of(&tools);

    assert_eq!(
        web_search_tool.search_content_types,
        Some(vec!["text".to_string(), "image".to_string()])
    );
}

#[test]
fn test_image_generation_tool_is_opt_in() {
    let supported_family = o3_family();
    let mut supported_config = ToolsConfig::new(
        &supported_family,
        AskForApproval::Never,
        SandboxPolicy::ReadOnly,
        false,
        false,
        false,
        false,
        true,
        false,
    );
    apply_default_agent_models(&mut supported_config);
    let supported_tools = tools_of(&supported_config, Vec::new(), false, false, &[]);
    assert!(
        !supported_tools
            .iter()
            .any(|tool| matches!(tool, OpenAiTool::ImageGeneration { .. })),
        "image_generation should be disabled by default"
    );

    supported_config.image_gen_tool = true;
    let supported_tools = tools_of(&supported_config, Vec::new(), false, false, &[]);
    assert!(
        supported_tools
            .iter()
            .any(|tool| matches!(tool, OpenAiTool::ImageGeneration { .. })),
        "image_generation should be available when explicitly enabled"
    );
}

#[test]
fn test_web_search_external_access_can_be_disabled() {
    let model_family = o3_family();
    let mut config = ToolsConfig::new(
        &model_family,
        AskForApproval::Never,
        SandboxPolicy::ReadOnly,
        false,
        false,
        true,
        false,
        false,
        false,
    );
    config.web_search_external = false;
    config.web_search_allowed_domains = Some(vec!["openai.com".to_string()]);
    apply_default_agent_models(&mut config);

    let tools = tools_of(&config, Vec::new(), false, false, &[]);
    let web_search_tool = web_search_of(&tools);

    assert_eq!(web_search_tool.external_web_access, Some(false));
    assert_eq!(
        web_search_tool
            .filters
            .as_ref()
            .and_then(|filters| filters.allowed_domains.as_ref())
            .cloned(),
        Some(vec!["openai.com".to_string()])
    );
}

#[test]
fn test_get_openai_tools_with_active_agents() {
    let model_family = codex_mini_family();
    let mut config = ToolsConfig::new(
        &model_family,
        AskForApproval::Never,
        SandboxPolicy::ReadOnly,
        true,
        false,
        true,
        false,
        false,
        false,
    );
    apply_default_agent_models(&mut config);
    let tools = tools_of(&config, Vec::new(), false, true, &[]);

    assert_eq_tool_names(
        &tools,
        &[
            "local_shell",
            "update_plan",
            "request_user_input",
            "browser",
            "agent",
            "wait",
            "kill",
            "gh_run_wait",
            "code_bridge",
            "web_search",
        ],
    );
}

#[test]
fn test_get_openai_tools_default_shell() {
    let model_family = o3_family();
    let mut config = ToolsConfig::new(
        &model_family,
        AskForApproval::Never,
        SandboxPolicy::ReadOnly,
        true,
        false,
        true,
        false,
        false,
        false,
    );
    apply_default_agent_models(&mut config);
    let tools = tools_of(&config, Vec::new(), false, false, &[]);

    assert_eq_tool_names(
        &tools,
        &[
            "shell",
            "update_plan",
            "request_user_input",
            "browser",
            "agent",
            "wait",
            "kill",
            "gh_run_wait",
            "code_bridge",
            "web_search",
        ],
    );
}

#[test]
fn test_get_openai_tools_shell_command_model() {
    let model_family = gpt_5_4_family();
    let mut config = ToolsConfig::new(
        &model_family,
        AskForApproval::Never,
        SandboxPolicy::ReadOnly,
        false,
        false,
        true,
        false,
        false,
        false,
    );
    apply_default_agent_models(&mut config);
    let tools = tools_of(&config, Vec::new(), false, false, &[]);

    assert_eq_tool_names(
        &tools,
        &[
            "shell_command",
            "request_user_input",
            "browser",
            "agent",
            "wait",
            "kill",
            "gh_run_wait",
            "code_bridge",
            "web_search",
        ],
    );
}

#[test]
fn windows_apply_patch_prefers_default_shell_for_shell_command_models() {
    let model_family = gpt_5_4_family();

    let shell_type = select_shell_type_for_platform(
        &model_family,
        &SandboxPolicy::ReadOnly,
        false,
        true,
        true,
    );

    assert!(matches!(shell_type, ConfigShellToolType::DefaultShell));
}

#[test]
fn windows_without_apply_patch_keeps_shell_command_models_unchanged() {
    let model_family = gpt_5_4_family();

    let shell_type = select_shell_type_for_platform(
        &model_family,
        &SandboxPolicy::ReadOnly,
        false,
        false,
        true,
    );

    assert!(matches!(
        shell_type,
        ConfigShellToolType::ShellCommand {
            sandbox_policy: SandboxPolicy::ReadOnly,
        }
    ));
}

#[test]
fn windows_apply_patch_uses_function_tool() {
    let model_family = gpt_5_4_family();

    assert_eq!(
        apply_patch_tool_type_for_platform(&model_family, true, true),
        Some(ApplyPatchToolType::Function)
    );
}

#[test]
fn test_get_openai_tools_mcp_tools() {
    let model_family = o3_family();
    let mut config = ToolsConfig::new(
        &model_family,
        AskForApproval::Never,
        SandboxPolicy::ReadOnly,
        false,
        false,
        true,
        false,
        false,
        false,
    );
    apply_default_agent_models(&mut config);
    let properties = obj(vec![
        ("string_argument", obj(vec![("type", json_str("string"))])),
        ("number_argument", obj(vec![("type", json_str("number"))])),
        (
            "object_argument",
            obj(vec![
                ("type", json_str("object")),
                (
                    "properties",
                    obj(vec![
                        ("string_property", obj(vec![("type", json_str("string"))])),
                        ("number_property", obj(vec![("type", json_str("number"))])),
                    ]),
                ),
                (
                    "required",
                    arr(vec![json_str("string_property"), json_str("number_property")]),
                ),
                ("additionalProperties", JsonValue::Bool(false)),
            ]),
        ),
    ]);
    let tools = tools_of(
        &config,
        vec![(
            "test_server/do_something_cool".to_string(),
            mcp_tool("Do something cool", properties),
        )],
        false,
        true,
        &[],
    );

    assert_eq_tool_names(
        &tools,
        &[
            "shell",
            "request_user_input",
            "browser",
            "agent",
            "wait",
            "kill",
            "gh_run_wait",
            "code_bridge",
            "web_search",
            "test_server/do_something_cool",
        ],
    );

    assert_eq!(
        tools[9],
        OpenAiTool::Function(ResponsesApiTool {
            name: "test_server/do_something_cool".to_string(),
            parameters: JsonSchema::Object {
                properties: props(vec![
                    ("string_argument", plain_string()),
                    ("number_argument", JsonSchema::Number { description: None }),
                    (
                        "object_argument",
                        JsonSchema::Object {
                            properties: props(vec![
                                ("string_property", plain_string()),
                                ("number_property", JsonSchema::Number { description: None }),
                            ]),
                            required: Some(vec![
                                "string_property".to_string(),
                                "number_property".to_string(),
                            ]),
                            additional_properties: Some(false.into()),
                        },
                    ),
                ]),
                required: None,
                additional_properties: None,
            },
            description: "Do something cool".to_string(),
            strict: false,
        })
    );
}

#[test]
fn test_get_openai_tools_mcp_tools_with_additional_properties_schema() {
    let model_family = o3_family();
    let mut config = ToolsConfig::new_from_params(&ToolsConfigParams {
        model_family: &model_family,
        approval_policy: AskForApproval::Never,
        sandbox_policy: SandboxPolicy::ReadOnly,
        include_plan_tool: false,
        include_apply_patch_tool: false,
        include_web_search_request: true,
        use_streamable_shell_tool: false,
        include_view_image_tool: true,
        is_windows: false,
    });
    apply_default_agent_models(&mut config);
    let properties = obj(vec![
        ("string_argument", obj(vec![("type", json_str("string"))])),
        ("number_argument", obj(vec![("type", json_str("number"))])),
        (
            "object_argument",
            obj(vec![
                ("type", json_str("object")),
                (
                    "properties",
                    obj(vec![
                        ("string_property", obj(vec![("type", json_str("string"))])),
                        ("number_property", obj(vec![("type", json_str("number"))])),
                    ]),
                ),
                (
                    "required",
                    arr(vec![json_str("string_property"), json_str("number_property")]),
                ),
                (
                    "additionalProperties",
                    obj(vec![
                        ("type", json_str("object")),
                        (
                            "properties",
                            obj(vec![("addtl_prop", obj(vec![("type", json_str("string"))]))]),
                        ),
                        ("required", arr(vec![json_str("addtl_prop")])),
                        ("additionalProperties", JsonValue::Bool(false)),
                    ]),
                ),
            ]),
        ),
    ]);
    let tools = tools_of(
        &config,
        vec![(
            "test_server/do_something_cool".to_string(),
            mcp_tool("Do something cool", properties),
        )],
        false,
        true,
        &[],
    );

    assert_eq_tool_names(
        &tools,
        &[
            "shell",
            "image_view",
            "request_user_input",
            "browser",
            "agent",
            "wait",
            "kill",
            "gh_run_wait",
            "code_bridge",
            "web_search",
            "test_server/do_something_cool",
        ],
    );

    assert_eq!(
        tools[10],
        OpenAiTool::Function(ResponsesApiTool {
            name: "test_server/do_something_cool".to_string(),
            parameters: JsonSchema::Object {
                properties: props(vec![
                    ("string_argument", plain_string()),
                    ("number_argument", JsonSchema::Number { description: None }),
                    (
                        "object_argument",
                        JsonSchema::Object {
                            properties: props(vec![
                                ("string_property", plain_string()),
                                ("number_property", JsonSchema::Number { description: None }),
                            ]),
                            required: Some(vec![
                                "string_property".to_string(),
                                "number_property".to_string(),
                            ]),
                            additional_properties: Some(
                                JsonSchema::Object {
                                    properties: props(vec![("addtl_prop", plain_string())]),
                                    required: Some(vec!["addtl_prop".to_string()]),
                                    additional_properties: Some(false.into()),
                                }
                                .into()
                            ),
                        },
                    ),
                ]),
                required: None,
                additional_properties: None,
            },
            description: "Do something cool".to_string(),
            strict: false,
        })
    );
}

#[test]
fn test_get_openai_tools_mcp_tools_sorted_by_name() {
    let model_family = o3_family();
    let config = ToolsConfig::new(
        &model_family,
        AskForApproval::Never,
        SandboxPolicy::ReadOnly,
        false,
        false,
        true,
        false,
        false,
        false,
    );
    let tools = tools_of(
        &config,
        vec![
            ("zeta/last".to_string(), mcp_tool("z", obj(vec![]))),
            ("alpha/first".to_string(), mcp_tool("a", obj(vec![]))),
        ],
        false,
        false,
        &[],
    );
    let n = tools.len();
    assert_eq!(tool_name(&tools[n - 2]), "alpha/first");
    assert_eq!(tool_name(&tools[n - 1]), "zeta/last");
}

#[test]
fn test_mcp_tool_property_missing_type_defaults_to_string() {
    let model_family = o3_family();
    let mut config = ToolsConfig::new_from_params(&ToolsConfigParams {
        model_family: &model_family,
        approval_policy: AskForApproval::Never,
        sandbox_policy: SandboxPolicy::ReadOnly,
        include_plan_tool: false,
        include_apply_patch_tool: false,
        include_web_search_request: true,
        use_streamable_shell_tool: false,
        include_view_image_tool: true,
        is_windows: false,
    });
    apply_default_agent_models(&mut config);

    let tools = tools_of(
        &config,
        vec![(
            "dash/search".to_string(),
            mcp_tool(
                "Search docs",
                obj(vec![("query", obj(vec![("description", json_str("search query"))]))]),
            ),
        )],
        false,
        true,
        &[],
    );

    assert_eq_tool_names(
        &tools,
        &[
            "shell",
            "image_view",
            "request_user_input",
            "browser",
            "agent",
            "wait",
            "kill",
            "gh_run_wait",
            "code_bridge",
            "web_search",
            "dash/search",
        ],
    );

    assert_eq!(
        tools[10],
        OpenAiTool::Function(ResponsesApiTool {
            name: "dash/search".to_string(),
            parameters: JsonSchema::Object {
                properties: props(vec![(
                    "query",
                    JsonSchema::String {
                        description: Some("search query".to_string()),
                        allowed_values: None,
                    }
                )]),
                required: None,
                additional_properties: None,
            },
            description: "Search docs".to_string(),
            strict: false,
        })
    );
}

fn o3_config() -> ToolsConfig {
    let model_family = o3_family();
    let mut config = ToolsConfig::new(
        &model_family,
        AskForApproval::Never,
        SandboxPolicy::ReadOnly,
        false,
        false,
        true,
        false,
        false,
        false,
    );
    apply_default_agent_models(&mut config);
    config
}

#[test]
fn test_mcp_tool_integer_normalized_to_number() {
    let config = o3_config();
    let tools = tools_of(
        &config,
        vec![(
            "dash/paginate".to_string(),
            mcp_tool(
                "Pagination",
                obj(vec![("page", obj(vec![("type", json_str("integer"))]))]),
            ),
        )],
        false,
        true,
        &[],
    );

    assert_eq_tool_names(
        &tools,
        &[
            "shell",
            "request_user_input",
            "browser",
            "agent",
            "wait",
            "kill",
            "gh_run_wait",
            "code_bridge",
            "web_search",
            "dash/paginate",
        ],
    );
    let paginate_tool = tools
        .iter()
        .find(|tool| tool_name(tool) == "dash/paginate")
        .expect("dash/paginate tool present");

    assert_eq!(
        paginate_tool,
        &OpenAiTool::Function(ResponsesApiTool {
            name: "dash/paginate".to_string(),
            parameters: JsonSchema::Object {
                properties: props(vec![("page", JsonSchema::Number { description: None })]),
                required: None,
                additional_properties: None,
            },
            description: "Pagination".to_string(),
            strict: false,
        })
    );
}

#[test]
fn test_mcp_tool_array_without_items_gets_default_string_items() {
    let config = o3_config();
    let tools = tools_of(
        &config,
        vec![(
            "dash/tags".to_string(),
            mcp_tool("Tags", obj(vec![("tags", obj(vec![("type", json_str("array"))]))])),
        )],
        false,
        true,
        &[],
    );

    assert_eq_tool_names(
        &tools,
        &[
            "shell",
            "request_user_input",
            "browser",
            "agent",
            "wait",
            "kill",
            "gh_run_wait",
            "code_bridge",
            "web_search",
            "dash/tags",
        ],
    );
    assert_eq!(
        tools[9],
        OpenAiTool::Function(ResponsesApiTool {
            name: "dash/tags".to_string(),
            parameters: JsonSchema::Object {
                properties: props(vec![(
                    "tags",
                    JsonSchema::Array { items: Box::new(plain_string()), description: None }
                )]),
                required: None,
                additional_properties: None,
            },
            description: "Tags".to_string(),
            strict: false,
        })
    );
}

#[test]
fn test_mcp_tool_anyof_defaults_to_string() {
    let config = o3_config();
    let tools = tools_of(
        &config,
        vec![(
            "dash/value".to_string(),
            mcp_tool(
                "AnyOf Value",
                obj(vec![(
                    "value",
                    obj(vec![(
                        "anyOf",
                        arr(vec![
                            obj(vec![("type", json_str("string"))]),
                            obj(vec![("type", json_str("number"))]),
                        ]),
                    )]),
                )]),
            ),
        )],
        false,
        true,
        &[],
    );

    assert_eq_tool_names(
        &tools,
        &[
            "shell",
            "request_user_input",
            "browser",
            "agent",
            "wait",
            "kill",
            "gh_run_wait",
            "code_bridge",
            "web_search",
            "dash/value",
        ],
    );
    assert_eq!(
        tools[9],
        OpenAiTool::Function(ResponsesApiTool {
            name: "dash/value".to_string(),
            parameters: JsonSchema::Object {
                properties: props(vec![("value", plain_string())]),
                required: None,
                additional_properties: None,
            },
            description: "AnyOf Value".to_string(),
            strict: false,
        })
    );
}

#[test]
fn test_shell_tool_for_sandbox_workspace_write() {
    let sandbox_policy = SandboxPolicy::WorkspaceWrite {
        writable_roots: vec!["workspace".into()],
        network_access: false,
        exclude_tmpdir_env_var: false,
        exclude_slash_tmp: false,
        allow_git_writes: true,
    };
    let tool = create_shell_tool_for_sandbox(&sandbox_policy);
    let OpenAiTool::Function(ResponsesApiTool { description, name, .. }) = &tool else {
        panic!("expected function tool");
    };
    assert_eq!(name, "shell");
    assert!(
        description.contains("The shell tool is used to execute shell commands."),
        "description should explain shell usage"
    );
    assert!(
        description.contains("writable roots:"),
        "description should list writable roots"
    );
    assert!(
        description.contains("- workspace"),
        "description should mention workspace root"
    );
    assert!(
        description.contains("Commands that require network access"),
        "description should mention network access requirements"
    );
    assert!(
        description.contains("Long-running commands may be backgrounded"),
        "description should mention backgrounded commands"
    );
}

#[test]
fn test_shell_tool_for_sandbox_readonly() {
    let tool = create_shell_tool_for_sandbox(&SandboxPolicy::ReadOnly);
    let OpenAiTool::Function(ResponsesApiTool { description, name, .. }) = &tool else {
        panic!("expected function tool");
    };
    assert_eq!(name, "shell");
    assert!(description.starts_with("Runs a shell command and returns its output."));
    assert!(description.contains("Long-running commands may be backgrounded"));
}

#[test]
fn test_shell_tool_for_sandbox_danger_full_access() {
    let tool = create_shell_tool_for_sandbox(&SandboxPolicy::DangerFullAccess);
    let OpenAiTool::Function(ResponsesApiTool { description, name, .. }) = &tool else {
        panic!("expected function tool");
    };
    assert_eq!(name, "shell");
    assert!(description.starts_with("Runs a shell command and returns its output."));
    assert!(description.contains("Long-running commands may be backgrounded"));
}

// ---------------------------------------------------------------------------
// Further cases

#[test]
fn order_of_server_tools_does_not_depend_on_how_they_come() {
    let config = o3_config();
    let one = || ("b/one".to_string(), mcp_tool("one", obj(vec![])));
    let two = || ("a/two".to_string(), mcp_tool("two", obj(vec![])));
    assert_eq!(
        tools_of(&config, vec![one(), two()], false, false, &[]),
        tools_of(&config, vec![two(), one()], false, false, &[])
    );
}

#[test]
fn server_tool_with_a_broken_schema_is_left_out() {
    let config = o3_config();
    let broken = mcp_tool(
        "broken",
        obj(vec![(
            "q",
            obj(vec![
                ("type", json_str("string")),
                ("description", JsonValue::Bool(true)),
            ]),
        )]),
    );
    assert!(mcp_tool_to_openai_tool("x/broken".to_string(), &broken).is_err());
    let without = tools_of(&config, Vec::new(), false, false, &[]);
    let with = tools_of(&config, vec![("x/broken".to_string(), broken)], false, false, &[]);
    assert_eq!(with, without);
}

#[test]
fn windows_never_has_the_freeform_patch() {
    for wanted in [false, true] {
        assert_ne!(
            apply_patch_tool_type_for_platform(&gpt_5_4_family(), wanted, true),
            Some(ApplyPatchToolType::Freeform)
        );
    }
}

#[test]
fn streamable_shell_is_not_chosen() {
    let config = ToolsConfig::new(
        &o3_family(),
        AskForApproval::Never,
        SandboxPolicy::DangerFullAccess,
        false,
        false,
        false,
        true,
        false,
        false,
    );
    assert_eq!(config.shell_type, ConfigShellToolType::DefaultShell);
}

#[test]
fn asking_on_request_brings_the_shell_that_asks() {
    let config = ToolsConfig::new(
        &o3_family(),
        AskForApproval::OnRequest,
        SandboxPolicy::ReadOnly,
        false,
        false,
        false,
        false,
        false,
        false,
    );
    assert_eq!(
        config.shell_type,
        ConfigShellToolType::ShellWithRequest { sandbox_policy: SandboxPolicy::ReadOnly }
    );
}

fn dynamic(namespace: Option<&str>, name: &str) -> DynamicToolSpec {
    DynamicToolSpec {
        namespace: namespace.map(str::to_string),
        name: name.to_string(),
        description: format!("does {name}"),
        input_schema: obj(vec![("type", json_str("object")), ("properties", obj(vec![]))]),
    }
}

#[test]
fn given_tools_of_one_namespace_are_grouped() {
    let config = o3_config();
    let tools = tools_of(
        &config,
        Vec::new(),
        false,
        false,
        &[dynamic(Some("ide"), "open"), dynamic(None, "ping"), dynamic(Some("ide"), "close")],
    );
    let groups: Vec<&ResponsesApiNamespace> = tools
        .iter()
        .filter_map(|t| match t {
            OpenAiTool::Namespace(n) => Some(n),
            _ => None,
        })
        .collect();
    assert_eq!(groups.len(), 1);
    assert_eq!(groups[0].name, "ide");
    assert_eq!(groups[0].description, default_namespace_description("ide"));
    let names: Vec<&str> = groups[0]
        .tools
        .iter()
        .map(|t| match t {
            ResponsesApiNamespaceTool::Function(f) => f.name.as_str(),
        })
        .collect();
    assert_eq!(names, vec!["open", "close"]);
    assert!(tools.iter().any(|t| tool_name(t) == "ping"));
}

#[test]
fn pushing_a_group_joins_the_group_of_its_name() {
    let group = |tool: &str| {
        OpenAiTool::Namespace(ResponsesApiNamespace {
            name: "ide".to_string(),
            description: "d".to_string(),
            tools: vec![ResponsesApiNamespaceTool::Function(named(tool))],
        })
    };
    let mut tools = vec![group("a")];
    push_openai_tool_coalescing_namespaces(&mut tools, group("b"));
    assert_eq!(tools.len(), 1);
    push_openai_tool_coalescing_namespaces(&mut tools, OpenAiTool::LocalShell {});
    assert_eq!(tools.len(), 2);
    match &tools[0] {
        OpenAiTool::Namespace(n) => assert_eq!(n.tools.len(), 2),
        _ => panic!("expected a group"),
    }
}

#[test]
fn given_tool_with_a_broken_schema_is_refused() {
    let mut tool = dynamic(None, "bad");
    tool.input_schema = obj(vec![
        ("type", json_str("object")),
        ("properties", obj(vec![])),
        ("required", arr(vec![JsonValue::Bool(true)])),
    ]);
    assert!(dynamic_tool_to_openai_tool(&tool).is_err());
    assert!(dynamic_tool_to_openai_tool(&dynamic(None, "good")).is_ok());
}

#[test]
fn server_tool_keeps_its_name_and_description() {
    let tool = mcp_tool_to_openai_tool("s/t".to_string(), &mcp_tool("what it does", obj(vec![])))
        .expect("a plain schema");
    assert_eq!(tool.name, "s/t");
    assert_eq!(tool.description, "what it does");
    assert!(!tool.strict);
}

fn empty_object_schema() -> JsonValue {
    obj(vec![
        ("type", json_str("object")),
        ("properties", obj(vec![])),
        ("required", arr(vec![])),
    ])
}

#[test]
fn function_tool_in_json() {
    let tools = [OpenAiTool::Function(named("x"))];
    let json = create_tools_json_for_responses_api(&tools).expect("json");
    assert_eq!(
        json,
        vec![obj(vec![
            ("type", json_str("function")),
            ("name", json_str("x")),
            ("description", json_str("the x tool")),
            ("strict", JsonValue::Bool(false)),
            ("parameters", empty_object_schema()),
        ])]
    );
}

#[test]
fn chat_json_holds_functions_only_and_nests_them() {
    let tools = [OpenAiTool::Function(named("x")), OpenAiTool::LocalShell {}];
    let json = create_tools_json_for_chat_completions_api(&tools).expect("json");
    assert_eq!(
        json,
        vec![obj(vec![
            ("type", json_str("function")),
            (
                "function",
                obj(vec![
                    ("name", json_str("x")),
                    ("description", json_str("the x tool")),
                    ("strict", JsonValue::Bool(false)),
                    ("parameters", empty_object_schema()),
                ])
            ),
        ])]
    );
}

#[test]
fn wait_tool_has_its_name() {
    assert_eq!(tool_name(&create_wait_tool()), "wait");
}
