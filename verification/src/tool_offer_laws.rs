//! What each switch, each server and each given tool adds to the tools that are offered.

use crate::decode::decoded;
use crate::json::{strings_view, JsonView};
use crate::protocol::{
    ApplyPatchToolType, AskForApproval, ModelFamily, PolicyView, SandboxPolicy, WebSearchToolType,
};
use crate::repair_laws::{
    keywords_are_kept, named_type_stays, object_schemas_are_read, other_keywords_stay,
    properties_are_repaired, repaired_objects_are_objects, schemas_say_what_they_hold, texts_under,
};
use crate::sanitize::sanitized;
use crate::schema::JsonSchema;
use crate::schema_laws::names_differ;
use crate::text::{lex_lt, texts};
use crate::tool_laws::by_name_orders;
use crate::tool_list::{
    built_in_tools, by_name, coalesced, dynamic_tool, group_place, group_place_is_first, is_group,
    mcp_function, mcp_functions, mcp_input_json, name_before, offered_tools, shell_type_for,
    tools_config_for, with_dynamic, CompanionTools, ConfigShellToolType, DynamicToolSpec,
    DynamicToolView, McpTool, McpToolView, ToolsConfig, ToolsConfigView,
};
use crate::tools::{ResponsesApiTool, ToolView};
use vstd::prelude::*;

verus! {

broadcast use vstd::seq_lib::group_seq_properties;

proof fn required_is_its_own()
    ensures
        "required"@ != "type"@,
        "required"@ != "properties"@,
        "required"@ != "additionalProperties"@,
        "required"@ != "items"@,
        "required"@ != "oneOf"@,
        "required"@ != "anyOf"@,
        "required"@ != "allOf"@,
        "required"@ != "prefixItems"@,
{
    reveal_strlit("required");
    reveal_strlit("type");
    reveal_strlit("properties");
    reveal_strlit("additionalProperties");
    reveal_strlit("items");
    reveal_strlit("oneOf");
    reveal_strlit("anyOf");
    reveal_strlit("allOf");
    reveal_strlit("prefixItems");
    assert("required"@.len() == 8);
}

/// A function made of a server's tool has the name that it is called by, the tool's
/// description, and leaves its arguments as they come.
pub proof fn server_tools_keep_their_names(name: String, tool: McpTool, f: ResponsesApiTool)
    requires
        mcp_function(name@, tool.view()) == Some(f.view()),
    ensures
        f.name@ == name@,
        tool.description matches Some(d) ==> f.description@ == d@,
        tool.description is None ==> f.description@.len() == 0,
        !f.strict,
{
    assert(f.view().name == f.name@ && f.view().description == f.description@);
    assert(f.view().strict == f.strict);
}

/// Where the arguments of a server's tool are an object, the function that it becomes
/// requires just the arguments that the server requires, in the same order; where the
/// server says nothing of that, neither does the function.
pub proof fn server_tools_keep_required_arguments(name: String, tool: McpTool, f: ResponsesApiTool)
    requires
        mcp_function(name@, tool.view()) == Some(f.view()),
        tool.input_schema.schema_type@ == "object"@,
        tool.input_schema.properties matches Some(p) ==> p.view() is Object,
    ensures
        f.parameters is Object,
        tool.input_schema.required matches Some(names) ==> f.parameters->required is Some && texts(
            f.parameters->required->0@,
        ) == texts(names@),
        tool.input_schema.required is None ==> f.parameters->required is None,
{
    let t = tool.view();
    server_parameters(t, Seq::empty());
    assert(f.view().parameters == f.parameters.view());
    schemas_say_what_they_hold(f.parameters);
    match f.parameters {
        JsonSchema::Object { required, .. } => {
            assert(f.parameters.view()->required == t.required);
        },
        _ => {},
    }
}

/// The properties of a server's tool, where there are any.
pub open spec fn server_properties(t: McpToolView) -> Map<Seq<char>, JsonView> {
    match t.properties {
        Some(JsonView::Object(p)) => p,
        _ => Map::empty(),
    }
}

proof fn server_parameters(t: McpToolView, k: Seq<char>)
    requires
        decoded(sanitized(mcp_input_json(t)), false) is Some,
        t.schema_type == "object"@,
        t.properties matches Some(p) ==> p is Object,
    ensures
        ({
            let r = decoded(sanitized(mcp_input_json(t)), false)->0;
            let p = server_properties(t);
            &&& r is Object
            &&& r->required == t.required
            &&& r->Object_properties.contains_key(k) <==> p.contains_key(k)
            &&& p.contains_key(k) ==> decoded(sanitized(p[k]), true) == Some(
                r->Object_properties[k],
            )
            &&& r->additional_properties is None
        }),
{
    names_differ();
    required_is_its_own();
    let m = mcp_input_json(t)->Object_0;
    let p = server_properties(t);
    let s = sanitized(JsonView::Object(m))->Object_0;
    assert(mcp_input_json(t) == JsonView::Object(m));
    assert(m["type"@] == JsonView::String("object"@));
    assert(m["properties"@] == JsonView::Object(p));
    named_type_stays(m, "object"@);
    repaired_objects_are_objects(m);
    keywords_are_kept(m, "properties"@);
    keywords_are_kept(m, "required"@);
    keywords_are_kept(m, "additionalProperties"@);
    properties_are_repaired(m, p, "properties"@);
    let q = s["properties"@]->Object_0;
    if let Some(names) = t.required {
        assert(m["required"@] == strings_view(names));
        other_keywords_stay(m, "required"@);
        assert(s["required"@] == strings_view(names));
        assert forall|i: int| 0 <= i < names.len() implies #[trigger] s["required"@]->Array_0[i]
            == JsonView::String(names[i]) by {}
    }
    assert(texts_under(s, "required"@, t.required));
    assert(!m.contains_key("additionalProperties"@));
    properties_are_repaired(m, p, k);
    object_schemas_are_read(s, false, q, t.required, k);
}

/// Where the arguments of a server's tool are an object, the function that it becomes has
/// just the arguments that the server describes, each as its schema is repaired and read.
pub proof fn server_tools_keep_their_arguments(
    name: String,
    tool: McpTool,
    f: ResponsesApiTool,
    k: Seq<char>,
)
    requires
        mcp_function(name@, tool.view()) == Some(f.view()),
        tool.input_schema.schema_type@ == "object"@,
        tool.input_schema.properties matches Some(p) ==> p.view() is Object,
    ensures
        f.parameters is Object,
        tool.input_schema.properties is None ==> !f.parameters->properties@.contains_key(k),
        tool.input_schema.properties matches Some(p) ==> {
            let given = p.view()->Object_0;
            &&& f.parameters->properties@.contains_key(k) <==> given.contains_key(k)
            &&& given.contains_key(k) ==> decoded(sanitized(given[k]), true) == Some(
                f.parameters->properties@[k].view(),
            )
        },
        f.parameters->additional_properties is None,
{
    let t = tool.view();
    server_parameters(t, k);
    assert(f.view().parameters == f.parameters.view());
    schemas_say_what_they_hold(f.parameters);
    let r = decoded(sanitized(mcp_input_json(t)), false)->0;
    assert(r == f.parameters.view());
    assert(r->Object_properties.contains_key(k) <==> server_properties(t).contains_key(k));
    match f.parameters {
        JsonSchema::Object { properties, .. } => {
            assert(r->Object_properties.dom() == properties@.dom());
            assert(properties@.contains_key(k) <==> r->Object_properties.contains_key(k));
        },
        _ => {},
    }
}

/// Every tool of a server whose arguments can be read is offered, under its name.
pub proof fn readable_server_tools_are_offered(
    s: Seq<(Seq<char>, McpToolView)>,
    i: int,
)
    requires
        0 <= i < s.len(),
        mcp_function(s[i].0, s[i].1) is Some,
    ensures
        mcp_functions(s).contains(ToolView::Function(mcp_function(s[i].0, s[i].1)->0)),
        mcp_function(s[i].0, s[i].1)->0.name == s[i].0,
    decreases s.len(),
{
    let t = ToolView::Function(mcp_function(s[i].0, s[i].1)->0);
    let r = mcp_functions(s);
    if i == s.len() - 1 {
        assert(r[r.len() - 1] == t);
    } else {
        let rest = s.drop_last();
        readable_server_tools_are_offered(rest, i);
        let before = mcp_functions(rest);
        let j = choose|j: int| 0 <= j < before.len() && before[j] == t;
        assert(r[j] == t);
    }
}

/// Every function that is offered for a server is one of its tools, and they come in the
/// order in which the tools do.
pub proof fn offered_server_tools_exist(s: Seq<(Seq<char>, McpToolView)>) -> (places: Seq<int>)
    ensures
        places.len() == mcp_functions(s).len(),
        forall|k: int, l: int|
            0 <= k < l < places.len() ==> #[trigger] places[k] < #[trigger] places[l],
        forall|k: int|
            0 <= k < places.len() ==> {
                &&& 0 <= #[trigger] places[k] < s.len()
                &&& mcp_functions(s)[k] is Function
                &&& mcp_functions(s)[k]->Function_0.name == s[places[k]].0
                &&& mcp_function(s[places[k]].0, s[places[k]].1) == Some(
                    mcp_functions(s)[k]->Function_0,
                )
            },
    decreases s.len(),
{
    if s.len() == 0 {
        Seq::empty()
    } else {
        let rest = s.drop_last();
        let before = offered_server_tools_exist(rest);
        let places = if mcp_function(s.last().0, s.last().1) is Some {
            before.push(s.len() - 1)
        } else {
            before
        };
        assert forall|k: int| 0 <= k < places.len() implies {
            &&& 0 <= #[trigger] places[k] < s.len()
            &&& mcp_functions(s)[k] is Function
            &&& mcp_functions(s)[k]->Function_0.name == s[places[k]].0
            &&& mcp_function(s[places[k]].0, s[places[k]].1) == Some(
                mcp_functions(s)[k]->Function_0,
            )
        } by {
            if k < before.len() {
                assert(places[k] == before[k]);
                assert(rest[before[k]] == s[before[k]]);
                assert(mcp_functions(s)[k] == mcp_functions(rest)[k]);
            }
        }
        places
    }
}

/// The tools of servers are offered in the order of their names.
pub proof fn server_tools_come_by_name(s: Seq<(Seq<char>, McpToolView)>, k: int, l: int)
    requires
        0 <= k < l < mcp_functions(by_name(s)).len(),
    ensures
        mcp_functions(by_name(s))[k] is Function,
        mcp_functions(by_name(s))[l] is Function,
        !lex_lt(
            mcp_functions(by_name(s))[l]->Function_0.name,
            mcp_functions(by_name(s))[k]->Function_0.name,
        ),
{
    let b = by_name(s);
    by_name_orders(s);
    let places = offered_server_tools_exist(b);
    assert(places[k] < places[l]);
    assert(!(name_before::<McpToolView>())(b[places[l]], b[places[k]]));
}

/// The built-in tools come first, then those of servers; those that the session was given
/// take no place away from either.
pub proof fn offered_tools_have_their_places(
    c: ToolsConfigView,
    companions: CompanionTools,
    mcp: Option<Seq<(Seq<char>, McpToolView)>>,
    browser_enabled: bool,
    i: int,
)
    ensures
        ({
            let r = offered_tools(c, companions, mcp, browser_enabled, Seq::empty());
            let b = built_in_tools(c, companions, browser_enabled);
            &&& r.len() >= b.len()
            &&& 0 <= i < b.len() ==> r[i] == b[i]
            &&& mcp is None ==> r.len() == b.len()
            &&& mcp matches Some(s) ==> {
                let m = mcp_functions(by_name(s));
                &&& r.len() == b.len() + m.len()
                &&& 0 <= i < m.len() ==> r[b.len() + i] == m[i]
            }
        }),
{
}

// ---------------------------------------------------------------------------
// The built-in tools

/// The search of the web looks where the configuration lets it: outside or not, at the
/// listed domains only where there are any, and for images where the model takes them.
pub proof fn web_search_is_as_configured(
    config: ToolsConfig,
    companions: CompanionTools,
    browser_enabled: bool,
    i: int,
)
    requires
        0 <= i < built_in_tools(config.view(), companions, browser_enabled).len(),
        built_in_tools(config.view(), companions, browser_enabled)[i] is WebSearch,
        !(companions.agent.view() is WebSearch),
        !(companions.plan.view() is WebSearch),
        !(companions.apply_patch_json.view() is WebSearch),
        !(companions.apply_patch_freeform.view() is WebSearch),
    ensures
        config.web_search_request,
        ({
            let w = built_in_tools(config.view(), companions, browser_enabled)[i]->WebSearch_0;
            &&& w.external_web_access == Some(config.web_search_external)
            &&& config.web_search_tool_type == WebSearchToolType::Text
                ==> w.search_content_types is None
            &&& config.web_search_tool_type == WebSearchToolType::TextAndImage
                ==> w.search_content_types == Some(seq!["text"@, "image"@])
            &&& config.web_search_allowed_domains matches Some(d) ==> d@.len() > 0 ==> w.filters
                == Some(Some(texts(d@)))
            &&& config.web_search_allowed_domains matches Some(d) ==> d@.len() == 0
                ==> w.filters is None
            &&& config.web_search_allowed_domains is None ==> w.filters is None
            &&& w.user_location is None && w.search_context_size is None
        }),
{
    if let Some(d) = config.web_search_allowed_domains {
        assert(config.view().web_search_allowed_domains == Some(texts(d@)));
        assert(texts(d@).len() == d@.len());
    }
}

// ---------------------------------------------------------------------------
// The configuration of the tools

/// The configuration of the tools switches on just what is asked for.
pub proof fn tools_are_configured_as_asked(
    r: ToolsConfig,
    family: ModelFamily,
    approval_policy: AskForApproval,
    policy: SandboxPolicy,
    plan: bool,
    apply_patch: bool,
    web_search: bool,
    view_image: bool,
    is_windows: bool,
)
    requires
        r.view() == tools_config_for(
            family,
            approval_policy,
            policy.view(),
            plan,
            apply_patch,
            web_search,
            view_image,
            is_windows,
        ),
    ensures
        r.plan_tool == plan,
        r.web_search_request == web_search,
        r.include_view_image_tool == view_image,
        r.web_search_external,
        !r.image_gen_tool && !r.search_tool,
        r.web_search_tool_type == family.web_search_tool_type,
        r.web_search_allowed_domains is None,
        r.agent_model_allowed_values@.len() == 0,
        r.apply_patch_tool_type is Some <==> apply_patch && family.apply_patch_tool_type is Some,
        apply_patch && !is_windows ==> r.apply_patch_tool_type == family.apply_patch_tool_type,
        is_windows && r.apply_patch_tool_type is Some ==> r.apply_patch_tool_type == Some(
            ApplyPatchToolType::Function,
        ),
        ({
            let commands = family.uses_shell_command_tool && !family.uses_local_shell_tool && !(
            is_windows && apply_patch);
            let asks = approval_policy == AskForApproval::OnRequest;
            &&& r.shell_type is ShellCommand <==> commands
            &&& r.shell_type is ShellWithRequest <==> !commands && asks
            &&& r.shell_type is LocalShell <==> !asks && family.uses_local_shell_tool
            &&& r.shell_type is DefaultShell <==> !commands && !asks
                && !family.uses_local_shell_tool
            &&& r.shell_type matches ConfigShellToolType::ShellCommand { sandbox_policy }
                ==> sandbox_policy.view() == policy.view()
            &&& r.shell_type matches ConfigShellToolType::ShellWithRequest { sandbox_policy }
                ==> sandbox_policy.view() == policy.view()
        }),
{
    let v = r.view();
    assert(v.shell_type is ShellCommand <==> r.shell_type is ShellCommand);
    assert(v.shell_type is ShellWithRequest <==> r.shell_type is ShellWithRequest);
    assert(v.shell_type is LocalShell <==> r.shell_type is LocalShell);
    assert(v.shell_type is DefaultShell <==> r.shell_type is DefaultShell);
    assert(texts(r.agent_model_allowed_values@).len() == r.agent_model_allowed_values@.len());
    if let Some(d) = r.web_search_allowed_domains {
        assert(v.web_search_allowed_domains is Some);
    }
}

/// A shell whose output streams is chosen where it is asked for; else the model's own
/// one; else one that takes a whole command, unless patches are made on Windows.
pub proof fn shell_goes_by_model_and_platform(
    family: ModelFamily,
    policy: PolicyView,
    streamable: bool,
    apply_patch: bool,
    is_windows: bool,
)
    ensures
        ({
            let r = shell_type_for(
                family.uses_local_shell_tool,
                family.uses_shell_command_tool,
                policy,
                streamable,
                apply_patch,
                is_windows,
            );
            let local = family.uses_local_shell_tool;
            let command = family.uses_shell_command_tool;
            &&& r is StreamableShell <==> streamable
            &&& r is LocalShell <==> !streamable && local
            &&& r is ShellCommand <==> !streamable && !local && command && (!is_windows
                || !apply_patch)
            &&& r is DefaultShell <==> !streamable && !local && (!command || (is_windows
                && apply_patch))
            &&& r is ShellCommand ==> r->ShellCommand_sandbox_policy == policy
        }),
{
}

// ---------------------------------------------------------------------------
// The tools that the session is given

/// A given tool becomes a function of its name and description, with the arguments that
/// its schema is repaired and read as. With a namespace, it is the one tool of a group of
/// that name.
pub proof fn given_tools_keep_what_they_say(tool: DynamicToolSpec)
    ensures
        dynamic_tool(tool.view()) is Some <==> decoded(
            sanitized(tool.input_schema.view()),
            false,
        ) is Some,
        dynamic_tool(tool.view()) matches Some(t) ==> {
            &&& tool.namespace is None ==> t is Function
            &&& tool.namespace matches Some(n) ==> {
                &&& t is Namespace
                &&& t->Namespace_name == n@
                &&& t->Namespace_description == "Tools in the "@ + n@ + " namespace."@
                &&& t->tools.len() == 1
            }
            &&& {
                let f = if tool.namespace is None {
                    t->Function_0
                } else {
                    t->tools[0]
                };
                &&& f.name == tool.name@
                &&& f.description == tool.description@
                &&& !f.strict
                &&& decoded(sanitized(tool.input_schema.view()), false) == Some(f.parameters)
            }
        },
{
}

/// A group that is added to one of the same name brings its tools behind those that are
/// there, and leaves the description; any other tool is added at the end.
pub proof fn groups_of_a_name_are_joined(s: Seq<ToolView>, t: ToolView, p: int)
    ensures
        !(t is Namespace) ==> coalesced(s, t) == s.push(t),
        t is Namespace && (forall|i: int|
            0 <= i < s.len() ==> !is_group(#[trigger] s[i], t->Namespace_name)) ==> coalesced(s, t)
            == s.push(t),
        t is Namespace && 0 <= p < s.len() && s[p] is Namespace && s[p]->Namespace_name
            == t->Namespace_name && (forall|i: int|
            0 <= i < p ==> !is_group(#[trigger] s[i], t->Namespace_name)) ==> {
            let r = coalesced(s, t);
            &&& r.len() == s.len()
            &&& r[p] is Namespace
            &&& r[p]->Namespace_name == t->Namespace_name
            &&& r[p]->Namespace_description == s[p]->Namespace_description
            &&& r[p]->tools == s[p]->tools + t->tools
            &&& forall|i: int| 0 <= i < s.len() && i != p ==> #[trigger] r[i] == s[i]
        },
{
    if t is Namespace {
        let name = t->Namespace_name;
        group_place_is_first(s, name);
        let q = group_place(s, name);
        if q < s.len() {
            assert(is_group(s[q], name));
        }
        if 0 <= p < s.len() && s[p] is Namespace && s[p]->Namespace_name == name {
            assert(is_group(s[p], name));
        }
    }
}

/// A group is one of the name that it has.
pub proof fn groups_go_by_their_names(t: ToolView, name: Seq<char>)
    ensures
        is_group(t, name) <==> t is Namespace && t->Namespace_name == name,
{
}

/// Each given tool whose arguments can be read is offered: as itself, or in the group of
/// its namespace.
pub proof fn given_tools_are_offered(s: Seq<ToolView>, given: Seq<DynamicToolView>, i: int)
    requires
        0 <= i < given.len(),
        dynamic_tool(given[i]) is Some,
    ensures
        ({
            let r = with_dynamic(s, given);
            let t = dynamic_tool(given[i])->0;
            exists|j: int| 0 <= j < r.len() && is_offered_in(t, #[trigger] r[j])
        }),
    decreases given.len(),
{
    let rest = given.drop_last();
    let t = dynamic_tool(given[i])->0;
    let before = with_dynamic(s, rest);
    let r = with_dynamic(s, given);
    if i == given.len() - 1 {
        if t is Namespace {
            group_place_is_first(before, t->Namespace_name);
            let p = group_place(before, t->Namespace_name);
            if p < before.len() {
                let joined = before[p]->tools + t->tools;
                assert(r[p]->tools == joined);
                assert(joined[before[p]->tools.len() as int] == t->tools[0]);
                assert(joined.contains(t->tools[0]));
                assert(is_offered_in(t, r[p]));
            } else {
                assert(t->tools.contains(t->tools[0]));
                assert(is_offered_in(t, r[before.len() as int]));
            }
        } else {
            assert(is_offered_in(t, r[before.len() as int]));
        }
    } else {
        assert(rest[i] == given[i]);
        given_tools_are_offered(s, rest, i);
        let j = choose|j: int| 0 <= j < before.len() && is_offered_in(t, #[trigger] before[j]);
        if let Some(u) = dynamic_tool(given.last()) {
            if u is Namespace {
                group_place_is_first(before, u->Namespace_name);
                let p = group_place(before, u->Namespace_name);
                if p == j && p < before.len() {
                    let joined = before[p]->tools + u->tools;
                    let k = choose|k: int|
                        0 <= k < before[p]->tools.len() && before[p]->tools[k] == t->tools[0];
                    assert(joined[k] == t->tools[0]);
                    assert(joined.contains(t->tools[0]));
                    assert(is_offered_in(t, r[j]));
                } else {
                    assert(r[j] == before[j]);
                }
            } else {
                assert(r[j] == before[j]);
            }
        } else {
            assert(r[j] == before[j]);
        }
        assert(is_offered_in(t, r[j]));
    }
}

/// The tool is offered as this one: it is this one, or its function is in this group.
pub open spec fn is_offered_in(t: ToolView, r: ToolView) -> bool {
    if t is Namespace {
        r is Namespace && r->Namespace_name == t->Namespace_name && r->tools.contains(t->tools[0])
    } else {
        r == t
    }
}

} // verus!
