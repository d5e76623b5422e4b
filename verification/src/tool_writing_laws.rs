//! What is written of each tool, and what each built-in tool asks for.

use crate::json::JsonView;
use crate::protocol::PolicyView;
use crate::schema::{schema_json, AdditionalView, SchemaView};
use crate::text::{opt_text, texts};
use crate::tool_defs::{
    additional_permissions_schema, bridge_tool, browser_actions, browser_tool, gh_run_wait_tool,
    image_view_tool, kill_tool, request_user_input_tool, root_lines, sandbox_shell_description,
    sandbox_shell_tool, search_tool_bm25_tool, shell_command_description, shell_command_tool,
    shell_tool, wait_tool,
};
use crate::tool_text::{
    SANDBOX_SHELL_HEAD, SANDBOX_SHELL_NO_NETWORK, SANDBOX_SHELL_TAIL, SANDBOX_SHELL_TOOL,
    SHELL_COMMAND_NO_NETWORK, SHELL_COMMAND_ROOTS, SHELL_COMMAND_TOOL,
};
use crate::tools::{
    chat_tools_json, function_json, tool_json, tools_json, FunctionView, OpenAiTool,
    ResponsesApiNamespaceTool, ResponsesApiTool, ToolView, WebSearchContextSize, WebSearchView,
};
use vstd::prelude::*;

verus! {

proof fn member_names_differ()
    ensures
        "type"@ != "name"@,
        "type"@ != "description"@,
        "type"@ != "strict"@,
        "type"@ != "parameters"@,
        "type"@ != "tools"@,
        "type"@ != "execution"@,
        "type"@ != "output_format"@,
        "type"@ != "format"@,
        "type"@ != "syntax"@,
        "type"@ != "definition"@,
        "type"@ != "function"@,
        "type"@ != "external_web_access"@,
        "type"@ != "search_content_types"@,
        "type"@ != "filters"@,
        "type"@ != "user_location"@,
        "type"@ != "search_context_size"@,
        "name"@ != "description"@,
        "name"@ != "strict"@,
        "name"@ != "parameters"@,
        "name"@ != "tools"@,
        "name"@ != "format"@,
        "description"@ != "strict"@,
        "description"@ != "parameters"@,
        "description"@ != "tools"@,
        "description"@ != "execution"@,
        "description"@ != "format"@,
        "strict"@ != "parameters"@,
        "execution"@ != "parameters"@,
        "syntax"@ != "definition"@,
        "external_web_access"@ != "search_content_types"@,
        "external_web_access"@ != "filters"@,
        "external_web_access"@ != "user_location"@,
        "external_web_access"@ != "search_context_size"@,
        "search_content_types"@ != "filters"@,
        "search_content_types"@ != "user_location"@,
        "search_content_types"@ != "search_context_size"@,
        "filters"@ != "user_location"@,
        "filters"@ != "search_context_size"@,
        "user_location"@ != "search_context_size"@,
{
    reveal_strlit("type");
    reveal_strlit("name");
    reveal_strlit("description");
    reveal_strlit("strict");
    reveal_strlit("parameters");
    reveal_strlit("tools");
    reveal_strlit("execution");
    reveal_strlit("output_format");
    reveal_strlit("format");
    reveal_strlit("syntax");
    reveal_strlit("definition");
    reveal_strlit("function");
    reveal_strlit("external_web_access");
    reveal_strlit("search_content_types");
    reveal_strlit("filters");
    reveal_strlit("user_location");
    reveal_strlit("search_context_size");
    assert("type"@.len() == 4 && "type"@[0] == 't' && "name"@.len() == 4 && "name"@[0] == 'n');
    assert("description"@.len() == 11 && "strict"@.len() == 6 && "parameters"@.len() == 10);
    assert("tools"@.len() == 5 && "execution"@.len() == 9 && "output_format"@.len() == 13);
    assert("format"@.len() == 6 && "syntax"@.len() == 6 && "definition"@.len() == 10);
    assert("function"@.len() == 8 && "external_web_access"@.len() == 19);
    assert("search_content_types"@.len() == 20 && "filters"@.len() == 7);
    assert("user_location"@.len() == 13 && "search_context_size"@.len() == 19);
    assert("external_web_access"@[0] == 'e' && "search_context_size"@[0] == 's');
}

/// A tool says what it holds.
pub proof fn tools_say_what_they_hold(t: OpenAiTool)
    ensures
        t matches OpenAiTool::Function(f) ==> t.view() is Function && says(
            t.view()->Function_0,
            f,
        ),
        t matches OpenAiTool::Namespace(n) ==> {
            &&& t.view() is Namespace
            &&& t.view()->Namespace_name == n.name@
            &&& t.view()->Namespace_description == n.description@
            &&& t.view()->tools.len() == n.tools@.len()
            &&& forall|i: int|
                0 <= i < n.tools@.len() ==> (#[trigger] n.tools@[i] matches
                    ResponsesApiNamespaceTool::Function(f) ==> says(t.view()->tools[i], f))
        },
        t matches OpenAiTool::ToolSearch { execution, description, parameters } ==> {
            &&& t.view() is ToolSearch
            &&& t.view()->execution == execution@
            &&& t.view()->ToolSearch_description == description@
            &&& t.view()->ToolSearch_parameters == parameters.view()
        },
        t is LocalShell ==> t.view() is LocalShell,
        t matches OpenAiTool::ImageGeneration { output_format } ==> t.view() is ImageGeneration
            && t.view()->output_format == output_format@,
        t matches OpenAiTool::Freeform(f) ==> {
            &&& t.view() is Freeform
            &&& t.view()->Freeform_name == f.name@
            &&& t.view()->Freeform_description == f.description@
            &&& t.view()->format_type == f.format.format_type@
            &&& t.view()->syntax == f.format.syntax@
            &&& t.view()->definition == f.format.definition@
        },
        t matches OpenAiTool::WebSearch(w) ==> {
            let v = t.view()->WebSearch_0;
            &&& t.view() is WebSearch
            &&& v.external_web_access == w.external_web_access
            &&& v.search_context_size == w.search_context_size
            &&& w.search_content_types is None ==> v.search_content_types is None
            &&& w.search_content_types matches Some(c) ==> v.search_content_types == Some(texts(c@))
            &&& w.filters is None ==> v.filters is None
            &&& w.filters matches Some(f) ==> {
                &&& f.allowed_domains is None ==> v.filters == Some(None::<Seq<Seq<char>>>)
                &&& f.allowed_domains matches Some(d) ==> v.filters == Some(Some(texts(d@)))
            }
            &&& w.user_location is None ==> v.user_location is None
            &&& w.user_location matches Some(l) ==> {
                &&& v.user_location is Some
                &&& v.user_location->0.country == opt_text(l.country)
                &&& v.user_location->0.region == opt_text(l.region)
                &&& v.user_location->0.city == opt_text(l.city)
                &&& v.user_location->0.timezone == opt_text(l.timezone)
            }
        },
{
}

/// A function says what it holds.
pub open spec fn says(v: FunctionView, f: ResponsesApiTool) -> bool {
    &&& v.name == f.name@
    &&& v.description == f.description@
    &&& v.strict == f.strict
    &&& v.parameters == f.parameters.view()
}

/// Of a function its name, its description, whether it is strict and its arguments are
/// written, and nothing else.
pub proof fn functions_are_written(f: FunctionView, k: Seq<char>)
    ensures
        ({
            let m = function_json(f);
            &&& m["type"@] == JsonView::String("function"@)
            &&& m["name"@] == JsonView::String(f.name)
            &&& m["description"@] == JsonView::String(f.description)
            &&& m["strict"@] == JsonView::Bool(f.strict)
            &&& m["parameters"@] == schema_json(f.parameters)
            &&& m.contains_key(k) <==> k == "type"@ || k == "name"@ || k == "description"@ || k
                == "strict"@ || k == "parameters"@
        }),
{
    member_names_differ();
}

/// Of each other tool its kind is written, and what it says.
pub proof fn other_tools_are_written(t: ToolView)
    ensures
        ({
            let m = tool_json(t);
            &&& t matches ToolView::Function(f) ==> m == function_json(f)
            &&& t matches ToolView::Namespace { name, description, tools } ==> {
                &&& m["type"@] == JsonView::String("namespace"@)
                &&& m["name"@] == JsonView::String(name)
                &&& m["description"@] == JsonView::String(description)
                &&& m["tools"@] is Array
                &&& m["tools"@]->Array_0.len() == tools.len()
                &&& forall|i: int|
                    0 <= i < tools.len() ==> #[trigger] m["tools"@]->Array_0[i] == JsonView::Object(
                        function_json(tools[i]),
                    )
            }
            &&& t matches ToolView::ToolSearch { execution, description, parameters } ==> {
                &&& m["type"@] == JsonView::String("tool_search"@)
                &&& m["execution"@] == JsonView::String(execution)
                &&& m["description"@] == JsonView::String(description)
                &&& m["parameters"@] == schema_json(parameters)
            }
            &&& t is LocalShell ==> m["type"@] == JsonView::String("local_shell"@)
            &&& t matches ToolView::ImageGeneration { output_format } ==> {
                &&& m["type"@] == JsonView::String("image_generation"@)
                &&& m["output_format"@] == JsonView::String(output_format)
            }
            &&& t matches ToolView::Freeform { name, description, format_type, syntax, definition }
                ==> {
                &&& m["type"@] == JsonView::String("custom"@)
                &&& m["name"@] == JsonView::String(name)
                &&& m["description"@] == JsonView::String(description)
                &&& m["format"@] is Object
                &&& m["format"@]->Object_0["type"@] == JsonView::String(format_type)
                &&& m["format"@]->Object_0["syntax"@] == JsonView::String(syntax)
                &&& m["format"@]->Object_0["definition"@] == JsonView::String(definition)
            }
        }),
{
    member_names_differ();
}

/// Of a search of the web just what is set is written.
pub proof fn web_searches_are_written(w: WebSearchView, k: Seq<char>)
    ensures
        ({
            let m = tool_json(ToolView::WebSearch(w));
            &&& m["type"@] == JsonView::String("web_search"@)
            &&& w.external_web_access matches Some(b) ==> m["external_web_access"@]
                == JsonView::Bool(b)
            &&& w.search_content_types matches Some(t) ==> {
                &&& m["search_content_types"@] is Array
                &&& m["search_content_types"@]->Array_0.len() == t.len()
                &&& forall|i: int|
                    0 <= i < t.len() ==> #[trigger] m["search_content_types"@]->Array_0[i]
                        == JsonView::String(t[i])
            }
            &&& w.filters matches Some(Some(d)) ==> {
                let f = m["filters"@]->Object_0;
                &&& m["filters"@] is Object
                &&& f.contains_key("allowed_domains"@)
                &&& f["allowed_domains"@] is Array
                &&& f["allowed_domains"@]->Array_0.len() == d.len()
                &&& forall|i: int|
                    0 <= i < d.len() ==> #[trigger] f["allowed_domains"@]->Array_0[i]
                        == JsonView::String(d[i])
            }
            &&& w.search_context_size == Some(WebSearchContextSize::Low)
                ==> m["search_context_size"@] == JsonView::String("low"@)
            &&& w.search_context_size == Some(WebSearchContextSize::Medium)
                ==> m["search_context_size"@] == JsonView::String("medium"@)
            &&& w.search_context_size == Some(WebSearchContextSize::High)
                ==> m["search_context_size"@] == JsonView::String("high"@)
            &&& m.contains_key(k) <==> k == "type"@ || (k == "external_web_access"@
                && w.external_web_access is Some) || (k == "search_content_types"@
                && w.search_content_types is Some) || (k == "filters"@ && w.filters is Some) || (k
                == "user_location"@ && w.user_location is Some) || (k == "search_context_size"@
                && w.search_context_size is Some)
        }),
{
    member_names_differ();
}

/// Where the user is, is written as far as it is set.
pub proof fn locations_are_written(w: WebSearchView, k: Seq<char>)
    requires
        w.user_location is Some,
    ensures
        ({
            let m = tool_json(ToolView::WebSearch(w));
            let l = w.user_location->0;
            let o = m["user_location"@]->Object_0;
            &&& m["user_location"@] is Object
            &&& o["type"@] == JsonView::String("approximate"@)
            &&& l.country matches Some(t) ==> o["country"@] == JsonView::String(t)
            &&& l.region matches Some(t) ==> o["region"@] == JsonView::String(t)
            &&& l.city matches Some(t) ==> o["city"@] == JsonView::String(t)
            &&& l.timezone matches Some(t) ==> o["timezone"@] == JsonView::String(t)
            &&& o.contains_key(k) <==> k == "type"@ || (k == "country"@ && l.country is Some) || (k
                == "region"@ && l.region is Some) || (k == "city"@ && l.city is Some) || (k
                == "timezone"@ && l.timezone is Some)
        }),
{
    member_names_differ();
    reveal_strlit("type");
    reveal_strlit("country");
    reveal_strlit("region");
    reveal_strlit("city");
    reveal_strlit("timezone");
    assert("type"@.len() == 4 && "country"@.len() == 7 && "region"@.len() == 6);
    assert("city"@.len() == 4 && "timezone"@.len() == 8 && "type"@[0] == 't' && "city"@[0] == 'c');
}

/// Each tool is written, in its place.
pub proof fn every_tool_is_written(s: Seq<ToolView>, i: int)
    requires
        0 <= i < s.len(),
    ensures
        tools_json(s).len() == s.len(),
        tools_json(s)[i] == JsonView::Object(tool_json(s[i])),
{
}

/// For chats just the functions are written, in the order in which they stand: each with
/// its kind set apart from what it says.
pub proof fn chats_are_written_functions(s: Seq<ToolView>) -> (places: Seq<int>)
    ensures
        places.len() == chat_tools_json(s).len(),
        forall|k: int, l: int|
            0 <= k < l < places.len() ==> #[trigger] places[k] < #[trigger] places[l],
        forall|k: int|
            0 <= k < places.len() ==> 0 <= #[trigger] places[k] < s.len() && s[places[k]] is Function
                && is_chat_form(chat_tools_json(s)[k], s[places[k]]->Function_0),
        forall|i: int|
            0 <= i < s.len() && (#[trigger] s[i]) is Function ==> exists|k: int|
                0 <= k < places.len() && #[trigger] places[k] == i,
    decreases s.len(),
{
    if s.len() == 0 {
        Seq::empty()
    } else {
        let rest = s.drop_last();
        let before = chats_are_written_functions(rest);
        let places = if s.last() is Function {
            before.push(s.len() - 1)
        } else {
            before
        };
        assert forall|k: int| 0 <= k < places.len() implies 0 <= #[trigger] places[k] < s.len()
            && s[places[k]] is Function && is_chat_form(
            chat_tools_json(s)[k],
            s[places[k]]->Function_0,
        ) by {
            if k < before.len() {
                assert(places[k] == before[k]);
                assert(rest[before[k]] == s[before[k]]);
                assert(chat_tools_json(s)[k] == chat_tools_json(rest)[k]);
            } else {
                member_names_differ();
                functions_are_written(s.last()->Function_0, "type"@);
            }
        }
        assert forall|i: int| 0 <= i < s.len() && (#[trigger] s[i]) is Function implies exists|
            k: int,
        | 0 <= k < places.len() && #[trigger] places[k] == i by {
            if i < rest.len() {
                assert(rest[i] == s[i]);
                let k = choose|k: int| 0 <= k < before.len() && #[trigger] before[k] == i;
                assert(places[k] == i);
            } else {
                assert(places[before.len() as int] == i);
            }
        }
        places
    }
}

/// The function as chats have it.
pub open spec fn is_chat_form(v: JsonView, f: FunctionView) -> bool {
    let m = v->Object_0;
    let inner = m["function"@]->Object_0;
    &&& v is Object
    &&& m["type"@] == JsonView::String("function"@)
    &&& m["function"@] is Object
    &&& inner["name"@] == JsonView::String(f.name)
    &&& inner["description"@] == JsonView::String(f.description)
    &&& inner["strict"@] == JsonView::Bool(f.strict)
    &&& inner["parameters"@] == schema_json(f.parameters)
    &&& !inner.contains_key("type"@)
}

// ---------------------------------------------------------------------------
// What each built-in tool asks for

/// The arguments are an object that takes no others, and just these are required.
pub open spec fn takes(s: SchemaView, required: Option<Seq<Seq<char>>>) -> bool {
    &&& s is Object
    &&& s->required == required
    &&& s->additional_properties == Some(AdditionalView::Boolean(false))
}

/// The small tools take these arguments.
pub proof fn small_tools_take_these(k: Seq<char>)
    ensures
        ({
            let view = image_view_tool()->Function_0.parameters;
            let wait = wait_tool()->Function_0.parameters;
            let kill = kill_tool()->Function_0.parameters;
            let watch = gh_run_wait_tool()->Function_0.parameters;
            let bridge = bridge_tool()->Function_0.parameters;
            let find = search_tool_bm25_tool()->ToolSearch_parameters;
            &&& takes(view, Some(seq!["path"@]))
            &&& takes(wait, Some(seq!["call_id"@]))
            &&& takes(kill, Some(seq!["call_id"@]))
            &&& takes(watch, None)
            &&& takes(bridge, Some(seq!["action"@]))
            &&& takes(find, Some(seq!["query"@]))
            &&& view->Object_properties.contains_key(k) <==> k == "path"@ || k == "alt_text"@
            &&& wait->Object_properties.contains_key(k) <==> k == "call_id"@ || k == "timeout_ms"@
            &&& kill->Object_properties.contains_key(k) <==> k == "call_id"@
            &&& watch->Object_properties.contains_key(k) <==> k == "run_id"@ || k == "repo"@ || k
                == "workflow"@ || k == "branch"@ || k == "interval_seconds"@
            &&& bridge->Object_properties.contains_key(k) <==> k == "action"@ || k == "level"@ || k
                == "code"@
            &&& find->Object_properties.contains_key(k) <==> k == "query"@ || k == "limit"@
            &&& search_tool_bm25_tool()->execution == "client"@
        }),
{
}

/// The argument is a text, with a description and no list of values.
pub open spec fn is_text(s: SchemaView) -> bool {
    s is String && s->String_description is Some && s->allowed_values is None
}

/// The argument is a list of texts.
pub open spec fn is_texts(s: SchemaView) -> bool {
    s is Array && *s->items is String && (*s->items)->allowed_values is None
}

/// Commands are lists of words, or one text where a shell takes a whole one; times are
/// numbers, and what is on or off is a boolean.
pub proof fn arguments_are_of_their_kinds(policy: PolicyView)
    ensures
        ({
            let plain = shell_tool()->Function_0.parameters->Object_properties;
            let command = shell_command_tool(policy)->Function_0.parameters->Object_properties;
            let asking = sandbox_shell_tool(policy)->Function_0.parameters->Object_properties;
            let wait = wait_tool()->Function_0.parameters->Object_properties;
            let kill = kill_tool()->Function_0.parameters->Object_properties;
            let view = image_view_tool()->Function_0.parameters->Object_properties;
            &&& is_texts(plain["command"@]) && is_text(plain["workdir"@])
            &&& plain["timeout"@] is Number && is_texts(plain["prefix_rule"@])
            &&& is_text(command["command"@]) && is_text(command["workdir"@])
            &&& command["timeout_ms"@] is Number && command["login"@] is Boolean
            &&& is_texts(command["prefix_rule"@])
            &&& is_texts(asking["command"@]) && is_text(asking["workdir"@])
            &&& asking["timeout_ms"@] is Number && is_texts(asking["prefix_rule"@])
            &&& policy is WorkspaceWrite ==> {
                &&& command["sandbox_permissions"@] is String
                &&& command["sandbox_permissions"@]->allowed_values == Some(
                    seq!["use_default"@, "with_additional_permissions"@, "require_escalated"@],
                )
                &&& is_text(command["justification"@])
                &&& command["additional_permissions"@] == additional_permissions_schema()
                &&& asking["sandbox_permissions"@] == command["sandbox_permissions"@]
                &&& is_text(asking["justification"@])
                &&& asking["additional_permissions"@] == additional_permissions_schema()
            }
            &&& is_text(wait["call_id"@]) && wait["timeout_ms"@] is Number
            &&& is_text(kill["call_id"@])
            &&& is_text(view["path"@]) && is_text(view["alt_text"@])
        }),
{
    reveal_strlit("command");
    reveal_strlit("workdir");
    reveal_strlit("timeout");
    reveal_strlit("timeout_ms");
    reveal_strlit("prefix_rule");
    reveal_strlit("login");
    reveal_strlit("sandbox_permissions");
    reveal_strlit("justification");
    reveal_strlit("additional_permissions");
    reveal_strlit("call_id");
    reveal_strlit("path");
    reveal_strlit("alt_text");
    assert("command"@.len() == 7 && "workdir"@.len() == 7 && "timeout"@.len() == 7);
    assert("command"@[0] == 'c' && "workdir"@[0] == 'w' && "timeout"@[0] == 't');
    assert("timeout_ms"@.len() == 10 && "prefix_rule"@.len() == 11 && "login"@.len() == 5);
    assert("sandbox_permissions"@.len() == 19 && "justification"@.len() == 13);
    assert("additional_permissions"@.len() == 22 && "call_id"@.len() == 7);
    assert("path"@.len() == 4 && "alt_text"@.len() == 8);
}

/// The shells take a command; one in a workspace that may be written to can be asked for
/// more than is allowed, and no other one can.
pub proof fn shells_take_these(policy: PolicyView, k: Seq<char>)
    ensures
        ({
            let plain = shell_tool()->Function_0.parameters;
            let command = shell_command_tool(policy)->Function_0.parameters;
            let asking = sandbox_shell_tool(policy)->Function_0.parameters;
            let more = policy is WorkspaceWrite && (k == "sandbox_permissions"@ || k
                == "justification"@ || k == "additional_permissions"@);
            &&& takes(plain, Some(seq!["command"@]))
            &&& takes(command, Some(seq!["command"@]))
            &&& takes(asking, Some(seq!["command"@]))
            &&& plain->Object_properties.contains_key(k) <==> k == "command"@ || k == "workdir"@
                || k == "timeout"@ || k == "prefix_rule"@
            &&& command->Object_properties.contains_key(k) <==> k == "command"@ || k == "workdir"@
                || k == "timeout_ms"@ || k == "login"@ || k == "prefix_rule"@ || more
            &&& asking->Object_properties.contains_key(k) <==> k == "command"@ || k == "workdir"@
                || k == "timeout_ms"@ || k == "prefix_rule"@ || more
        }),
{
}

/// The browser can do more once it is there; opening it, asking how it is and fetching
/// can always be asked for.
pub proof fn browser_takes_these(browser_enabled: bool, k: Seq<char>)
    ensures
        ({
            let p = browser_tool(browser_enabled)->Function_0.parameters;
            let actions = browser_actions(browser_enabled);
            &&& takes(p, Some(seq!["action"@]))
            &&& p->Object_properties.contains_key(k) <==> k == "action"@ || k == "url"@ || k
                == "type"@ || k == "x"@ || k == "y"@ || k == "dx"@ || k == "dy"@ || k == "text"@
                || k == "key"@ || k == "code"@ || k == "direction"@ || k == "id"@ || k == "lines"@
                || k == "method"@ || k == "params"@ || k == "target"@ || k == "timeout_ms"@ || k
                == "mode"@
            &&& actions[0] == "open"@ && actions[1] == "status"@ && actions[2] == "fetch"@
            &&& browser_enabled ==> actions.len() == 15
            &&& !browser_enabled ==> actions.len() == 3
            &&& p->Object_properties["action"@] is String
            &&& p->Object_properties["action"@]->allowed_values == Some(actions)
            &&& p->Object_properties["params"@] is Object
            &&& p->Object_properties["params"@]->additional_properties == Some(
                AdditionalView::Boolean(true),
            )
            &&& is_text(p->Object_properties["url"@]) && is_text(p->Object_properties["text"@])
            &&& p->Object_properties["x"@] is Number && p->Object_properties["y"@] is Number
            &&& p->Object_properties["timeout_ms"@] is Number
        }),
{
    reveal_strlit("action");
    reveal_strlit("url");
    reveal_strlit("type");
    reveal_strlit("x");
    reveal_strlit("y");
    reveal_strlit("dx");
    reveal_strlit("dy");
    reveal_strlit("text");
    reveal_strlit("key");
    reveal_strlit("code");
    reveal_strlit("direction");
    reveal_strlit("id");
    reveal_strlit("lines");
    reveal_strlit("method");
    reveal_strlit("params");
    reveal_strlit("target");
    reveal_strlit("timeout_ms");
    reveal_strlit("mode");
    assert("action"@.len() == 6 && "params"@.len() == 6 && "target"@.len() == 6);
    assert("method"@.len() == 6 && "timeout_ms"@.len() == 10 && "direction"@.len() == 9);
    assert("url"@.len() == 3 && "key"@.len() == 3 && "type"@.len() == 4 && "text"@.len() == 4);
    assert("code"@.len() == 4 && "mode"@.len() == 4 && "lines"@.len() == 5 && "id"@.len() == 2);
    assert("x"@.len() == 1 && "y"@.len() == 1 && "dx"@.len() == 2 && "dy"@.len() == 2);
    assert("x"@[0] == 'x' && "y"@[0] == 'y' && "url"@[0] == 'u' && "key"@[0] == 'k');
    assert("action"@[0] == 'a' && "params"@[0] == 'p' && "target"@[0] == 't' && "method"@[0] == 'm');
    assert("text"@[1] == 'e' && "type"@[1] == 'y' && "code"@[0] == 'c' && "mode"@[0] == 'm');
    assert("text"@[0] == 't');
}

/// What the user is asked is a list of questions, each with its options.
pub proof fn questions_take_these(k: Seq<char>)
    ensures
        ({
            let p = request_user_input_tool()->Function_0.parameters;
            let q = *p->Object_properties["questions"@]->items;
            &&& takes(p, Some(seq!["questions"@]))
            &&& p->Object_properties.contains_key(k) <==> k == "questions"@
            &&& p->Object_properties["questions"@] is Array
            &&& takes(q, Some(seq!["id"@, "header"@, "question"@, "options"@]))
            &&& q->Object_properties.contains_key(k) <==> k == "id"@ || k == "header"@ || k
                == "question"@ || k == "options"@
            &&& q->Object_properties["options"@] is Array
            &&& takes(
                *q->Object_properties["options"@]->items,
                Some(seq!["label"@, "description"@]),
            )
        }),
{
}

/// More can be asked for of the network, of files, and of what a Mac protects.
pub proof fn permissions_take_these(k: Seq<char>)
    ensures
        ({
            let p = additional_permissions_schema();
            &&& takes(p, None)
            &&& p->Object_properties.contains_key(k) <==> k == "network"@ || k == "file_system"@ || k
                == "macos"@
            &&& takes(p->Object_properties["network"@], None)
            &&& takes(p->Object_properties["file_system"@], None)
            &&& takes(p->Object_properties["macos"@], None)
            &&& p->Object_properties["network"@]->Object_properties.contains_key(k) <==> k
                == "enabled"@
            &&& p->Object_properties["file_system"@]->Object_properties.contains_key(k) <==> k
                == "read"@ || k == "write"@
            &&& p->Object_properties["macos"@]->Object_properties.contains_key(k) <==> k
                == "preferences"@ || k == "automations"@ || k == "accessibility"@ || k
                == "calendar"@
            &&& p->Object_properties["network"@]->Object_properties["enabled"@] is Boolean
        }),
{
    reveal_strlit("network");
    reveal_strlit("file_system");
    reveal_strlit("macos");
    assert("network"@.len() == 7 && "file_system"@.len() == 11 && "macos"@.len() == 5);
}

/// In a workspace that may be written to, a shell's description lists each place that may
/// be written to, and says so where the network is out of reach. Elsewhere it depends on
/// nothing.
pub proof fn descriptions_tell_the_limits(
    roots: Seq<Seq<char>>,
    network: bool,
    tmpdir: bool,
    slash_tmp: bool,
    git: bool,
)
    ensures
        ({
            let p = PolicyView::WorkspaceWrite {
                writable_roots: roots,
                network_access: network,
                exclude_tmpdir_env_var: tmpdir,
                exclude_slash_tmp: slash_tmp,
                allow_git_writes: git,
            };
            let c = shell_command_description(p);
            let s = sandbox_shell_description(p);
            &&& roots.len() == 0 && network ==> c == SHELL_COMMAND_TOOL@
            &&& roots.len() == 0 && !network ==> c == SHELL_COMMAND_TOOL@ + SHELL_COMMAND_NO_NETWORK@
            &&& roots.len() > 0 && network ==> c == SHELL_COMMAND_TOOL@ + SHELL_COMMAND_ROOTS@
                + root_lines(roots, "- "@)
            &&& roots.len() > 0 && !network ==> c == SHELL_COMMAND_TOOL@ + SHELL_COMMAND_ROOTS@
                + root_lines(roots, "- "@) + SHELL_COMMAND_NO_NETWORK@
            &&& roots.len() == 0 && !network ==> s == SANDBOX_SHELL_HEAD@ + "    - (none)\n"@
                + SANDBOX_SHELL_NO_NETWORK@ + SANDBOX_SHELL_TAIL@
            &&& roots.len() > 0 && !network ==> s == SANDBOX_SHELL_HEAD@ + root_lines(
                roots,
                "    - "@,
            ) + SANDBOX_SHELL_NO_NETWORK@ + SANDBOX_SHELL_TAIL@
            &&& roots.len() > 0 && network ==> s == SANDBOX_SHELL_HEAD@ + root_lines(
                roots,
                "    - "@,
            ) + SANDBOX_SHELL_TAIL@
        }),
        shell_command_description(PolicyView::ReadOnly) == SHELL_COMMAND_TOOL@,
        shell_command_description(PolicyView::DangerFullAccess) == SHELL_COMMAND_TOOL@,
        sandbox_shell_description(PolicyView::ReadOnly) == SANDBOX_SHELL_TOOL@,
        sandbox_shell_description(PolicyView::DangerFullAccess) == SANDBOX_SHELL_TOOL@,
{
    assert(SANDBOX_SHELL_HEAD@ + root_lines(roots, "    - "@) + Seq::<char>::empty()
        =~= SANDBOX_SHELL_HEAD@ + root_lines(roots, "    - "@));
}

/// Each place stands on a line of its own, in order.
pub proof fn places_have_lines(roots: Seq<Seq<char>>, root: Seq<char>, lead: Seq<char>)
    ensures
        root_lines(Seq::empty(), lead).len() == 0,
        root_lines(roots.push(root), lead) == root_lines(roots, lead) + lead + root + "\n"@,
{
    assert(roots.push(root).drop_last() =~= roots);
}

} // verus!
