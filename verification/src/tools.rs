//! The tools that a model is offered, and how they are written as JSON.

use crate::json::{
    json_items, json_items_push, json_map, json_object, json_put, json_str, json_strings, json_take,
    strings_view, JsonValue, JsonView,
};
use crate::omap::OrderedMap;
use crate::schema::{schema_json, typed_object, with_text, JsonSchema, SchemaView};
use crate::text::{opt_text, opt_texts};
use vstd::prelude::*;

verus! {

broadcast use vstd::seq_lib::group_seq_properties;

/// A function that the model may call.
#[derive(Debug, PartialEq)]
pub struct ResponsesApiTool {
    pub name: String,
    pub description: String,
    /// Whether the arguments have to meet the schema strictly.
    pub strict: bool,
    pub parameters: JsonSchema,
}

/// A named group of functions.
#[derive(Debug, PartialEq)]
pub struct ResponsesApiNamespace {
    pub name: String,
    pub description: String,
    pub tools: Vec<ResponsesApiNamespaceTool>,
}

/// A member of a named group.
#[derive(Debug, PartialEq)]
pub enum ResponsesApiNamespaceTool {
    Function(ResponsesApiTool),
}

/// A tool whose argument is free text.
#[derive(Debug, PartialEq)]
pub struct FreeformTool {
    pub name: String,
    pub description: String,
    pub format: FreeformToolFormat,
}

/// The form of the text that a free-form tool takes.
#[derive(Debug, PartialEq)]
pub struct FreeformToolFormat {
    /// Written as `type`.
    pub format_type: String,
    pub syntax: String,
    pub definition: String,
}

/// A tool of the Responses API.
#[derive(Debug, PartialEq)]
pub enum OpenAiTool {
    Function(ResponsesApiTool),
    Namespace(ResponsesApiNamespace),
    ToolSearch { execution: String, description: String, parameters: JsonSchema },
    LocalShell {},
    ImageGeneration { output_format: String },
    /// The native web search. What is not set is left out of its JSON.
    WebSearch(WebSearchTool),
    Freeform(FreeformTool),
}

/// How the web is searched.
#[derive(Debug, PartialEq)]
pub struct WebSearchTool {
    pub external_web_access: Option<bool>,
    pub search_content_types: Option<Vec<String>>,
    pub filters: Option<WebSearchFilters>,
    pub user_location: Option<WebSearchUserLocation>,
    pub search_context_size: Option<WebSearchContextSize>,
}

/// Where the web is searched.
#[derive(Debug, PartialEq)]
pub struct WebSearchFilters {
    pub allowed_domains: Option<Vec<String>>,
}

/// How much context a search brings.
#[derive(Debug, PartialEq, Eq, Clone, Copy, Structural)]
pub enum WebSearchContextSize {
    Low,
    Medium,
    High,
}

/// How a location is meant.
#[derive(Debug, PartialEq, Eq, Clone, Copy, Structural)]
pub enum WebSearchUserLocationType {
    Approximate,
}

/// Where the user is.
#[derive(Debug, PartialEq)]
pub struct WebSearchUserLocation {
    /// Written as `type`.
    pub location_type: WebSearchUserLocationType,
    pub country: Option<String>,
    pub region: Option<String>,
    pub city: Option<String>,
    pub timezone: Option<String>,
}

impl Default for WebSearchTool {
    fn default() -> (r: Self)
        ensures
            r.view() == (WebSearchView {
                external_web_access: None,
                search_content_types: None,
                filters: None,
                user_location: None,
                search_context_size: None,
            }),
    {
        WebSearchTool {
            external_web_access: None,
            search_content_types: None,
            filters: None,
            user_location: None,
            search_context_size: None,
        }
    }
}

impl Default for WebSearchFilters {
    fn default() -> (r: Self)
        ensures
            r.allowed_domains is None,
    {
        WebSearchFilters { allowed_domains: None }
    }
}

/// What a function is.
pub struct FunctionView {
    pub name: Seq<char>,
    pub description: Seq<char>,
    pub strict: bool,
    pub parameters: SchemaView,
}

/// Where the user is.
pub struct LocationView {
    pub location_type: WebSearchUserLocationType,
    pub country: Option<Seq<char>>,
    pub region: Option<Seq<char>>,
    pub city: Option<Seq<char>>,
    pub timezone: Option<Seq<char>>,
}

/// How the web is searched.
pub struct WebSearchView {
    pub external_web_access: Option<bool>,
    pub search_content_types: Option<Seq<Seq<char>>>,
    /// The allowed domains of the filters, where there are filters.
    pub filters: Option<Option<Seq<Seq<char>>>>,
    pub user_location: Option<LocationView>,
    pub search_context_size: Option<WebSearchContextSize>,
}

/// What a tool is.
pub enum ToolView {
    Function(FunctionView),
    Namespace { name: Seq<char>, description: Seq<char>, tools: Seq<FunctionView> },
    ToolSearch { execution: Seq<char>, description: Seq<char>, parameters: SchemaView },
    LocalShell,
    ImageGeneration { output_format: Seq<char> },
    WebSearch(WebSearchView),
    Freeform {
        name: Seq<char>,
        description: Seq<char>,
        format_type: Seq<char>,
        syntax: Seq<char>,
        definition: Seq<char>,
    },
}

impl ResponsesApiTool {
    /// What the function is.
    pub open spec fn view(&self) -> FunctionView {
        FunctionView {
            name: self.name@,
            description: self.description@,
            strict: self.strict,
            parameters: self.parameters.view(),
        }
    }
}

impl ResponsesApiNamespaceTool {
    /// What the member is.
    pub open spec fn view(&self) -> FunctionView {
        match self {
            ResponsesApiNamespaceTool::Function(f) => f.view(),
        }
    }
}

/// The members of a named group.
pub open spec fn member_views(s: Seq<ResponsesApiNamespaceTool>) -> Seq<FunctionView> {
    s.map_values(|t: ResponsesApiNamespaceTool| t.view())
}

impl WebSearchTool {
    /// How the web is searched.
    pub open spec fn view(&self) -> WebSearchView {
        WebSearchView {
            external_web_access: self.external_web_access,
            search_content_types: opt_texts(self.search_content_types),
            filters: match self.filters {
                Some(f) => Some(opt_texts(f.allowed_domains)),
                None => None,
            },
            user_location: match self.user_location {
                Some(l) => Some(
                    LocationView {
                        location_type: l.location_type,
                        country: opt_text(l.country),
                        region: opt_text(l.region),
                        city: opt_text(l.city),
                        timezone: opt_text(l.timezone),
                    },
                ),
                None => None,
            },
            search_context_size: self.search_context_size,
        }
    }
}

impl OpenAiTool {
    /// What the tool is.
    pub open spec fn view(&self) -> ToolView {
        match self {
            OpenAiTool::Function(f) => ToolView::Function(f.view()),
            OpenAiTool::Namespace(n) => ToolView::Namespace {
                name: n.name@,
                description: n.description@,
                tools: member_views(n.tools@),
            },
            OpenAiTool::ToolSearch { execution, description, parameters } => ToolView::ToolSearch {
                execution: execution@,
                description: description@,
                parameters: parameters.view(),
            },
            OpenAiTool::LocalShell {  } => ToolView::LocalShell,
            OpenAiTool::ImageGeneration { output_format } => ToolView::ImageGeneration {
                output_format: output_format@,
            },
            OpenAiTool::WebSearch(w) => ToolView::WebSearch(w.view()),
            OpenAiTool::Freeform(f) => ToolView::Freeform {
                name: f.name@,
                description: f.description@,
                format_type: f.format.format_type@,
                syntax: f.format.syntax@,
                definition: f.format.definition@,
            },
        }
    }
}

/// What the tools of a list are.
pub open spec fn tool_views(s: Seq<OpenAiTool>) -> Seq<ToolView> {
    s.map_values(|t: OpenAiTool| t.view())
}

/// A function as a JSON object.
pub open spec fn function_json(f: FunctionView) -> Map<Seq<char>, JsonView> {
    typed_object("function"@).insert("name"@, JsonView::String(f.name)).insert(
        "description"@,
        JsonView::String(f.description),
    ).insert("strict"@, JsonView::Bool(f.strict)).insert("parameters"@, schema_json(f.parameters))
}

/// A location as a JSON value.
pub open spec fn location_json(l: LocationView) -> JsonView {
    let m = typed_object("approximate"@);
    JsonView::Object(
        with_text(
            with_text(
                with_text(with_text(m, "country"@, l.country), "region"@, l.region),
                "city"@,
                l.city,
            ),
            "timezone"@,
            l.timezone,
        ),
    )
}

/// The name of a context size.
pub open spec fn context_size_name(s: WebSearchContextSize) -> Seq<char> {
    match s {
        WebSearchContextSize::Low => "low"@,
        WebSearchContextSize::Medium => "medium"@,
        WebSearchContextSize::High => "high"@,
    }
}

/// The filters of a web search as a JSON value.
pub open spec fn filters_json(allowed_domains: Option<Seq<Seq<char>>>) -> JsonView {
    JsonView::Object(
        match allowed_domains {
            Some(d) => Map::<Seq<char>, JsonView>::empty().insert(
                "allowed_domains"@,
                strings_view(d),
            ),
            None => Map::empty(),
        },
    )
}

/// A web search as a JSON object.
pub open spec fn web_search_json(w: WebSearchView) -> Map<Seq<char>, JsonView> {
    let m0 = typed_object("web_search"@);
    let m1 = match w.external_web_access {
        Some(b) => m0.insert("external_web_access"@, JsonView::Bool(b)),
        None => m0,
    };
    let m2 = match w.search_content_types {
        Some(t) => m1.insert("search_content_types"@, strings_view(t)),
        None => m1,
    };
    let m3 = match w.filters {
        Some(d) => m2.insert("filters"@, filters_json(d)),
        None => m2,
    };
    let m4 = match w.user_location {
        Some(l) => m3.insert("user_location"@, location_json(l)),
        None => m3,
    };
    match w.search_context_size {
        Some(s) => m4.insert("search_context_size"@, JsonView::String(context_size_name(s))),
        None => m4,
    }
}

/// The members of a named group as JSON values.
pub open spec fn members_json(s: Seq<FunctionView>) -> Seq<JsonView> {
    s.map_values(|f: FunctionView| JsonView::Object(function_json(f)))
}

/// A tool as a JSON object. The member `type` says which kind of tool it is.
pub open spec fn tool_json(t: ToolView) -> Map<Seq<char>, JsonView> {
    match t {
        ToolView::Function(f) => function_json(f),
        ToolView::Namespace { name, description, tools } => typed_object("namespace"@).insert(
            "name"@,
            JsonView::String(name),
        ).insert("description"@, JsonView::String(description)).insert(
            "tools"@,
            JsonView::Array(members_json(tools)),
        ),
        ToolView::ToolSearch { execution, description, parameters } => typed_object(
            "tool_search"@,
        ).insert("execution"@, JsonView::String(execution)).insert(
            "description"@,
            JsonView::String(description),
        ).insert("parameters"@, schema_json(parameters)),
        ToolView::LocalShell => typed_object("local_shell"@),
        ToolView::ImageGeneration { output_format } => typed_object("image_generation"@).insert(
            "output_format"@,
            JsonView::String(output_format),
        ),
        ToolView::WebSearch(w) => web_search_json(w),
        ToolView::Freeform { name, description, format_type, syntax, definition } => typed_object(
            "custom"@,
        ).insert("name"@, JsonView::String(name)).insert(
            "description"@,
            JsonView::String(description),
        ).insert(
            "format"@,
            JsonView::Object(
                typed_object(format_type).insert("syntax"@, JsonView::String(syntax)).insert(
                    "definition"@,
                    JsonView::String(definition),
                ),
            ),
        ),
    }
}

fn typed(name: &str) -> (m: OrderedMap<JsonValue>)
    ensures
        json_map(m) == typed_object(name@),
{
    let mut m = json_object();
    json_put(&mut m, "type", json_str(name));
    m
}

fn put_optional(m: &mut OrderedMap<JsonValue>, key: &str, value: &Option<String>)
    ensures
        json_map(*final(m)) == with_text(json_map(*old(m)), key@, opt_text(*value)),
{
    if let Some(t) = value {
        json_put(m, key, json_str(t.as_str()));
    }
}

fn function_object(f: &ResponsesApiTool) -> (m: OrderedMap<JsonValue>)
    ensures
        json_map(m) == function_json(f.view()),
{
    let mut m = typed("function");
    json_put(&mut m, "name", json_str(f.name.as_str()));
    json_put(&mut m, "description", json_str(f.description.as_str()));
    json_put(&mut m, "strict", JsonValue::Bool(f.strict));
    json_put(&mut m, "parameters", f.parameters.to_json());
    m
}

fn web_search_object(w: &WebSearchTool) -> (m: OrderedMap<JsonValue>)
    ensures
        json_map(m) == web_search_json(w.view()),
{
    let mut m = typed("web_search");
    if let Some(b) = w.external_web_access {
        json_put(&mut m, "external_web_access", JsonValue::Bool(b));
    }
    if let Some(t) = &w.search_content_types {
        json_put(&mut m, "search_content_types", json_strings(t));
    }
    if let Some(f) = &w.filters {
        let mut inner = json_object();
        if let Some(d) = &f.allowed_domains {
            json_put(&mut inner, "allowed_domains", json_strings(d));
        }
        json_put(&mut m, "filters", JsonValue::Object(inner));
    }
    if let Some(l) = &w.user_location {
        let mut inner = typed("approximate");
        put_optional(&mut inner, "country", &l.country);
        put_optional(&mut inner, "region", &l.region);
        put_optional(&mut inner, "city", &l.city);
        put_optional(&mut inner, "timezone", &l.timezone);
        json_put(&mut m, "user_location", JsonValue::Object(inner));
    }
    if let Some(s) = w.search_context_size {
        let name = match s {
            WebSearchContextSize::Low => "low",
            WebSearchContextSize::Medium => "medium",
            WebSearchContextSize::High => "high",
        };
        json_put(&mut m, "search_context_size", json_str(name));
    }
    m
}

fn members_array(tools: &Vec<ResponsesApiNamespaceTool>) -> (v: Vec<JsonValue>)
    ensures
        json_items(v@) == members_json(member_views(tools@)),
{
    let mut out: Vec<JsonValue> = Vec::new();
    let mut i: usize = 0;
    let ghost want = members_json(member_views(tools@));
    while i < tools.len()
        invariant
            i <= tools@.len(),
            want == members_json(member_views(tools@)),
            json_items(out@) =~= want.take(i as int),
        decreases tools@.len() - i,
    {
        let v = match &tools[i] {
            ResponsesApiNamespaceTool::Function(f) => JsonValue::Object(function_object(f)),
        };
        proof {
            json_items_push(out@, v);
            assert(want[i as int] == v.view());
        }
        out.push(v);
        i = i + 1;
    }
    assert(want.take(tools@.len() as int) =~= want);
    out
}

impl OpenAiTool {
    /// The tool as a JSON object.
    pub fn to_json_object(&self) -> (m: OrderedMap<JsonValue>)
        ensures
            json_map(m) == tool_json(self.view()),
    {
        match self {
            OpenAiTool::Function(f) => function_object(f),
            OpenAiTool::Namespace(n) => {
                let mut m = typed("namespace");
                json_put(&mut m, "name", json_str(n.name.as_str()));
                json_put(&mut m, "description", json_str(n.description.as_str()));
                json_put(&mut m, "tools", JsonValue::Array(members_array(&n.tools)));
                m
            },
            OpenAiTool::ToolSearch { execution, description, parameters } => {
                let mut m = typed("tool_search");
                json_put(&mut m, "execution", json_str(execution.as_str()));
                json_put(&mut m, "description", json_str(description.as_str()));
                json_put(&mut m, "parameters", parameters.to_json());
                m
            },
            OpenAiTool::LocalShell {  } => typed("local_shell"),
            OpenAiTool::ImageGeneration { output_format } => {
                let mut m = typed("image_generation");
                json_put(&mut m, "output_format", json_str(output_format.as_str()));
                m
            },
            OpenAiTool::WebSearch(w) => web_search_object(w),
            OpenAiTool::Freeform(f) => {
                let mut format = typed(f.format.format_type.as_str());
                json_put(&mut format, "syntax", json_str(f.format.syntax.as_str()));
                json_put(&mut format, "definition", json_str(f.format.definition.as_str()));
                let mut m = typed("custom");
                json_put(&mut m, "name", json_str(f.name.as_str()));
                json_put(&mut m, "description", json_str(f.description.as_str()));
                json_put(&mut m, "format", JsonValue::Object(format));
                m
            },
        }
    }
}

/// Why tools could not be written as JSON. No tool of this library is refused.
#[derive(Debug, PartialEq, Eq, Clone, Copy, Structural)]
pub struct ToolJsonError;

/// The tools as JSON values, in order.
pub open spec fn tools_json(s: Seq<ToolView>) -> Seq<JsonView> {
    s.map_values(|t: ToolView| JsonView::Object(tool_json(t)))
}

/// The JSON values of the tools, in order, as the Responses API takes them.
pub fn create_tools_json_for_responses_api(tools: &[OpenAiTool]) -> (r: Result<
    Vec<JsonValue>,
    ToolJsonError,
>)
    ensures
        r matches Ok(v) && json_items(v@) == tools_json(tool_views(tools@)),
{
    let mut out: Vec<JsonValue> = Vec::new();
    let mut i: usize = 0;
    let ghost want = tools_json(tool_views(tools@));
    while i < tools.len()
        invariant
            i <= tools@.len(),
            want == tools_json(tool_views(tools@)),
            json_items(out@) =~= want.take(i as int),
        decreases tools@.len() - i,
    {
        let v = JsonValue::Object(tools[i].to_json_object());
        proof {
            json_items_push(out@, v);
            assert(want[i as int] == v.view());
        }
        out.push(v);
        i = i + 1;
    }
    assert(want.take(tools@.len() as int) =~= want);
    Ok(out)
}

/// A function as the Chat Completions API takes it.
pub open spec fn chat_function_json(f: FunctionView) -> JsonView {
    JsonView::Object(
        typed_object("function"@).insert(
            "function"@,
            JsonView::Object(function_json(f).remove("type"@)),
        ),
    )
}

/// The functions among the tools, in order, as the Chat Completions API takes
/// them; it takes no other tools.
pub open spec fn chat_tools_json(s: Seq<ToolView>) -> Seq<JsonView>
    decreases s.len(),
{
    if s.len() == 0 {
        Seq::empty()
    } else {
        let before = chat_tools_json(s.drop_last());
        match s.last() {
            ToolView::Function(f) => before.push(chat_function_json(f)),
            _ => before,
        }
    }
}

/// The JSON values of the functions among the tools, in order, as the Chat
/// Completions API takes them.
pub fn create_tools_json_for_chat_completions_api(tools: &[OpenAiTool]) -> (r: Result<
    Vec<JsonValue>,
    ToolJsonError,
>)
    ensures
        r matches Ok(v) && json_items(v@) == chat_tools_json(tool_views(tools@)),
{
    let mut out: Vec<JsonValue> = Vec::new();
    let mut i: usize = 0;
    let ghost all = tool_views(tools@);
    while i < tools.len()
        invariant
            i <= tools@.len(),
            all == tool_views(tools@),
            json_items(out@) == chat_tools_json(all.take(i as int)),
        decreases tools@.len() - i,
    {
        proof {
            assert(all.take(i + 1).drop_last() =~= all.take(i as int));
            assert(all.take(i + 1).last() == tools@[i as int].view());
        }
        if let OpenAiTool::Function(f) = &tools[i] {
            let mut inner = function_object(f);
            let _ = json_take(&mut inner, "type");
            let mut m = typed("function");
            json_put(&mut m, "function", JsonValue::Object(inner));
            let v = JsonValue::Object(m);
            proof {
                json_items_push(out@, v);
            }
            out.push(v);
        }
        i = i + 1;
    }
    assert(all.take(tools@.len() as int) =~= all);
    Ok(out)
}

} // verus!
