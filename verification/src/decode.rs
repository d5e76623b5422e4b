//! Reads the schemas of tool definitions from JSON values.

use crate::json::{
    json_entries, json_get, json_items, json_items_index, json_map, JsonNumber, JsonValue, JsonView,
    NumberView,
};
use crate::omap::OrderedMap;
use crate::sanitize::{sanitized, sanitized_schema};
use crate::schema::{
    no_properties, put_property, schema_map, AdditionalProperties, AdditionalView, JsonSchema,
    SchemaView,
};
use crate::text::{opt_text, opt_texts, str_eq, texts};
use vstd::prelude::*;

verus! {

broadcast use vstd::seq_lib::group_seq_properties;

/// A JSON value that is no schema of the supported subset.
#[derive(Debug, PartialEq, Eq, Clone, Copy, Structural)]
pub struct InvalidSchema;

/// The kinds of schema.
#[derive(Debug, PartialEq, Eq, Clone, Copy, Structural)]
pub enum SchemaKind {
    /// A boolean.
    Boolean,
    /// A string.
    String,
    /// A number.
    Number,
    /// An array.
    Array,
    /// An object.
    Object,
}

/// The kind that a type name stands for.
pub open spec fn kind_named(t: Seq<char>) -> Option<SchemaKind> {
    if t == "boolean"@ {
        Some(SchemaKind::Boolean)
    } else if t == "string"@ {
        Some(SchemaKind::String)
    } else if t == "number"@ || t == "integer"@ {
        Some(SchemaKind::Number)
    } else if t == "array"@ {
        Some(SchemaKind::Array)
    } else if t == "object"@ {
        Some(SchemaKind::Object)
    } else {
        None
    }
}

/// The kind with the given number, in the order in which they are declared.
pub open spec fn kind_numbered(n: int) -> Option<SchemaKind> {
    if n == 0 {
        Some(SchemaKind::Boolean)
    } else if n == 1 {
        Some(SchemaKind::String)
    } else if n == 2 {
        Some(SchemaKind::Number)
    } else if n == 3 {
        Some(SchemaKind::Array)
    } else if n == 4 {
        Some(SchemaKind::Object)
    } else {
        None
    }
}

/// The kind that a type tag stands for. Below the top level a number is
/// understood too.
pub open spec fn kind_of(tag: JsonView, nested: bool) -> Option<SchemaKind> {
    match tag {
        JsonView::String(t) => kind_named(t),
        JsonView::Number(NumberView::Int(n)) => if nested {
            kind_numbered(n)
        } else {
            None
        },
        _ => None,
    }
}

/// The type tag: the member `type` of an object, or the first item of a list.
pub open spec fn tag_of(v: JsonView) -> Option<JsonView> {
    match v {
        JsonView::Object(m) => if m.contains_key("type"@) {
            Some(m["type"@])
        } else {
            None
        },
        JsonView::Array(items) => if items.len() > 0 {
            Some(items[0])
        } else {
            None
        },
        _ => None,
    }
}

/// The kind of schema that a value says it is.
pub open spec fn kind_in(v: JsonView, nested: bool) -> Option<SchemaKind> {
    match tag_of(v) {
        Some(t) => kind_of(t, nested),
        None => None,
    }
}

/// A field: the member of that name of an object, or the item of a list that
/// stands `pos` places behind the tag.
pub open spec fn field(v: JsonView, name: Seq<char>, pos: int) -> Option<JsonView> {
    match v {
        JsonView::Object(m) => if m.contains_key(name) {
            Some(m[name])
        } else {
            None
        },
        JsonView::Array(items) => if 0 <= pos && pos + 1 < items.len() {
            Some(items[pos + 1])
        } else {
            None
        },
        _ => None,
    }
}

/// A list holds the tag and every field, and nothing more.
pub open spec fn field_count_fits(v: JsonView, n: int) -> bool {
    v is Array ==> v->Array_0.len() == n + 1
}

/// Reads an optional string; `null` stands for none. The outer `None` says that
/// the field is something else.
pub open spec fn read_text(f: Option<JsonView>) -> Option<Option<Seq<char>>> {
    match f {
        None => Some(None),
        Some(JsonView::Null) => Some(None),
        Some(JsonView::String(t)) => Some(Some(t)),
        _ => None,
    }
}

/// Every item is a string.
pub open spec fn all_strings(items: Seq<JsonView>) -> bool {
    forall|i: int| 0 <= i < items.len() ==> #[trigger] items[i] is String
}

/// The strings of a list.
pub open spec fn strings_in(items: Seq<JsonView>) -> Seq<Seq<char>> {
    items.map_values(|v: JsonView| v->String_0)
}

/// Reads an optional list of strings; `null` stands for none. The outer `None`
/// says that the field is something else.
pub open spec fn read_texts(f: Option<JsonView>) -> Option<Option<Seq<Seq<char>>>> {
    match f {
        None => Some(None),
        Some(JsonView::Null) => Some(None),
        Some(JsonView::Array(items)) => if all_strings(items) {
            Some(Some(strings_in(items)))
        } else {
            None
        },
        _ => None,
    }
}

/// The schema that a JSON value stands for, if it stands for one.
pub open spec fn decoded(v: JsonView, nested: bool) -> Option<SchemaView>
    decreases v,
{
    match kind_in(v, nested) {
        None => None,
        Some(SchemaKind::Boolean) => match read_text(field(v, "description"@, 0)) {
            Some(description) if field_count_fits(v, 1) => Some(SchemaView::Boolean { description }),
            _ => None,
        },
        Some(SchemaKind::String) => match (
            read_text(field(v, "description"@, 0)),
            read_texts(field(v, "enum"@, 1)),
        ) {
            (Some(description), Some(allowed_values)) if field_count_fits(v, 2) => Some(
                SchemaView::String { description, allowed_values },
            ),
            _ => None,
        },
        Some(SchemaKind::Number) => match read_text(field(v, "description"@, 0)) {
            Some(description) if field_count_fits(v, 1) => Some(SchemaView::Number { description }),
            _ => None,
        },
        Some(SchemaKind::Array) => {
            let description = read_text(field(v, "description"@, 1));
            let items = field(v, "items"@, 0);
            if !field_count_fits(v, 2) || description is None || items is None {
                None
            } else {
                match decoded(items->0, true) {
                    Some(inner) => Some(
                        SchemaView::Array { items: Box::new(inner), description: description->0 },
                    ),
                    None => None,
                }
            }
        },
        Some(SchemaKind::Object) => {
            let properties = field(v, "properties"@, 0);
            let required = read_texts(field(v, "required"@, 1));
            let additional = field(v, "additionalProperties"@, 2);
            if !field_count_fits(v, 3) || required is None || !(properties is Some
                && properties->0 is Object) {
                None
            } else {
                let p = properties->0->Object_0;
                if exists|k: Seq<char>|
                    #[trigger] p.contains_key(k) && decoded(p[k], true) is None {
                    None
                } else {
                    let read = Map::new(
                        |k: Seq<char>| p.contains_key(k),
                        |k: Seq<char>|
                            if p.contains_key(k) {
                                decoded(p[k], true)->0
                            } else {
                                arbitrary()
                            },
                    );
                    let with = |a: Option<AdditionalView>|
                        SchemaView::Object {
                            properties: read,
                            required: required->0,
                            additional_properties: a,
                        };
                    match additional {
                        None => Some(with(None)),
                        Some(JsonView::Null) => Some(with(None)),
                        Some(JsonView::Bool(b)) => Some(with(Some(AdditionalView::Boolean(b)))),
                        Some(other) => match decoded(other, true) {
                            Some(a) => Some(with(Some(AdditionalView::Schema(Box::new(a))))),
                            None => None,
                        },
                    }
                }
            }
        },
    }
}

/// Every value of the map stands for a schema.
pub open spec fn all_decode(p: Map<Seq<char>, JsonView>) -> bool {
    forall|k: Seq<char>| #[trigger] p.contains_key(k) ==> decoded(p[k], true) is Some
}

/// The schemas that the values of a map stand for.
pub open spec fn decoded_values(p: Map<Seq<char>, JsonView>) -> Map<Seq<char>, SchemaView> {
    p.map_values(|v: JsonView| decoded(v, true)->0)
}

/// What is said of additional properties; the outer `None` says that the field
/// is something else.
pub open spec fn read_additional(f: Option<JsonView>) -> Option<Option<AdditionalView>> {
    match f {
        None => Some(None),
        Some(JsonView::Null) => Some(None),
        Some(JsonView::Bool(b)) => Some(Some(AdditionalView::Boolean(b))),
        Some(other) => match decoded(other, true) {
            Some(a) => Some(Some(AdditionalView::Schema(Box::new(a)))),
            None => None,
        },
    }
}

/// When and how a value that says it is an object schema is read.
pub proof fn decoded_object(v: JsonView, nested: bool)
    requires
        kind_in(v, nested) == Some(SchemaKind::Object),
    ensures
        ({
            let properties = field(v, "properties"@, 0);
            let required = read_texts(field(v, "required"@, 1));
            let additional = read_additional(field(v, "additionalProperties"@, 2));
            if field_count_fits(v, 3) && properties is Some && properties->0 is Object && all_decode(
                properties->0->Object_0,
            ) && required is Some && additional is Some {
                decoded(v, nested) == Some(
                    SchemaView::Object {
                        properties: decoded_values(properties->0->Object_0),
                        required: required->0,
                        additional_properties: additional->0,
                    },
                )
            } else {
                decoded(v, nested) is None
            }
        }),
{
    let properties = field(v, "properties"@, 0);
    if properties is Some && properties->0 is Object {
        let p = properties->0->Object_0;
        if all_decode(p) {
            assert(!(exists|k: Seq<char>|
                #[trigger] p.contains_key(k) && decoded(p[k], true) is None));
            if decoded(v, nested) is Some {
                assert(decoded(v, nested)->0->Object_properties =~= decoded_values(p));
            }
        } else {
            let k = choose|k: Seq<char>|
                #[trigger] p.contains_key(k) && !(decoded(p[k], true) is Some);
            assert(p.contains_key(k) && decoded(p[k], true) is None);
        }
    }
}

fn named_kind(t: &str) -> (r: Option<SchemaKind>)
    ensures
        r == kind_named(t@),
{
    if str_eq(t, "boolean") {
        Some(SchemaKind::Boolean)
    } else if str_eq(t, "string") {
        Some(SchemaKind::String)
    } else if str_eq(t, "number") || str_eq(t, "integer") {
        Some(SchemaKind::Number)
    } else if str_eq(t, "array") {
        Some(SchemaKind::Array)
    } else if str_eq(t, "object") {
        Some(SchemaKind::Object)
    } else {
        None
    }
}

fn numbered_kind(n: u64) -> (r: Option<SchemaKind>)
    ensures
        r == kind_numbered(n as int),
{
    if n == 0 {
        Some(SchemaKind::Boolean)
    } else if n == 1 {
        Some(SchemaKind::String)
    } else if n == 2 {
        Some(SchemaKind::Number)
    } else if n == 3 {
        Some(SchemaKind::Array)
    } else if n == 4 {
        Some(SchemaKind::Object)
    } else {
        None
    }
}

fn tag_kind(tag: &JsonValue, nested: bool) -> (r: Option<SchemaKind>)
    ensures
        r == kind_of(tag.view(), nested),
{
    match tag {
        JsonValue::String(t) => named_kind(t.as_str()),
        JsonValue::Number(JsonNumber::PosInt(n)) => if nested {
            numbered_kind(*n)
        } else {
            None
        },
        JsonValue::Number(JsonNumber::NegInt(n)) => if nested && *n >= 0 {
            numbered_kind(*n as u64)
        } else {
            None
        },
        _ => None,
    }
}

fn value_kind(value: &JsonValue, nested: bool) -> (r: Option<SchemaKind>)
    ensures
        r == kind_in(value.view(), nested),
{
    match value {
        JsonValue::Object(m) => match json_get(m, "type") {
            Some(tag) => tag_kind(tag, nested),
            None => None,
        },
        JsonValue::Array(items) => {
            proof {
                json_items_index(items@);
            }
            if items.len() > 0 {
                tag_kind(&items[0], nested)
            } else {
                None
            }
        },
        _ => None,
    }
}

fn find_field<'a>(value: &'a JsonValue, name: &str, pos: usize) -> (r: Option<&'a JsonValue>)
    requires
        pos < 3,
    ensures
        match r {
            Some(x) => field(value.view(), name@, pos as int) == Some(x.view()) && decreases_to!(*value => *x),
            None => field(value.view(), name@, pos as int) is None,
        },
{
    match value {
        JsonValue::Object(m) => {
            proof {
                assert(decreases_to!(*value => value->Object_0));
                if m@.contains_key(name@) {
                    OrderedMap::value_decreases(*m, name@);
                }
            }
            json_get(m, name)
        },
        JsonValue::Array(items) => {
            proof {
                json_items_index(items@);
                assert(decreases_to!(*value => value->Array_0));
            }
            if pos + 1 < items.len() {
                assert(decreases_to!(items@ => items@[pos + 1]));
                Some(&items[pos + 1])
            } else {
                None
            }
        },
        _ => None,
    }
}

fn count_fits(value: &JsonValue, n: usize) -> (r: bool)
    requires
        n <= 3,
    ensures
        r == field_count_fits(value.view(), n as int),
{
    match value {
        JsonValue::Array(items) => {
            proof {
                json_items_index(items@);
            }
            items.len() == n + 1
        },
        _ => true,
    }
}

fn take_text(f: Option<&JsonValue>) -> (r: Option<Option<String>>)
    ensures
        match (r, read_text(match f { Some(x) => Some(x.view()), None => None })) {
            (Some(t), Some(w)) => opt_text(t) == w,
            (None, None) => true,
            _ => false,
        },
{
    match f {
        None => Some(None),
        Some(JsonValue::Null) => Some(None),
        Some(JsonValue::String(t)) => Some(Some(t.clone())),
        _ => None,
    }
}

fn take_texts(f: Option<&JsonValue>) -> (r: Option<Option<Vec<String>>>)
    ensures
        match (r, read_texts(match f { Some(x) => Some(x.view()), None => None })) {
            (Some(t), Some(w)) => opt_texts(t) == w,
            (None, None) => true,
            _ => false,
        },
{
    match f {
        None => Some(None),
        Some(JsonValue::Null) => Some(None),
        Some(JsonValue::Array(items)) => {
            let ghost all = json_items(items@);
            proof {
                json_items_index(items@);
            }
            let mut out: Vec<String> = Vec::new();
            let mut i: usize = 0;
            while i < items.len()
                invariant
                    i <= items@.len(),
                    all == json_items(items@),
                    all.len() == items@.len(),
                    f is Some && f->0.view() == JsonView::Array(all),
                    forall|j: int| 0 <= j < items@.len() ==> #[trigger] all[j] == items@[j].view(),
                    forall|j: int| 0 <= j < i ==> #[trigger] all[j] is String,
                    texts(out@) =~= strings_in(all.take(i as int)),
                decreases items@.len() - i,
            {
                match &items[i] {
                    JsonValue::String(t) => {
                        let ghost before = texts(out@);
                        out.push(t.clone());
                        assert(texts(out@) =~= before.push(t@));
                        assert(all.take(i + 1) =~= all.take(i as int).push(all[i as int]));
                    },
                    _ => {
                        assert(!(all[i as int] is String));
                        return None;
                    },
                }
                i = i + 1;
            }
            assert(all.take(items@.len() as int) =~= all);
            Some(Some(out))
        },
        _ => None,
    }
}

fn decode_properties(p: &OrderedMap<JsonValue>) -> (r: Option<OrderedMap<JsonSchema>>)
    ensures
        match r {
            Some(m) => all_decode(json_map(*p)) && schema_map(m) == decoded_values(json_map(*p)),
            None => !all_decode(json_map(*p)),
        },
    decreases p,
{
    let entries = p.entries();
    let mut out = no_properties();
    let mut i: usize = 0;
    assert(schema_map(out) =~= decoded_values(json_entries(entries@.take(0))));
    while i < entries.len()
        invariant
            i <= entries@.len(),
            entries@ == p.spec_entries(),
            all_decode(json_entries(entries@.take(i as int))),
            schema_map(out) == decoded_values(json_entries(entries@.take(i as int))),
        decreases entries@.len() - i,
    {
        let e = p.entry_at(i);
        proof {
            OrderedMap::entries_decrease(*p);
            assert(decreases_to!(entries@ => entries@[i as int]));
            assert(entries@.take(i + 1).drop_last() =~= entries@.take(i as int));
            crate::json::json_map_values(*p);
        }
        match decode(&e.1, true) {
            Some(s) => {
                put_property(&mut out, e.0.as_str(), s);
                proof {
                    let q = json_entries(entries@.take(i as int));
                    let q1 = q.insert(e.0@, e.1.view());
                    assert(decoded_values(q1) =~= decoded_values(q).insert(
                        e.0@,
                        decoded(e.1.view(), true)->0,
                    ));
                    assert forall|k: Seq<char>| #[trigger] q1.contains_key(k) implies decoded(
                        q1[k],
                        true,
                    ) is Some by {
                        if k != e.0@ {
                            assert(q.contains_key(k));
                            assert(decoded(q[k], true) is Some);
                        }
                    }
                }
            },
            None => {
                assert(json_map(*p).contains_key(e.0@));
                assert(decoded(json_map(*p)[e.0@], true) is None);
                return None;
            },
        }
        i = i + 1;
    }
    assert(entries@.take(entries@.len() as int) =~= entries@);
    Some(out)
}

fn decode(value: &JsonValue, nested: bool) -> (r: Option<JsonSchema>)
    ensures
        match (r, decoded(value.view(), nested)) {
            (Some(s), Some(w)) => s.view() == w,
            (None, None) => true,
            _ => false,
        },
    decreases value,
{
    match value_kind(value, nested) {
        None => None,
        Some(SchemaKind::Boolean) => match take_text(find_field(value, "description", 0)) {
            Some(description) if count_fits(value, 1) => Some(JsonSchema::Boolean { description }),
            _ => None,
        },
        Some(SchemaKind::String) => match (
            take_text(find_field(value, "description", 0)),
            take_texts(find_field(value, "enum", 1)),
        ) {
            (Some(description), Some(allowed_values)) if count_fits(value, 2) => Some(
                JsonSchema::String { description, allowed_values },
            ),
            _ => None,
        },
        Some(SchemaKind::Number) => match take_text(find_field(value, "description", 0)) {
            Some(description) if count_fits(value, 1) => Some(JsonSchema::Number { description }),
            _ => None,
        },
        Some(SchemaKind::Array) => {
            let description = take_text(find_field(value, "description", 1));
            match (find_field(value, "items", 0), description) {
                (Some(items), Some(description)) if count_fits(value, 2) => match decode(items, true) {
                    Some(inner) => Some(JsonSchema::Array { items: Box::new(inner), description }),
                    None => None,
                },
                _ => None,
            }
        },
        Some(SchemaKind::Object) => {
            proof {
                decoded_object(value.view(), nested);
            }
            let properties = match find_field(value, "properties", 0) {
                Some(JsonValue::Object(p)) => {
                    assert(decreases_to!(JsonValue::Object(*p) => *p));
                    decode_properties(p)
                },
                _ => None,
            };
            let required = take_texts(find_field(value, "required", 1));
            let additional = match find_field(value, "additionalProperties", 2) {
                None => Some(None),
                Some(JsonValue::Null) => Some(None),
                Some(JsonValue::Bool(b)) => Some(Some(AdditionalProperties::Boolean(*b))),
                Some(other) => match decode(other, true) {
                    Some(a) => Some(Some(AdditionalProperties::Schema(Box::new(a)))),
                    None => None,
                },
            };
            match (properties, required, additional) {
                (Some(properties), Some(required), Some(additional_properties)) if count_fits(
                    value,
                    3,
                ) => Some(JsonSchema::Object { properties, required, additional_properties }),
                _ => None,
            }
        },
    }
}

impl JsonSchema {
    /// Reads a schema from a JSON value.
    pub fn from_json(value: &JsonValue) -> (r: Result<JsonSchema, InvalidSchema>)
        ensures
            match (r, decoded(value.view(), false)) {
                (Ok(s), Some(w)) => s.view() == w,
                (Err(_), None) => true,
                _ => false,
            },
    {
        match decode(value, false) {
            Some(s) => Ok(s),
            None => Err(InvalidSchema),
        }
    }
}

/// Repairs a schema that comes from elsewhere, and reads it.
pub fn parse_tool_input_schema(input_schema: &JsonValue) -> (r: Result<JsonSchema, InvalidSchema>)
    ensures
        match (r, decoded(sanitized(input_schema.view()), false)) {
            (Ok(s), Some(w)) => s.view() == w,
            (Err(_), None) => true,
            _ => false,
        },
{
    JsonSchema::from_json(&sanitized_schema(input_schema))
}

} // verus!
