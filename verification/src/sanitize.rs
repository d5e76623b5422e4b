//! Repairs JSON Schemas that come from elsewhere, so that they fit the subset
//! that tool definitions use.

use crate::json::{
    json_entries, json_get, json_items, json_items_index, json_items_push, json_map, json_map_values,
    json_object, json_put, json_str, JsonValue, JsonView,
};
use crate::omap::OrderedMap;
use crate::schema::typed_object;
use crate::text::str_eq;
use vstd::prelude::*;

verus! {

broadcast use vstd::seq_lib::group_seq_properties;

/// The type names that a union of types is searched for.
pub open spec fn is_supported_type(t: Seq<char>) -> bool {
    ||| t == "object"@
    ||| t == "array"@
    ||| t == "string"@
    ||| t == "number"@
    ||| t == "integer"@
    ||| t == "boolean"@
}

fn supported_type(t: &str) -> (r: bool)
    ensures
        r == is_supported_type(t@),
{
    str_eq(t, "object") || str_eq(t, "array") || str_eq(t, "string") || str_eq(t, "number")
        || str_eq(t, "integer") || str_eq(t, "boolean")
}

/// The first supported type name in a list.
pub open spec fn first_supported(types: Seq<JsonView>) -> Option<Seq<char>>
    decreases types.len(),
{
    if types.len() == 0 {
        None
    } else if types[0] is String && is_supported_type(types[0]->String_0) {
        Some(types[0]->String_0)
    } else {
        first_supported(types.drop_first())
    }
}

/// The type that the keywords of a schema without a type point to.
pub open spec fn inferred_type(m: Map<Seq<char>, JsonView>) -> Seq<char> {
    if m.contains_key("properties"@) || m.contains_key("required"@) || m.contains_key(
        "additionalProperties"@,
    ) {
        "object"@
    } else if m.contains_key("items"@) || m.contains_key("prefixItems"@) {
        "array"@
    } else if m.contains_key("enum"@) || m.contains_key("const"@) || m.contains_key("format"@) {
        "string"@
    } else if m.contains_key("minimum"@) || m.contains_key("maximum"@) || m.contains_key(
        "exclusiveMinimum"@,
    ) || m.contains_key("exclusiveMaximum"@) || m.contains_key("multipleOf"@) {
        "number"@
    } else {
        "string"@
    }
}

/// The type of a schema: the one it names, else the first supported one of the
/// union it names, else the one that its keywords point to.
pub open spec fn schema_type(m: Map<Seq<char>, JsonView>) -> Seq<char> {
    if m.contains_key("type"@) {
        match m["type"@] {
            JsonView::String(t) => t,
            JsonView::Array(types) => match first_supported(types) {
                Some(t) => t,
                None => inferred_type(m),
            },
            _ => inferred_type(m),
        }
    } else {
        inferred_type(m)
    }
}

/// The keywords that hold a schema or a list of schemas.
pub open spec fn holds_schema(k: Seq<char>) -> bool {
    ||| k == "items"@
    ||| k == "oneOf"@
    ||| k == "anyOf"@
    ||| k == "allOf"@
    ||| k == "prefixItems"@
}

fn key_holds_schema(k: &str) -> (r: bool)
    ensures
        r == holds_schema(k@),
{
    str_eq(k, "items") || str_eq(k, "oneOf") || str_eq(k, "anyOf") || str_eq(k, "allOf") || str_eq(
        k,
        "prefixItems",
    )
}

/// The schema with its type named, and with the members that this type needs.
pub open spec fn completed(m: Map<Seq<char>, JsonView>, ty: Seq<char>) -> Map<Seq<char>, JsonView> {
    let typed = m.insert("type"@, JsonView::String(ty));
    if ty == "object"@ && !m.contains_key("properties"@) {
        typed.insert("properties"@, JsonView::Object(Map::empty()))
    } else if ty == "array"@ && !m.contains_key("items"@) {
        typed.insert("items"@, JsonView::Object(typed_object("string"@)))
    } else {
        typed
    }
}

/// A repaired schema. Every schema object names its type; an object schema has
/// properties, an array schema has items. The boolean form of a schema becomes
/// one for any string; only `additionalProperties` keeps it.
pub open spec fn sanitized(v: JsonView) -> JsonView
    decreases v,
{
    match v {
        JsonView::Bool(_) => JsonView::Object(typed_object("string"@)),
        JsonView::Array(items) => JsonView::Array(
            Seq::new(
                items.len(),
                |i: int|
                    if 0 <= i < items.len() {
                        sanitized(items[i])
                    } else {
                        arbitrary()
                    },
            ),
        ),
        JsonView::Object(m) => JsonView::Object(
            completed(
                Map::new(
                    |k: Seq<char>| m.contains_key(k),
                    |k: Seq<char>|
                        if !m.contains_key(k) {
                            arbitrary()
                        } else if k == "properties"@ {
                            match m[k] {
                                JsonView::Object(p) => JsonView::Object(
                                    Map::new(
                                        |n: Seq<char>| p.contains_key(n),
                                        |n: Seq<char>|
                                            if p.contains_key(n) {
                                                sanitized(p[n])
                                            } else {
                                                arbitrary()
                                            },
                                    ),
                                ),
                                other => other,
                            }
                        } else if holds_schema(k) || (k == "additionalProperties"@ && schema_type(m)
                            == "object"@ && !(m[k] is Bool)) {
                            sanitized(m[k])
                        } else {
                            m[k]
                        },
                ),
                schema_type(m),
            ),
        ),
        _ => v,
    }
}

/// Each value of the map, repaired.
pub open spec fn sanitized_values(p: Map<Seq<char>, JsonView>) -> Map<Seq<char>, JsonView> {
    p.map_values(|v: JsonView| sanitized(v))
}

/// What becomes of one member of a schema object.
pub open spec fn sanitized_member(object: bool, k: Seq<char>, v: JsonView) -> JsonView {
    if k == "properties"@ {
        match v {
            JsonView::Object(p) => JsonView::Object(sanitized_values(p)),
            other => other,
        }
    } else if holds_schema(k) || (k == "additionalProperties"@ && object && !(v is Bool)) {
        sanitized(v)
    } else {
        v
    }
}

/// What becomes of the members of a schema object.
pub open spec fn sanitized_members(object: bool, m: Map<Seq<char>, JsonView>) -> Map<
    Seq<char>,
    JsonView,
> {
    Map::new(|k: Seq<char>| m.contains_key(k), |k: Seq<char>| sanitized_member(object, k, m[k]))
}

/// A repaired schema object, member by member.
pub proof fn sanitized_object(m: Map<Seq<char>, JsonView>)
    ensures
        sanitized(JsonView::Object(m)) == JsonView::Object(
            completed(sanitized_members(schema_type(m) == "object"@, m), schema_type(m)),
        ),
{
    let ty = schema_type(m);
    let object = ty == "object"@;
    let a = sanitized(JsonView::Object(m))->Object_0;
    let b = completed(sanitized_members(object, m), ty);
    assert(a.dom() =~= b.dom());
    assert forall|k: Seq<char>| a.contains_key(k) implies a[k] == b[k] by {
        if k != "type"@ && m.contains_key(k) && k == "properties"@ && m[k] is Object {
            let p = m[k]->Object_0;
            assert(a[k]->Object_0 =~= sanitized_values(p));
        }
    }
    assert(a =~= b);
}

/// A repaired list, item by item.
pub proof fn sanitized_array(items: Seq<JsonView>)
    ensures
        sanitized(JsonView::Array(items)) == JsonView::Array(
            items.map_values(|v: JsonView| sanitized(v)),
        ),
{
    assert(sanitized(JsonView::Array(items))->Array_0 =~= items.map_values(
        |v: JsonView| sanitized(v),
    ));
}

fn find_supported(types: &Vec<JsonValue>) -> (r: Option<String>)
    ensures
        match (r, first_supported(json_items(types@))) {
            (Some(t), Some(w)) => t@ == w,
            (None, None) => true,
            _ => false,
        },
{
    let ghost all = json_items(types@);
    proof {
        json_items_index(types@);
        assert(all.skip(0) =~= all);
    }
    let mut i: usize = 0;
    while i < types.len()
        invariant
            i <= types@.len(),
            all == json_items(types@),
            all.len() == types@.len(),
            forall|j: int| 0 <= j < types@.len() ==> #[trigger] all[j] == types@[j].view(),
            first_supported(all) == first_supported(all.skip(i as int)),
        decreases types@.len() - i,
    {
        assert(all.skip(i as int).drop_first() =~= all.skip(i + 1));
        assert(all.skip(i as int)[0] == all[i as int]);
        if let JsonValue::String(t) = &types[i] {
            if supported_type(t.as_str()) {
                return Some(t.clone());
            }
        }
        i = i + 1;
    }
    None
}

fn infer_type(m: &OrderedMap<JsonValue>) -> (r: String)
    ensures
        r@ == inferred_type(json_map(*m)),
{
    proof {
        json_map_values(*m);
    }
    if m.contains_key("properties") || m.contains_key("required") || m.contains_key(
        "additionalProperties",
    ) {
        "object".to_owned()
    } else if m.contains_key("items") || m.contains_key("prefixItems") {
        "array".to_owned()
    } else if m.contains_key("enum") || m.contains_key("const") || m.contains_key("format") {
        "string".to_owned()
    } else if m.contains_key("minimum") || m.contains_key("maximum") || m.contains_key(
        "exclusiveMinimum",
    ) || m.contains_key("exclusiveMaximum") || m.contains_key("multipleOf") {
        "number".to_owned()
    } else {
        "string".to_owned()
    }
}

fn find_type(m: &OrderedMap<JsonValue>) -> (r: String)
    ensures
        r@ == schema_type(json_map(*m)),
{
    match json_get(m, "type") {
        Some(JsonValue::String(t)) => t.clone(),
        Some(JsonValue::Array(types)) => match find_supported(types) {
            Some(t) => t,
            None => infer_type(m),
        },
        _ => infer_type(m),
    }
}

fn string_schema_value() -> (r: JsonValue)
    ensures
        r.view() == JsonView::Object(typed_object("string"@)),
{
    let mut m = json_object();
    json_put(&mut m, "type", json_str("string"));
    JsonValue::Object(m)
}

fn sanitize_values(p: &OrderedMap<JsonValue>) -> (r: OrderedMap<JsonValue>)
    ensures
        json_map(r) == sanitized_values(json_map(*p)),
    decreases p,
{
    let entries = p.entries();
    let mut out = json_object();
    let mut i: usize = 0;
    assert(json_map(out) =~= sanitized_values(json_entries(entries@.take(0))));
    while i < entries.len()
        invariant
            i <= entries@.len(),
            entries@ == p.spec_entries(),
            json_map(out) == sanitized_values(json_entries(entries@.take(i as int))),
        decreases entries@.len() - i,
    {
        let e = &entries[i];
        proof {
            OrderedMap::entries_decrease(*p);
            assert(decreases_to!(entries@ => entries@[i as int]));
            assert(entries@.take(i + 1).drop_last() =~= entries@.take(i as int));
        }
        let v = sanitized_schema(&e.1);
        json_put(&mut out, e.0.as_str(), v);
        proof {
            let q = json_entries(entries@.take(i as int));
            assert(sanitized_values(q.insert(e.0@, e.1.view())) =~= sanitized_values(q).insert(
                e.0@,
                sanitized(e.1.view()),
            ));
        }
        i = i + 1;
    }
    assert(entries@.take(entries@.len() as int) =~= entries@);
    out
}

/// Repairs a schema.
pub fn sanitized_schema(value: &JsonValue) -> (r: JsonValue)
    ensures
        r.view() == sanitized(value.view()),
    decreases value,
{
    match value {
        JsonValue::Bool(_) => string_schema_value(),
        JsonValue::Array(items) => {
            let mut out: Vec<JsonValue> = Vec::new();
            let mut i: usize = 0;
            let ghost f = |v: JsonView| sanitized(v);
            assert(json_items(out@) =~= json_items(items@.take(0)).map_values(f));
            while i < items.len()
                invariant
                    i <= items@.len(),
                    *value == JsonValue::Array(*items),
                    f == (|v: JsonView| sanitized(v)),
                    json_items(out@) == json_items(items@.take(i as int)).map_values(f),
                decreases items@.len() - i,
            {
                proof {
                    assert(decreases_to!(*value => value->Array_0));
                    assert(decreases_to!(items@ => items@[i as int]));
                }
                let v = sanitized_schema(&items[i]);
                proof {
                    json_items_push(out@, v);
                    assert(items@.take(i + 1) =~= items@.take(i as int).push(items@[i as int]));
                    json_items_push(items@.take(i as int), items@[i as int]);
                    let q = json_items(items@.take(i as int));
                    assert(q.push(items@[i as int].view()).map_values(f) =~= q.map_values(f).push(
                        f(items@[i as int].view()),
                    ));
                }
                out.push(v);
                i = i + 1;
            }
            assert(items@.take(items@.len() as int) =~= items@);
            proof {
                sanitized_array(json_items(items@));
            }
            JsonValue::Array(out)
        },
        JsonValue::Object(map) => {
            let ty = find_type(map);
            let object = str_eq(ty.as_str(), "object");
            let entries = map.entries();
            let mut out = json_object();
            let mut i: usize = 0;
            assert(json_map(out) =~= sanitized_members(object, json_entries(entries@.take(0))));
            while i < entries.len()
                invariant
                    i <= entries@.len(),
                    *value == JsonValue::Object(*map),
                    entries@ == map.spec_entries(),
                    json_map(out) == sanitized_members(object, json_entries(entries@.take(i as int))),
                decreases entries@.len() - i,
            {
                let e = &entries[i];
                proof {
                    assert(decreases_to!(*value => value->Object_0));
                    OrderedMap::entries_decrease(*map);
                    assert(decreases_to!(entries@ => entries@[i as int]));
                    assert(decreases_to!(entries@[i as int] => entries@[i as int].1));
                    assert(entries@.take(i + 1).drop_last() =~= entries@.take(i as int));
                }
                let is_bool = match &e.1 {
                    JsonValue::Bool(_) => true,
                    _ => false,
                };
                let v = if str_eq(e.0.as_str(), "properties") {
                    match &e.1 {
                        JsonValue::Object(p) => {
                            assert(decreases_to!(e.1 => e.1->Object_0));
                            JsonValue::Object(sanitize_values(p))
                        },
                        other => other.clone(),
                    }
                } else if key_holds_schema(e.0.as_str()) || (str_eq(
                    e.0.as_str(),
                    "additionalProperties",
                ) && object && !is_bool) {
                    sanitized_schema(&e.1)
                } else {
                    e.1.clone()
                };
                proof {
                    assert(v.view() == sanitized_member(object, e.0@, e.1.view()));
                }
                let ghost vv = v.view();
                json_put(&mut out, e.0.as_str(), v);
                proof {
                    let q = json_entries(entries@.take(i as int));
                    assert(sanitized_members(object, q.insert(e.0@, e.1.view()))
                        =~= sanitized_members(object, q).insert(e.0@, vv));
                }
                i = i + 1;
            }
            assert(entries@.take(entries@.len() as int) =~= entries@);
            proof {
                sanitized_object(json_map(*map));
                json_map_values(out);
            }
            let has_properties = out.contains_key("properties");
            let has_items = out.contains_key("items");
            let array = str_eq(ty.as_str(), "array");
            json_put(&mut out, "type", JsonValue::String(ty));
            if object && !has_properties {
                json_put(&mut out, "properties", JsonValue::Object(json_object()));
            } else if array && !has_items {
                json_put(&mut out, "items", string_schema_value());
            }
            JsonValue::Object(out)
        },
        other => other.clone(),
    }
}

/// Repairs a schema in place.
pub fn sanitize_json_schema(value: &mut JsonValue)
    ensures
        final(value).view() == sanitized(old(value).view()),
{
    let repaired = sanitized_schema(value);
    *value = repaired;
}

proof fn keywords_differ()
    ensures
        "type"@ != "properties"@,
        "type"@ != "items"@,
        "type"@ != "additionalProperties"@,
        "properties"@ != "items"@,
        "properties"@ != "additionalProperties"@,
        "items"@ != "additionalProperties"@,
        !holds_schema("type"@),
        !holds_schema("properties"@),
        !holds_schema("additionalProperties"@),
        "string"@ != "object"@,
        "string"@ != "array"@,
        "object"@ != "array"@,
{
    reveal_strlit("type");
    reveal_strlit("properties");
    reveal_strlit("items");
    reveal_strlit("additionalProperties");
    reveal_strlit("oneOf");
    reveal_strlit("anyOf");
    reveal_strlit("allOf");
    reveal_strlit("prefixItems");
    reveal_strlit("string");
    reveal_strlit("object");
    reveal_strlit("array");
    assert("type"@.len() == 4 && "properties"@.len() == 10 && "items"@.len() == 5);
    assert("additionalProperties"@.len() == 20 && "prefixItems"@.len() == 11);
    assert("oneOf"@.len() == 5 && "anyOf"@.len() == 5 && "allOf"@.len() == 5);
    assert("string"@[0] == 's' && "object"@[0] == 'o' && "array"@[0] == 'a');
}

/// Repairing a repaired schema changes nothing.
pub proof fn sanitized_idempotent(v: JsonView)
    ensures
        sanitized(sanitized(v)) == sanitized(v),
    decreases v,
{
    keywords_differ();
    string_schema_repaired();
    match v {
        JsonView::Bool(_) => {},
        JsonView::Array(items) => {
            let f = |w: JsonView| sanitized(w);
            sanitized_array(items);
            sanitized_array(items.map_values(f));
            assert forall|i: int| 0 <= i < items.len() implies sanitized(
                sanitized(#[trigger] items[i]),
            ) == sanitized(items[i]) by {
                sanitized_idempotent(items[i]);
            }
            assert(items.map_values(f).map_values(f) =~= items.map_values(f));
        },
        JsonView::Object(m) => {
            let ty = schema_type(m);
            let object = ty == "object"@;
            let members = sanitized_members(object, m);
            let r = completed(members, ty);
            sanitized_object(m);
            sanitized_object(r);
            assert(r["type"@] == JsonView::String(ty));
            assert(schema_type(r) == ty);
            assert forall|k: Seq<char>| #[trigger] r.contains_key(k) implies sanitized_member(
                object,
                k,
                r[k],
            ) == r[k] by {
                if k != "type"@ && m.contains_key(k) {
                    assert(r[k] == sanitized_member(object, k, m[k]));
                    sanitized_idempotent(m[k]);
                    if k == "properties"@ && m[k] is Object {
                        let p = m[k]->Object_0;
                        assert forall|n: Seq<char>| #[trigger] p.contains_key(n) implies sanitized(
                            sanitized(p[n]),
                        ) == sanitized(p[n]) by {
                            sanitized_idempotent(p[n]);
                        }
                        assert(sanitized_values(sanitized_values(p)) =~= sanitized_values(p));
                    }
                } else if k == "properties"@ {
                    let e = Map::<Seq<char>, JsonView>::empty();
                    assert(sanitized_values(e) =~= e);
                }
            }
            let again = completed(sanitized_members(object, r), ty);
            assert(again.dom() =~= r.dom());
            assert(again =~= r);
        },
        _ => {},
    }
}

proof fn string_schema_repaired()
    ensures
        sanitized(JsonView::Object(typed_object("string"@))) == JsonView::Object(
            typed_object("string"@),
        ),
{
    keywords_differ();
    let m = typed_object("string"@);
    sanitized_object(m);
    let b = completed(sanitized_members(false, m), "string"@);
    assert(b =~= m);
}

/// Every repaired schema object names its type as a string. An object schema
/// has properties, and an array schema has items.
pub proof fn sanitized_object_complete(m: Map<Seq<char>, JsonView>)
    ensures
        ({
            let r = sanitized(JsonView::Object(m))->Object_0;
            &&& sanitized(JsonView::Object(m)) is Object
            &&& r.contains_key("type"@)
            &&& r["type"@] == JsonView::String(schema_type(m))
            &&& schema_type(m) == "object"@ ==> r.contains_key("properties"@)
            &&& schema_type(m) == "array"@ ==> r.contains_key("items"@)
        }),
{
    keywords_differ();
    sanitized_object(m);
}

} // verus!
