//! What repairing, reading and writing a schema does to each of its parts.

use crate::decode::{
    all_decode, decoded, decoded_object, decoded_values, field, kind_in, read_text, read_texts,
    strings_in, SchemaKind,
};
use crate::json::{
    json_items_index, json_map, json_map_values, strings_view, JsonValue, JsonView, NumberView,
};
use crate::omap::{sorted_keys, sorted_keys_list};
use crate::sanitize::{first_supported, sanitized, sanitized_array, sanitized_object};
use crate::schema::{
    object_schema_json, schema_json, schema_map, schema_map_values, AdditionalProperties,
    AdditionalView, JsonSchema, SchemaView,
};
use crate::schema_laws::{kinds_differ, names_differ};
use crate::text::{opt_text, texts};
use vstd::prelude::*;

verus! {

broadcast use vstd::seq_lib::group_seq_properties;

/// A type that a union of types is searched for.
pub open spec fn is_wanted(v: JsonView) -> bool {
    v == JsonView::String("object"@) || v == JsonView::String("array"@) || v == JsonView::String(
        "string"@,
    ) || v == JsonView::String("number"@) || v == JsonView::String("integer"@) || v
        == JsonView::String("boolean"@)
}

proof fn first_supported_is_first(types: Seq<JsonView>, i: int)
    requires
        0 <= i < types.len(),
        is_wanted(types[i]),
        forall|j: int| 0 <= j < i ==> !is_wanted(#[trigger] types[j]),
    ensures
        first_supported(types) is Some,
        types[i] == JsonView::String(first_supported(types)->0),
    decreases types.len(),
{
    if i > 0 {
        let rest = types.drop_first();
        assert forall|j: int| 0 <= j < i - 1 implies !is_wanted(#[trigger] rest[j]) by {
            assert(rest[j] == types[j + 1]);
        }
        assert(rest[i - 1] == types[i]);
        first_supported_is_first(rest, i - 1);
        assert(!is_wanted(types[0]));
    }
}

proof fn none_supported(types: Seq<JsonView>)
    requires
        forall|j: int| 0 <= j < types.len() ==> !is_wanted(#[trigger] types[j]),
    ensures
        first_supported(types) is None,
    decreases types.len(),
{
    if types.len() > 0 {
        let rest = types.drop_first();
        assert forall|j: int| 0 <= j < rest.len() implies !is_wanted(#[trigger] rest[j]) by {
            assert(rest[j] == types[j + 1]);
        }
        none_supported(rest);
        assert(!is_wanted(types[0]));
    }
}

/// A repaired schema object is an object.
pub proof fn repaired_objects_are_objects(m: Map<Seq<char>, JsonView>)
    ensures
        sanitized(JsonView::Object(m)) is Object,
        sanitized(JsonView::Object(m))->Object_0.contains_key("type"@),
{
    sanitized_object(m);
}

/// A schema that names one type keeps it.
pub proof fn named_type_stays(m: Map<Seq<char>, JsonView>, t: Seq<char>)
    requires
        m.contains_key("type"@),
        m["type"@] == JsonView::String(t),
    ensures
        sanitized(JsonView::Object(m))->Object_0["type"@] == JsonView::String(t),
{
    names_differ();
    sanitized_object(m);
}

/// Of several types that a schema names, the first one that is supported becomes its
/// type, wherever in the list it stands.
pub proof fn first_supported_type_is_taken(
    m: Map<Seq<char>, JsonView>,
    types: Seq<JsonView>,
    i: int,
)
    requires
        m.contains_key("type"@),
        m["type"@] == JsonView::Array(types),
        0 <= i < types.len(),
        is_wanted(types[i]),
        forall|j: int| 0 <= j < i ==> !is_wanted(#[trigger] types[j]),
    ensures
        sanitized(JsonView::Object(m))->Object_0["type"@] == types[i],
{
    names_differ();
    first_supported_is_first(types, i);
    sanitized_object(m);
}

/// The schema names no type that could be taken.
pub open spec fn names_no_type(m: Map<Seq<char>, JsonView>) -> bool {
    m.contains_key("type"@) ==> match m["type"@] {
        JsonView::String(_) => false,
        JsonView::Array(types) => forall|j: int|
            0 <= j < types.len() ==> !is_wanted(#[trigger] types[j]),
        _ => true,
    }
}

/// A schema that names no type gets the one that its keywords point to: those of an
/// object before those of an array, these before those of a string, and these before
/// those of a number; without any, it is for a string.
pub proof fn keywords_point_to_the_type(m: Map<Seq<char>, JsonView>)
    requires
        names_no_type(m),
    ensures
        ({
            let t = sanitized(JsonView::Object(m))->Object_0["type"@];
            let object = m.contains_key("properties"@) || m.contains_key("required"@)
                || m.contains_key("additionalProperties"@);
            let array = m.contains_key("items"@) || m.contains_key("prefixItems"@);
            let string = m.contains_key("enum"@) || m.contains_key("const"@) || m.contains_key(
                "format"@,
            );
            let number = m.contains_key("minimum"@) || m.contains_key("maximum"@)
                || m.contains_key("exclusiveMinimum"@) || m.contains_key("exclusiveMaximum"@)
                || m.contains_key("multipleOf"@);
            &&& object ==> t == JsonView::String("object"@)
            &&& !object && array ==> t == JsonView::String("array"@)
            &&& !object && !array && string ==> t == JsonView::String("string"@)
            &&& !object && !array && !string && number ==> t == JsonView::String("number"@)
            &&& !object && !array && !string && !number ==> t == JsonView::String("string"@)
        }),
{
    names_differ();
    if m.contains_key("type"@) {
        if let JsonView::Array(types) = m["type"@] {
            none_supported(types);
        }
    }
    sanitized_object(m);
}

/// Repairing a schema object keeps every keyword. What it adds is a type, properties and
/// items only.
pub proof fn keywords_are_kept(m: Map<Seq<char>, JsonView>, k: Seq<char>)
    ensures
        ({
            let r = sanitized(JsonView::Object(m))->Object_0;
            &&& m.contains_key(k) ==> r.contains_key(k)
            &&& r.contains_key(k) && !m.contains_key(k) ==> k == "type"@ || k == "properties"@ || k
                == "items"@
        }),
{
    sanitized_object(m);
}

/// A keyword that holds no schema stays as it is, whatever it says.
pub proof fn other_keywords_stay(m: Map<Seq<char>, JsonView>, k: Seq<char>)
    requires
        m.contains_key(k),
        k != "type"@,
        k != "properties"@,
        k != "additionalProperties"@,
        k != "items"@,
        k != "oneOf"@,
        k != "anyOf"@,
        k != "allOf"@,
        k != "prefixItems"@,
    ensures
        sanitized(JsonView::Object(m))->Object_0[k] == m[k],
{
    names_differ();
    sanitized_object(m);
}

/// A keyword that holds a schema, or several, holds them repaired.
pub proof fn held_schemas_are_repaired(m: Map<Seq<char>, JsonView>, k: Seq<char>)
    requires
        m.contains_key(k),
        k == "items"@ || k == "oneOf"@ || k == "anyOf"@ || k == "allOf"@ || k == "prefixItems"@,
    ensures
        sanitized(JsonView::Object(m))->Object_0[k] == sanitized(m[k]),
{
    names_differ();
    sanitized_object(m);
    reveal_strlit("type");
    reveal_strlit("oneOf");
    reveal_strlit("anyOf");
    reveal_strlit("allOf");
    reveal_strlit("prefixItems");
    reveal_strlit("items");
    assert("type"@.len() == 4 && k.len() != 4);
    reveal_strlit("properties");
    assert("properties"@.len() == 10 && k.len() != 10);
}

/// Each property of a schema stays, repaired.
pub proof fn properties_are_repaired(
    m: Map<Seq<char>, JsonView>,
    p: Map<Seq<char>, JsonView>,
    name: Seq<char>,
)
    requires
        m.contains_key("properties"@),
        m["properties"@] == JsonView::Object(p),
    ensures
        ({
            let q = sanitized(JsonView::Object(m))->Object_0["properties"@];
            &&& q is Object
            &&& q->Object_0.contains_key(name) <==> p.contains_key(name)
            &&& p.contains_key(name) ==> q->Object_0[name] == sanitized(p[name])
        }),
{
    names_differ();
    sanitized_object(m);
}

/// What an object schema says of further properties stays where it is a boolean, and is
/// repaired where it is a schema.
pub proof fn further_properties_are_repaired(m: Map<Seq<char>, JsonView>)
    requires
        m.contains_key("additionalProperties"@),
    ensures
        ({
            let r = sanitized(JsonView::Object(m))->Object_0;
            let a = m["additionalProperties"@];
            &&& a is Bool ==> r["additionalProperties"@] == a
            &&& !(a is Bool) && r["type"@] == JsonView::String("object"@)
                ==> r["additionalProperties"@] == sanitized(a)
            &&& r["type"@] != JsonView::String("object"@) ==> r["additionalProperties"@] == a
        }),
{
    names_differ();
    sanitized_object(m);
}

/// An object schema without properties gets none, and an array schema without items gets
/// ones for a string. No other schema gets either.
pub proof fn missing_parts_are_added(m: Map<Seq<char>, JsonView>)
    ensures
        ({
            let r = sanitized(JsonView::Object(m))->Object_0;
            &&& !m.contains_key("properties"@) && r["type"@] == JsonView::String("object"@) ==> {
                &&& r.contains_key("properties"@)
                &&& r["properties"@] is Object
                &&& r["properties"@]->Object_0.dom() == Set::<Seq<char>>::empty()
            }
            &&& !m.contains_key("items"@) && r["type"@] == JsonView::String("array"@) ==> {
                &&& r.contains_key("items"@)
                &&& r["items"@] is Object
                &&& r["items"@]->Object_0.dom() == set!["type"@]
                &&& r["items"@]->Object_0["type"@] == JsonView::String("string"@)
            }
            &&& !m.contains_key("properties"@) && r["type"@] != JsonView::String("object"@)
                ==> !r.contains_key("properties"@)
            &&& !m.contains_key("items"@) && r["type"@] != JsonView::String("array"@)
                ==> !r.contains_key("items"@)
        }),
{
    names_differ();
    kinds_differ();
    sanitized_object(m);
    let r = sanitized(JsonView::Object(m))->Object_0;
    if !m.contains_key("properties"@) && r["type"@] == JsonView::String("object"@) {
        assert(r["properties"@]->Object_0.dom() =~= Set::<Seq<char>>::empty());
    }
    if !m.contains_key("items"@) && r["type"@] == JsonView::String("array"@) {
        assert(r["items"@]->Object_0.dom() =~= set!["type"@]);
    }
}

/// A boolean in place of a schema becomes one for a string, a list of schemas is repaired
/// one by one, and anything else that is no object stays.
pub proof fn other_values_are_repaired(v: JsonView)
    requires
        !(v is Object),
    ensures
        v is Bool ==> {
            let r = sanitized(v);
            &&& r is Object
            &&& r->Object_0.dom() == set!["type"@]
            &&& r->Object_0["type"@] == JsonView::String("string"@)
        },
        v matches JsonView::Array(items) ==> {
            let r = sanitized(v);
            &&& r is Array
            &&& r->Array_0.len() == items.len()
            &&& forall|i: int|
                0 <= i < items.len() ==> #[trigger] r->Array_0[i] == sanitized(items[i])
        },
        v is Null || v is String || v is Number ==> sanitized(v) == v,
{
    if let JsonView::Array(items) = v {
        sanitized_array(items);
    }
    if v is Bool {
        assert(sanitized(v)->Object_0.dom() =~= set!["type"@]);
    }
}

// ---------------------------------------------------------------------------
// Reading

/// The optional text under this name.
pub open spec fn text_under(m: Map<Seq<char>, JsonView>, k: Seq<char>, t: Option<Seq<char>>) -> bool {
    match t {
        Some(text) => m.contains_key(k) && m[k] == JsonView::String(text),
        None => m.contains_key(k) ==> m[k] is Null,
    }
}

/// The optional list of texts under this name.
pub open spec fn texts_under(
    m: Map<Seq<char>, JsonView>,
    k: Seq<char>,
    t: Option<Seq<Seq<char>>>,
) -> bool {
    match t {
        Some(names) => {
            &&& m.contains_key(k)
            &&& m[k] is Array
            &&& m[k]->Array_0.len() == names.len()
            &&& forall|i: int|
                0 <= i < names.len() ==> #[trigger] m[k]->Array_0[i] == JsonView::String(names[i])
        },
        None => m.contains_key(k) ==> m[k] is Null,
    }
}

proof fn texts_are_read(m: Map<Seq<char>, JsonView>, k: Seq<char>, t: Option<Seq<Seq<char>>>)
    requires
        texts_under(m, k, t),
    ensures
        read_texts(field(JsonView::Object(m), k, 1)) == Some(t),
{
    if let Some(names) = t {
        let items = m[k]->Array_0;
        assert forall|i: int| 0 <= i < items.len() implies #[trigger] items[i] is String by {
            assert(items[i] == JsonView::String(names[i]));
        }
        assert(strings_in(items) =~= names);
    }
}

/// A schema object that says it is for a boolean, a number, an integer or a string is
/// read as one, with its description and the values that it allows.
pub proof fn plain_schemas_are_read(
    m: Map<Seq<char>, JsonView>,
    nested: bool,
    t: Seq<char>,
    description: Option<Seq<char>>,
    values: Option<Seq<Seq<char>>>,
)
    requires
        m.contains_key("type"@),
        m["type"@] == JsonView::String(t),
        text_under(m, "description"@, description),
        texts_under(m, "enum"@, values),
    ensures
        t == "boolean"@ ==> decoded(JsonView::Object(m), nested) == Some(
            SchemaView::Boolean { description },
        ),
        t == "number"@ || t == "integer"@ ==> decoded(JsonView::Object(m), nested) == Some(
            SchemaView::Number { description },
        ),
        t == "string"@ ==> decoded(JsonView::Object(m), nested) == Some(
            SchemaView::String { description, allowed_values: values },
        ),
{
    kinds_differ();
    texts_are_read(m, "enum"@, values);
    let v = JsonView::Object(m);
    assert(read_text(field(v, "description"@, 0)) == Some(description));
}

/// A schema object that says it is for an array is read as one of what its items are read
/// as, with its description; one whose items are no schema is not read.
pub proof fn array_schemas_are_read(
    m: Map<Seq<char>, JsonView>,
    nested: bool,
    description: Option<Seq<char>>,
)
    requires
        m.contains_key("type"@),
        m["type"@] == JsonView::String("array"@),
        text_under(m, "description"@, description),
    ensures
        ({
            let r = decoded(JsonView::Object(m), nested);
            let inner = decoded(m["items"@], true);
            &&& m.contains_key("items"@) && inner is Some ==> {
                &&& r is Some
                &&& r->0 is Array
                &&& *r->0->items == inner->0
                &&& r->0->Array_description == description
            }
            &&& !m.contains_key("items"@) || inner is None ==> r is None
        }),
{
    kinds_differ();
    let v = JsonView::Object(m);
    assert(read_text(field(v, "description"@, 1)) == Some(description));
}

/// A schema object that says it is for an object is read as one with the properties that
/// it has, each as it is read, with just the names that it requires, and with what it
/// says of further properties.
pub proof fn object_schemas_are_read(
    m: Map<Seq<char>, JsonView>,
    nested: bool,
    p: Map<Seq<char>, JsonView>,
    required: Option<Seq<Seq<char>>>,
    name: Seq<char>,
)
    requires
        m.contains_key("type"@),
        m["type"@] == JsonView::String("object"@),
        m.contains_key("properties"@),
        m["properties"@] == JsonView::Object(p),
        texts_under(m, "required"@, required),
        decoded(JsonView::Object(m), nested) is Some,
    ensures
        ({
            let r = decoded(JsonView::Object(m), nested)->0;
            let a = m["additionalProperties"@];
            let says = m.contains_key("additionalProperties"@) && !(a is Null);
            &&& r is Object
            &&& r->required == required
            &&& r->Object_properties.contains_key(name) <==> p.contains_key(name)
            &&& p.contains_key(name) ==> decoded(p[name], true) == Some(
                r->Object_properties[name],
            )
            &&& !says ==> r->additional_properties is None
            &&& says ==> (a matches JsonView::Bool(b) ==> r->additional_properties == Some(
                AdditionalView::Boolean(b),
            ))
            &&& says && !(a is Bool) ==> {
                &&& decoded(a, true) is Some
                &&& r->additional_properties is Some
                &&& r->additional_properties->0 is Schema
                &&& *r->additional_properties->0->Schema_0 == decoded(a, true)->0
            }
        }),
{
    kinds_differ();
    let v = JsonView::Object(m);
    texts_are_read(m, "required"@, required);
    assert(kind_in(v, nested) == Some(SchemaKind::Object));
    decoded_object(v, nested);
    assert(field(v, "properties"@, 0) == Some(JsonView::Object(p)));
    assert(all_decode(p));
    assert(p.contains_key(name) ==> decoded_values(p)[name] == decoded(p[name], true)->0);
}

/// An object schema is read where its properties are, what it requires is a list of texts
/// or nothing, and what it says of further properties is a boolean, a schema or nothing.
pub proof fn sound_object_schemas_are_read(
    m: Map<Seq<char>, JsonView>,
    nested: bool,
    p: Map<Seq<char>, JsonView>,
    required: Option<Seq<Seq<char>>>,
)
    requires
        m.contains_key("type"@),
        m["type"@] == JsonView::String("object"@),
        m.contains_key("properties"@),
        m["properties"@] == JsonView::Object(p),
        texts_under(m, "required"@, required),
    ensures
        decoded(JsonView::Object(m), nested) is Some <==> {
            let a = m["additionalProperties"@];
            &&& forall|k: Seq<char>| #[trigger] p.contains_key(k) ==> decoded(p[k], true) is Some
            &&& m.contains_key("additionalProperties"@) ==> a is Null || a is Bool || decoded(
                a,
                true,
            ) is Some
        },
{
    kinds_differ();
    let v = JsonView::Object(m);
    texts_are_read(m, "required"@, required);
    assert(kind_in(v, nested) == Some(SchemaKind::Object));
    decoded_object(v, nested);
    assert(field(v, "properties"@, 0) == Some(JsonView::Object(p)));
}

/// A schema object without a type, or of a type with another name, is not read.
pub proof fn unknown_types_are_not_read(m: Map<Seq<char>, JsonView>)
    requires
        m.contains_key("type"@) ==> !is_wanted(m["type"@]),
    ensures
        decoded(JsonView::Object(m), false) is None,
{
    if m.contains_key("type"@) {
        if let JsonView::String(t) = m["type"@] {
            assert(m["type"@] == JsonView::String(t));
        }
    }
}

/// A schema of several types, repaired and then read, is of the kind of the first one
/// that is supported.
pub proof fn unions_are_read_by_their_first_supported_type(
    m: Map<Seq<char>, JsonView>,
    types: Seq<JsonView>,
    i: int,
    nested: bool,
)
    requires
        m.contains_key("type"@),
        m["type"@] == JsonView::Array(types),
        0 <= i < types.len(),
        is_wanted(types[i]),
        forall|j: int| 0 <= j < i ==> !is_wanted(#[trigger] types[j]),
        decoded(sanitized(JsonView::Object(m)), nested) is Some,
    ensures
        ({
            let r = decoded(sanitized(JsonView::Object(m)), nested)->0;
            &&& r is Boolean <==> types[i] == JsonView::String("boolean"@)
            &&& r is String <==> types[i] == JsonView::String("string"@)
            &&& r is Number <==> types[i] == JsonView::String("number"@) || types[i]
                == JsonView::String("integer"@)
            &&& r is Array <==> types[i] == JsonView::String("array"@)
            &&& r is Object <==> types[i] == JsonView::String("object"@)
        }),
{
    kinds_differ();
    first_supported_type_is_taken(m, types, i);
    repaired_objects_are_objects(m);
    let v = sanitized(JsonView::Object(m));
    assert(v->Object_0["type"@] == types[i]);
    if types[i] == JsonView::String("object"@) {
        decoded_object(v, nested);
    }
}

/// A schema whose description is no text, whose values are no texts, or that requires what
/// is no text, is not read; nor is an empty list.
pub proof fn unsound_schemas_are_not_read(m: Map<Seq<char>, JsonView>, t: Seq<char>, nested: bool)
    requires
        m.contains_key("type"@),
        m["type"@] == JsonView::String(t),
    ensures
        ({
            let r = decoded(JsonView::Object(m), nested);
            let d = m["description"@];
            let e = m["enum"@];
            let q = m["required"@];
            let plain = t == "boolean"@ || t == "number"@ || t == "integer"@ || t == "string"@;
            &&& (plain || t == "array"@) && m.contains_key("description"@) && !(d is Null) && !(
            d is String) ==> r is None
            &&& t == "string"@ && m.contains_key("enum"@) && !(e is Null) && !(e is Array)
                ==> r is None
            &&& t == "string"@ && m.contains_key("enum"@) && e is Array && (exists|i: int|
                0 <= i < e->Array_0.len() && !((#[trigger] e->Array_0[i]) is String)) ==> r is None
            &&& t == "object"@ && m.contains_key("required"@) && !(q is Null) && !(q is Array)
                ==> r is None
            &&& t == "object"@ && m.contains_key("required"@) && q is Array && (exists|i: int|
                0 <= i < q->Array_0.len() && !((#[trigger] q->Array_0[i]) is String)) ==> r is None
            &&& t == "object"@ && (!m.contains_key("properties"@) || !(m["properties"@] is Object))
                ==> r is None
        }),
        decoded(JsonView::Array(Seq::empty()), nested) is None,
{
    kinds_differ();
    let v = JsonView::Object(m);
    if t == "object"@ {
        assert(kind_in(v, nested) == Some(SchemaKind::Object));
        decoded_object(v, nested);
    }
}

/// A schema can be a list too: its type, and then its parts in order, all of them. One
/// with fewer or more is not read.
pub proof fn lists_are_read_by_place(items: Seq<JsonView>, t: Seq<char>, nested: bool)
    requires
        items.len() > 0,
        items[0] == JsonView::String(t),
    ensures
        ({
            let r = decoded(JsonView::Array(items), nested);
            let plain = t == "boolean"@ || t == "number"@ || t == "integer"@;
            &&& plain && items.len() != 2 ==> r is None
            &&& t == "string"@ && items.len() != 3 ==> r is None
            &&& t == "array"@ && items.len() != 3 ==> r is None
            &&& t == "object"@ && items.len() != 4 ==> r is None
            &&& t == "boolean"@ && items.len() == 2 ==> (items[1] matches JsonView::String(d) ==> r
                == Some(SchemaView::Boolean { description: Some(d) }))
            &&& (t == "number"@ || t == "integer"@) && items.len() == 2 ==> (
            items[1] matches JsonView::String(d) ==> r == Some(
                SchemaView::Number { description: Some(d) },
            ))
            &&& t == "string"@ && items.len() == 3 && items[2] is Null ==> (
            items[1] matches JsonView::String(d) ==> r == Some(
                SchemaView::String { description: Some(d), allowed_values: None },
            ))
            &&& t == "array"@ && items.len() == 3 && decoded(items[1], true) is Some ==> (
            items[2] matches JsonView::String(d) ==> r is Some && r->0 is Array && *r->0->items
                == decoded(items[1], true)->0 && r->0->Array_description == Some(d))
        }),
{
    kinds_differ();
    let v = JsonView::Array(items);
    if t == "object"@ {
        assert(kind_in(v, nested) == Some(SchemaKind::Object));
        decoded_object(v, nested);
    }
}

/// Inside another schema a type can be a number too, in the order of their names here;
/// on its own it cannot.
pub proof fn numbered_types(m: Map<Seq<char>, JsonView>, n: int)
    requires
        m.contains_key("type"@),
        m["type"@] == JsonView::Number(NumberView::Int(n)),
    ensures
        decoded(JsonView::Object(m), false) is None,
        ({
            let r = decoded(JsonView::Object(m), true);
            &&& n < 0 || n > 4 ==> r is None
            &&& r is Some ==> {
                &&& r->0 is Boolean <==> n == 0
                &&& r->0 is String <==> n == 1
                &&& r->0 is Number <==> n == 2
                &&& r->0 is Array <==> n == 3
                &&& r->0 is Object <==> n == 4
            }
        }),
{
    let v = JsonView::Object(m);
    if n == 4 {
        assert(kind_in(v, true) == Some(SchemaKind::Object));
        decoded_object(v, true);
    }
}

// ---------------------------------------------------------------------------
// Writing

/// What is written of a schema: its type, its description and the values that it allows,
/// where it has them, and nothing else.
pub proof fn plain_schemas_are_written(
    description: Option<Seq<char>>,
    values: Option<Seq<Seq<char>>>,
    k: Seq<char>,
)
    ensures
        ({
            let b = schema_json(SchemaView::Boolean { description });
            let n = schema_json(SchemaView::Number { description });
            let s = schema_json(SchemaView::String { description, allowed_values: values });
            &&& b is Object && n is Object && s is Object
            &&& b->Object_0["type"@] == JsonView::String("boolean"@)
            &&& n->Object_0["type"@] == JsonView::String("number"@)
            &&& s->Object_0["type"@] == JsonView::String("string"@)
            &&& text_under(b->Object_0, "description"@, description)
            &&& text_under(n->Object_0, "description"@, description)
            &&& text_under(s->Object_0, "description"@, description)
            &&& texts_under(s->Object_0, "enum"@, values)
            &&& b->Object_0.contains_key(k) <==> k == "type"@ || (k == "description"@
                && description is Some)
            &&& n->Object_0.contains_key(k) <==> k == "type"@ || (k == "description"@
                && description is Some)
            &&& s->Object_0.contains_key(k) <==> k == "type"@ || (k == "description"@
                && description is Some) || (k == "enum"@ && values is Some)
        }),
{
    names_differ();
    if let Some(names) = values {
        let s = schema_json(SchemaView::String { description, allowed_values: values });
        assert(s->Object_0["enum"@] == strings_view(names));
    }
}

/// Of an array schema its items are written too.
pub proof fn array_schemas_are_written(
    items: SchemaView,
    description: Option<Seq<char>>,
    k: Seq<char>,
)
    ensures
        ({
            let a = schema_json(SchemaView::Array { items: Box::new(items), description });
            &&& a is Object
            &&& a->Object_0["type"@] == JsonView::String("array"@)
            &&& a->Object_0["items"@] == schema_json(items)
            &&& text_under(a->Object_0, "description"@, description)
            &&& a->Object_0.contains_key(k) <==> k == "type"@ || k == "items"@ || (k
                == "description"@ && description is Some)
        }),
{
    names_differ();
}

/// Of an object schema each property is written, and the names that it requires: those
/// that it lists, or else every property, in order.
pub proof fn object_schemas_are_written(
    properties: Map<Seq<char>, SchemaView>,
    required: Option<Seq<Seq<char>>>,
    additional_properties: Option<AdditionalView>,
    name: Seq<char>,
)
    requires
        properties.dom().finite(),
    ensures
        ({
            let o = schema_json(SchemaView::Object { properties, required, additional_properties });
            let m = o->Object_0;
            &&& o is Object
            &&& m["type"@] == JsonView::String("object"@)
            &&& m["properties"@] is Object
            &&& m["properties"@]->Object_0.contains_key(name) <==> properties.contains_key(name)
            &&& properties.contains_key(name) ==> m["properties"@]->Object_0[name] == schema_json(
                properties[name],
            )
            &&& required is Some ==> texts_under(m, "required"@, required)
            &&& m.contains_key("required"@) && m["required"@] is Array
            &&& required is None ==> (m["required"@]->Array_0.contains(JsonView::String(name))
                <==> properties.contains_key(name))
            &&& additional_properties is None ==> !m.contains_key("additionalProperties"@)
            &&& additional_properties matches Some(AdditionalView::Boolean(b))
                ==> m["additionalProperties"@] == JsonView::Bool(b)
            &&& additional_properties matches Some(AdditionalView::Schema(a))
                ==> m["additionalProperties"@] == schema_json(*a)
            &&& m.contains_key(name) <==> name == "type"@ || name == "properties"@ || name
                == "required"@ || (name == "additionalProperties"@
                && additional_properties is Some)
        }),
{
    names_differ();
    object_schema_json(properties, required, additional_properties);
    let o = schema_json(SchemaView::Object { properties, required, additional_properties });
    let names = match required {
        Some(names) => names,
        None => sorted_keys(properties.dom()),
    };
    assert(o->Object_0["required"@] == strings_view(names));
    let items = strings_view(names)->Array_0;
    if required is None {
        sorted_keys_list(properties.dom());
        if properties.contains_key(name) {
            assert(names.to_set().contains(name));
            let i = choose|i: int| 0 <= i < names.len() && names[i] == name;
            assert(items[i] == JsonView::String(name));
        }
        if items.contains(JsonView::String(name)) {
            let i = choose|i: int| 0 <= i < items.len() && items[i] == JsonView::String(name);
            assert(names[i] == name);
            assert(names.to_set().contains(name));
        }
    }
}

/// A schema says what it holds.
pub proof fn schemas_say_what_they_hold(s: JsonSchema)
    ensures
        s matches JsonSchema::Boolean { description } ==> s.view() is Boolean
            && s.view()->Boolean_description == opt_text(description),
        s matches JsonSchema::Number { description } ==> s.view() is Number
            && s.view()->Number_description == opt_text(description),
        s matches JsonSchema::String { description, allowed_values } ==> {
            &&& s.view() is String
            &&& s.view()->String_description == opt_text(description)
            &&& allowed_values is None ==> s.view()->allowed_values is None
            &&& allowed_values matches Some(v) ==> s.view()->allowed_values == Some(texts(v@))
        },
        s matches JsonSchema::Array { items, description } ==> {
            &&& s.view() is Array
            &&& *s.view()->items == items.view()
            &&& s.view()->Array_description == opt_text(description)
        },
        s matches JsonSchema::Object { properties, required, additional_properties } ==> {
            &&& s.view() is Object
            &&& s.view()->Object_properties.dom() == properties@.dom()
            &&& forall|k: Seq<char>| #[trigger]
                properties@.contains_key(k) ==> s.view()->Object_properties[k]
                    == properties@[k].view()
            &&& required is None ==> s.view()->required is None
            &&& required matches Some(v) ==> s.view()->required == Some(texts(v@))
            &&& additional_properties is None ==> s.view()->additional_properties is None
            &&& additional_properties matches Some(AdditionalProperties::Boolean(b))
                ==> s.view()->additional_properties == Some(AdditionalView::Boolean(b))
            &&& additional_properties matches Some(AdditionalProperties::Schema(a))
                ==> s.view()->additional_properties == Some(
                AdditionalView::Schema(Box::new(a.view())),
            )
        },
{
    if let JsonSchema::Object { properties, required, additional_properties } = s {
        schema_map_values(properties);
        assert(s.view()->Object_properties == schema_map(properties));
        assert(s.view()->Object_properties.dom() =~= properties@.dom());
    }
}

/// A JSON value is what it holds.
pub proof fn values_are_what_they_hold(v: JsonValue)
    ensures
        v is Null ==> v.view() is Null,
        v matches JsonValue::Bool(b) ==> v.view() == JsonView::Bool(b),
        v matches JsonValue::String(s) ==> v.view() == JsonView::String(s@),
        v matches JsonValue::Array(items) ==> {
            &&& v.view() is Array
            &&& v.view()->Array_0.len() == items@.len()
            &&& forall|i: int|
                0 <= i < items@.len() ==> #[trigger] v.view()->Array_0[i] == items@[i].view()
        },
        v matches JsonValue::Object(m) ==> {
            &&& v.view() is Object
            &&& v.view()->Object_0.dom() == m@.dom()
            &&& forall|k: Seq<char>| #[trigger]
                m@.contains_key(k) ==> v.view()->Object_0[k] == m@[k].view()
        },
{
    match v {
        JsonValue::Array(items) => {
            json_items_index(items@);
        },
        JsonValue::Object(m) => {
            json_map_values(m);
            assert(v.view()->Object_0 == json_map(m));
            assert(v.view()->Object_0.dom() =~= m@.dom());
        },
        _ => {},
    }
}

} // verus!
