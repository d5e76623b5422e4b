//! What holds of writing, repairing and reading schemas together.

use crate::decode::{
    all_decode, decoded, decoded_object, decoded_values, field, kind_in, read_texts, strings_in,
    SchemaKind,
};
use crate::json::{strings_view, JsonView};
use crate::omap::sorted_keys;
use crate::sanitize::{
    completed, holds_schema, sanitized, sanitized_member, sanitized_members, sanitized_object,
    sanitized_values, schema_type,
};
use crate::schema::{object_schema_json, properties_json, schema_json, AdditionalView, SchemaView};
use vstd::prelude::*;

verus! {

broadcast use vstd::seq_lib::group_seq_properties;

/// The schema with the required properties named in every object schema: all of
/// them, where it does not name them itself.
pub open spec fn explicit(s: SchemaView) -> SchemaView
    decreases s,
{
    match s {
        SchemaView::Array { items, description } => SchemaView::Array {
            items: Box::new(explicit(*items)),
            description,
        },
        SchemaView::Object { properties, required, additional_properties } => SchemaView::Object {
            properties: Map::new(
                |k: Seq<char>| properties.contains_key(k),
                |k: Seq<char>|
                    if properties.contains_key(k) {
                        explicit(properties[k])
                    } else {
                        arbitrary()
                    },
            ),
            required: Some(
                match required {
                    Some(names) => names,
                    None => sorted_keys(properties.dom()),
                },
            ),
            additional_properties: match additional_properties {
                Some(AdditionalView::Schema(a)) => Some(
                    AdditionalView::Schema(Box::new(explicit(*a))),
                ),
                other => other,
            },
        },
        _ => s,
    }
}

pub(crate) proof fn names_differ()
    ensures
        "type"@ != "description"@,
        "type"@ != "enum"@,
        "type"@ != "items"@,
        "type"@ != "properties"@,
        "type"@ != "required"@,
        "type"@ != "additionalProperties"@,
        "description"@ != "enum"@,
        "description"@ != "items"@,
        "description"@ != "properties"@,
        "description"@ != "additionalProperties"@,
        "enum"@ != "items"@,
        "enum"@ != "properties"@,
        "enum"@ != "additionalProperties"@,
        "items"@ != "properties"@,
        "items"@ != "required"@,
        "items"@ != "additionalProperties"@,
        "properties"@ != "required"@,
        "properties"@ != "additionalProperties"@,
        "required"@ != "additionalProperties"@,
        !holds_schema("type"@),
        !holds_schema("description"@),
        !holds_schema("enum"@),
        !holds_schema("properties"@),
        !holds_schema("required"@),
        !holds_schema("additionalProperties"@),
{
    reveal_strlit("type");
    reveal_strlit("description");
    reveal_strlit("enum");
    reveal_strlit("items");
    reveal_strlit("properties");
    reveal_strlit("required");
    reveal_strlit("additionalProperties");
    reveal_strlit("oneOf");
    reveal_strlit("anyOf");
    reveal_strlit("allOf");
    reveal_strlit("prefixItems");
    assert("type"@.len() == 4 && "description"@.len() == 11 && "enum"@.len() == 4);
    assert("items"@.len() == 5 && "properties"@.len() == 10 && "required"@.len() == 8);
    assert("additionalProperties"@.len() == 20 && "prefixItems"@.len() == 11);
    assert("oneOf"@.len() == 5 && "anyOf"@.len() == 5 && "allOf"@.len() == 5);
    assert("type"@[0] == 't' && "enum"@[0] == 'e');
    assert("description"@[0] == 'd' && "prefixItems"@[0] == 'p');
}

pub(crate) proof fn kinds_differ()
    ensures
        "boolean"@ != "string"@,
        "boolean"@ != "number"@,
        "boolean"@ != "integer"@,
        "boolean"@ != "array"@,
        "boolean"@ != "object"@,
        "string"@ != "number"@,
        "string"@ != "array"@,
        "string"@ != "object"@,
        "number"@ != "array"@,
        "number"@ != "object"@,
        "array"@ != "object"@,
        "integer"@ != "array"@,
        "integer"@ != "object"@,
        "string"@ != "integer"@,
{
    reveal_strlit("boolean");
    reveal_strlit("string");
    reveal_strlit("number");
    reveal_strlit("integer");
    reveal_strlit("array");
    reveal_strlit("object");
    assert("boolean"@[0] == 'b' && "string"@[0] == 's' && "number"@[0] == 'n');
    assert("integer"@[0] == 'i' && "array"@[0] == 'a' && "object"@[0] == 'o');
}

proof fn strings_read_back(names: Seq<Seq<char>>)
    ensures
        read_texts(Some(strings_view(names))) == Some(Some(names)),
{
    let items = strings_view(names)->Array_0;
    assert(strings_in(items) =~= names);
}

/// What is read of a schema that was written is the schema, with the required
/// properties named.
pub proof fn decode_of_encode(s: SchemaView, nested: bool)
    ensures
        decoded(schema_json(s), nested) == Some(explicit(s)),
    decreases s,
{
    names_differ();
    kinds_differ();
    let v = schema_json(s);
    match s {
        SchemaView::Boolean { description } => {
            assert(kind_in(v, nested) == Some(SchemaKind::Boolean));
        },
        SchemaView::String { description, allowed_values } => {
            assert(kind_in(v, nested) == Some(SchemaKind::String));
            if allowed_values is Some {
                strings_read_back(allowed_values->0);
            }
        },
        SchemaView::Number { description } => {
            assert(kind_in(v, nested) == Some(SchemaKind::Number));
        },
        SchemaView::Array { items, description } => {
            assert(kind_in(v, nested) == Some(SchemaKind::Array));
            decode_of_encode(*items, true);
        },
        SchemaView::Object { properties, required, additional_properties } => {
            object_schema_json(properties, required, additional_properties);
            assert(kind_in(v, nested) == Some(SchemaKind::Object));
            decoded_object(v, nested);
            let p = properties_json(properties);
            assert(field(v, "properties"@, 0) == Some(JsonView::Object(p)));
            assert forall|k: Seq<char>| #[trigger] p.contains_key(k) implies decoded(p[k], true)
                == Some(explicit(properties[k])) by {
                decode_of_encode(properties[k], true);
            }
            assert(all_decode(p));
            assert(decoded_values(p) =~= explicit(s)->Object_properties);
            let names = match required {
                Some(names) => names,
                None => sorted_keys(properties.dom()),
            };
            strings_read_back(names);
            assert(field(v, "required"@, 1) == Some(strings_view(names)));
            if let Some(AdditionalView::Schema(a)) = additional_properties {
                decode_of_encode(*a, true);
                assert(schema_json(*a) is Object);
            }
        },
    }
}

/// A schema that was written needs no repair.
pub proof fn encode_needs_no_repair(s: SchemaView)
    ensures
        sanitized(schema_json(s)) == schema_json(s),
    decreases s,
{
    names_differ();
    kinds_differ();
    let v = schema_json(s);
    match s {
        SchemaView::Array { items, description } => {
            encode_needs_no_repair(*items);
        },
        SchemaView::Object { properties, required, additional_properties } => {
            object_schema_json(properties, required, additional_properties);
            let p = properties_json(properties);
            assert forall|k: Seq<char>| #[trigger] p.contains_key(k) implies sanitized(p[k])
                == p[k] by {
                encode_needs_no_repair(properties[k]);
            }
            assert(sanitized_values(p) =~= p);
            if let Some(AdditionalView::Schema(a)) = additional_properties {
                encode_needs_no_repair(*a);
            }
        },
        _ => {},
    }
    let m = v->Object_0;
    let ty = schema_type(m);
    assert(m.contains_key("type"@));
    assert(m["type"@] == JsonView::String(ty));
    sanitized_object(m);
    let members = sanitized_members(ty == "object"@, m);
    assert forall|k: Seq<char>| #[trigger] m.contains_key(k) implies sanitized_member(
        ty == "object"@,
        k,
        m[k],
    ) == m[k] by {}
    assert(members =~= m);
    assert(completed(m, ty) =~= m);
}

} // verus!
