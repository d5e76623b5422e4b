//! The part of JSON Schema that tool definitions use.

use crate::json::{
    json_map, json_object, json_put, json_str, json_strings, strings_view, JsonValue, JsonView,
};
use crate::omap::{entry_map, entry_map_through, sorted_keys, OrderedMap};
use crate::text::{clone_strings, opt_text, opt_texts};
use vstd::prelude::*;
use vstd::std_specs::convert::FromSpecImpl;

verus! {

broadcast use vstd::seq_lib::group_seq_properties;

/// Whether properties that a schema does not name are allowed, and if so, the
/// schema that they have to meet.
#[derive(Debug, PartialEq)]
pub enum AdditionalProperties {
    /// Allowed, or not.
    Boolean(bool),
    /// Allowed where they meet the schema.
    Schema(Box<JsonSchema>),
}

/// The subset of JSON Schema that tool definitions need.
#[derive(Debug, PartialEq)]
pub enum JsonSchema {
    /// A boolean.
    Boolean { description: Option<String> },
    /// A string, possibly one of a given list.
    String { description: Option<String>, allowed_values: Option<Vec<String>> },
    /// A number; also what calls itself an integer.
    Number { description: Option<String> },
    /// An array of items of one schema.
    Array { items: Box<JsonSchema>, description: Option<String> },
    /// An object.
    Object {
        properties: OrderedMap<JsonSchema>,
        required: Option<Vec<String>>,
        additional_properties: Option<AdditionalProperties>,
    },
}

/// What is said of additional properties.
pub enum AdditionalView {
    /// Allowed, or not.
    Boolean(bool),
    /// Allowed where they meet the schema.
    Schema(Box<SchemaView>),
}

/// What a schema says.
pub enum SchemaView {
    /// A boolean.
    Boolean { description: Option<Seq<char>> },
    /// A string.
    String { description: Option<Seq<char>>, allowed_values: Option<Seq<Seq<char>>> },
    /// A number.
    Number { description: Option<Seq<char>> },
    /// An array.
    Array { items: Box<SchemaView>, description: Option<Seq<char>> },
    /// An object.
    Object {
        properties: Map<Seq<char>, SchemaView>,
        required: Option<Seq<Seq<char>>>,
        additional_properties: Option<AdditionalView>,
    },
}

impl JsonSchema {
    /// What the schema says.
    pub open spec fn view(&self) -> SchemaView
        decreases self, 0nat,
    {
        match self {
            JsonSchema::Boolean { description } => SchemaView::Boolean {
                description: opt_text(*description),
            },
            JsonSchema::String { description, allowed_values } => SchemaView::String {
                description: opt_text(*description),
                allowed_values: opt_texts(*allowed_values),
            },
            JsonSchema::Number { description } => SchemaView::Number {
                description: opt_text(*description),
            },
            JsonSchema::Array { items, description } => SchemaView::Array {
                items: Box::new(items.view()),
                description: opt_text(*description),
            },
            JsonSchema::Object { properties, required, additional_properties } => {
                proof {
                    OrderedMap::entries_decrease(*properties);
                }
                SchemaView::Object {
                    properties: schema_entries(properties.spec_entries()),
                    required: opt_texts(*required),
                    additional_properties: match additional_properties {
                        None => None,
                        Some(AdditionalProperties::Boolean(b)) => Some(AdditionalView::Boolean(*b)),
                        Some(AdditionalProperties::Schema(s)) => Some(
                            AdditionalView::Schema(Box::new(s.view())),
                        ),
                    },
                }
            },
        }
    }
}

/// The map that a list of entries stands for.
pub open spec fn schema_entries(s: Seq<(String, JsonSchema)>) -> Map<Seq<char>, SchemaView>
    decreases s, s.len(),
{
    if s.len() == 0 {
        Map::empty()
    } else {
        schema_entries(s.drop_last()).insert(s.last().0@, s.last().1.view())
    }
}

/// The properties that a map of schemas stands for.
pub open spec fn schema_map(m: OrderedMap<JsonSchema>) -> Map<Seq<char>, SchemaView> {
    schema_entries(m.spec_entries())
}

/// The properties of a map are what the map holds, each schema by what it says.
pub proof fn schema_map_values(m: OrderedMap<JsonSchema>)
    ensures
        schema_map(m) == m@.map_values(|v: JsonSchema| v.view()),
{
    let f = |v: JsonSchema| v.view();
    schema_entries_through(m.spec_entries());
    entry_map_through(m.spec_entries(), f);
    OrderedMap::view_is_entry_map(m);
}

proof fn schema_entries_through(s: Seq<(String, JsonSchema)>)
    ensures
        schema_entries(s) == entry_map(s, |v: JsonSchema| v.view()),
    decreases s.len(),
{
    let f = |v: JsonSchema| v.view();
    if s.len() > 0 {
        schema_entries_through(s.drop_last());
    }
    assert(schema_entries(s) =~= entry_map(s, f));
}

/// No properties yet.
pub fn no_properties() -> (m: OrderedMap<JsonSchema>)
    ensures
        schema_map(m) == Map::<Seq<char>, SchemaView>::empty(),
{
    let m = OrderedMap::new();
    assert(schema_map(m) =~= Map::<Seq<char>, SchemaView>::empty());
    m
}

/// Sets the schema of a property.
pub fn put_property(m: &mut OrderedMap<JsonSchema>, key: &str, schema: JsonSchema)
    ensures
        schema_map(*final(m)) == schema_map(*old(m)).insert(key@, schema.view()),
{
    let ghost before = *m;
    m.insert(key.to_owned(), schema);
    proof {
        schema_map_values(before);
        schema_map_values(*m);
        assert(schema_map(*m) =~= schema_map(before).insert(key@, schema.view()));
    }
}

impl From<bool> for AdditionalProperties {
    fn from(b: bool) -> (r: Self) {
        AdditionalProperties::Boolean(b)
    }
}

impl FromSpecImpl<bool> for AdditionalProperties {
    open spec fn obeys_from_spec() -> bool {
        true
    }

    open spec fn from_spec(b: bool) -> Self {
        AdditionalProperties::Boolean(b)
    }
}

impl From<JsonSchema> for AdditionalProperties {
    fn from(s: JsonSchema) -> (r: Self) {
        AdditionalProperties::Schema(Box::new(s))
    }
}

impl FromSpecImpl<JsonSchema> for AdditionalProperties {
    open spec fn obeys_from_spec() -> bool {
        true
    }

    open spec fn from_spec(s: JsonSchema) -> Self {
        AdditionalProperties::Schema(Box::new(s))
    }
}

/// The member is left out where there is no value for it.
pub open spec fn with_text(
    m: Map<Seq<char>, JsonView>,
    key: Seq<char>,
    value: Option<Seq<char>>,
) -> Map<Seq<char>, JsonView> {
    match value {
        Some(t) => m.insert(key, JsonView::String(t)),
        None => m,
    }
}

/// An object whose only member says the type.
pub open spec fn typed_object(name: Seq<char>) -> Map<Seq<char>, JsonView> {
    Map::<Seq<char>, JsonView>::empty().insert("type"@, JsonView::String(name))
}

/// A schema as a JSON value. An object schema that does not say which
/// properties are required requires all of them.
pub open spec fn schema_json(s: SchemaView) -> JsonView
    decreases s,
{
    match s {
        SchemaView::Boolean { description } => JsonView::Object(
            with_text(typed_object("boolean"@), "description"@, description),
        ),
        SchemaView::String { description, allowed_values } => {
            let m = with_text(typed_object("string"@), "description"@, description);
            JsonView::Object(
                match allowed_values {
                    Some(values) => m.insert("enum"@, strings_view(values)),
                    None => m,
                },
            )
        },
        SchemaView::Number { description } => JsonView::Object(
            with_text(typed_object("number"@), "description"@, description),
        ),
        SchemaView::Array { items, description } => JsonView::Object(
            with_text(
                typed_object("array"@).insert("items"@, schema_json(*items)),
                "description"@,
                description,
            ),
        ),
        SchemaView::Object { properties, required, additional_properties } => {
            let m = typed_object("object"@).insert(
                "properties"@,
                JsonView::Object(
                    Map::new(
                        |k: Seq<char>| properties.contains_key(k),
                        |k: Seq<char>|
                            if properties.contains_key(k) {
                                schema_json(properties[k])
                            } else {
                                arbitrary()
                            },
                    ),
                ),
            ).insert(
                "required"@,
                strings_view(
                    match required {
                        Some(names) => names,
                        None => sorted_keys(properties.dom()),
                    },
                ),
            );
            JsonView::Object(
                match additional_properties {
                    Some(AdditionalView::Boolean(b)) => m.insert(
                        "additionalProperties"@,
                        JsonView::Bool(b),
                    ),
                    Some(AdditionalView::Schema(a)) => m.insert(
                        "additionalProperties"@,
                        schema_json(*a),
                    ),
                    None => m,
                },
            )
        },
    }
}

/// The properties of an object schema as a JSON object.
pub open spec fn properties_json(p: Map<Seq<char>, SchemaView>) -> Map<Seq<char>, JsonView> {
    p.map_values(|s: SchemaView| schema_json(s))
}

/// What an object schema is as a JSON value.
pub proof fn object_schema_json(
    properties: Map<Seq<char>, SchemaView>,
    required: Option<Seq<Seq<char>>>,
    additional_properties: Option<AdditionalView>,
)
    ensures
        schema_json(SchemaView::Object { properties, required, additional_properties }) == ({
            let m = typed_object("object"@).insert(
                "properties"@,
                JsonView::Object(properties_json(properties)),
            ).insert(
                "required"@,
                strings_view(
                    match required {
                        Some(names) => names,
                        None => sorted_keys(properties.dom()),
                    },
                ),
            );
            JsonView::Object(
                match additional_properties {
                    Some(AdditionalView::Boolean(b)) => m.insert(
                        "additionalProperties"@,
                        JsonView::Bool(b),
                    ),
                    Some(AdditionalView::Schema(a)) => m.insert(
                        "additionalProperties"@,
                        schema_json(*a),
                    ),
                    None => m,
                },
            )
        }),
{
    reveal_strlit("properties");
    reveal_strlit("required");
    reveal_strlit("additionalProperties");
    let s = SchemaView::Object { properties, required, additional_properties };
    assert("properties"@.len() == 10);
    assert("properties"@ != "required"@);
    assert("properties"@ != "additionalProperties"@);
    let o = schema_json(s)->Object_0["properties"@];
    let p = o->Object_0;
    let q = properties_json(properties);
    assert(o is Object);
    assert(p.dom() =~= q.dom());
    assert forall|k: Seq<char>| p.contains_key(k) implies p[k] == q[k] by {
        assert(properties.contains_key(k));
    }
    assert(p =~= q);
}

fn put_text(m: &mut OrderedMap<JsonValue>, key: &str, value: &Option<String>)
    ensures
        json_map(*final(m)) == with_text(json_map(*old(m)), key@, opt_text(*value)),
{
    if let Some(t) = value {
        json_put(m, key, json_str(t.as_str()));
    }
}

fn new_typed(name: &str) -> (m: OrderedMap<JsonValue>)
    ensures
        json_map(m) == typed_object(name@),
{
    let mut m = json_object();
    json_put(&mut m, "type", json_str(name));
    m
}

impl JsonSchema {
    /// Writes the schema as a JSON value. An object schema that does not say
    /// which properties are required requires all of them, in the order of
    /// their names.
    pub fn to_json(&self) -> (r: JsonValue)
        ensures
            r.view() == schema_json(self.view()),
        decreases self,
    {
        match self {
            JsonSchema::Boolean { description } => {
                let mut m = new_typed("boolean");
                put_text(&mut m, "description", description);
                JsonValue::Object(m)
            },
            JsonSchema::String { description, allowed_values } => {
                let mut m = new_typed("string");
                put_text(&mut m, "description", description);
                if let Some(values) = allowed_values {
                    json_put(&mut m, "enum", json_strings(values));
                }
                JsonValue::Object(m)
            },
            JsonSchema::Number { description } => {
                let mut m = new_typed("number");
                put_text(&mut m, "description", description);
                JsonValue::Object(m)
            },
            JsonSchema::Array { items, description } => {
                let mut m = new_typed("array");
                let inner = items.to_json();
                json_put(&mut m, "items", inner);
                put_text(&mut m, "description", description);
                JsonValue::Object(m)
            },
            JsonSchema::Object { properties, required, additional_properties } => {
                let mut m = new_typed("object");
                let mut props = json_object();
                let entries = properties.entries();
                let mut i: usize = 0;
                assert(json_map(props) =~= properties_json(schema_entries(entries@.take(0))));
                while i < entries.len()
                    invariant
                        i <= entries@.len(),
                        *self is Object,
                        *properties == self->Object_properties,
                        entries@ == properties.spec_entries(),
                        json_map(props) == properties_json(schema_entries(entries@.take(i as int))),
                    decreases entries@.len() - i,
                {
                    let e = &entries[i];
                    proof {
                        assert(decreases_to!(*self => self->Object_properties));
                        OrderedMap::entries_decrease(*properties);
                        assert(decreases_to!(entries@ => entries@[i as int]));
                        assert(entries@.take(i + 1).drop_last() =~= entries@.take(i as int));
                    }
                    let v = e.1.to_json();
                    json_put(&mut props, e.0.as_str(), v);
                    proof {
                        let p = schema_entries(entries@.take(i as int));
                        assert(properties_json(p.insert(e.0@, e.1.view())) =~= properties_json(p).insert(
                            e.0@,
                            schema_json(e.1.view()),
                        ));
                    }
                    i = i + 1;
                }
                assert(entries@.take(entries@.len() as int) =~= entries@);
                json_put(&mut m, "properties", JsonValue::Object(props));
                proof {
                    schema_map_values(*properties);
                    assert(schema_map(*properties).dom() =~= properties@.dom());
                }
                let names = match required {
                    Some(explicit) => clone_strings(explicit),
                    None => properties.keys(),
                };
                json_put(&mut m, "required", json_strings(&names));
                match additional_properties {
                    Some(AdditionalProperties::Boolean(b)) => {
                        json_put(&mut m, "additionalProperties", JsonValue::Bool(*b));
                    },
                    Some(AdditionalProperties::Schema(s)) => {
                        let inner = s.to_json();
                        json_put(&mut m, "additionalProperties", inner);
                    },
                    None => {},
                }
                proof {
                    let v = self.view();
                    object_schema_json(
                        v->Object_properties,
                        v->required,
                        v->additional_properties,
                    );
                }
                JsonValue::Object(m)
            },
        }
    }
}

} // verus!
