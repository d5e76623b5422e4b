//! JSON values.

use crate::omap::{entry_map, entry_map_through, OrderedMap};
use crate::text::texts;
use vstd::prelude::*;

verus! {

broadcast use vstd::seq_lib::group_seq_properties;

/// A JSON number. A number that is no 64-bit integer is kept as it is written.
#[derive(Debug, PartialEq)]
pub enum JsonNumber {
    /// An integer that is not negative.
    PosInt(u64),
    /// A negative integer.
    NegInt(i64),
    /// The text of any other number.
    Float(String),
}

/// A JSON value.
#[derive(Debug, PartialEq)]
pub enum JsonValue {
    /// `null`
    Null,
    /// `true` or `false`
    Bool(bool),
    /// A number.
    Number(JsonNumber),
    /// A string.
    String(String),
    /// An array.
    Array(Vec<JsonValue>),
    /// An object.
    Object(OrderedMap<JsonValue>),
}

/// What a JSON number is.
pub enum NumberView {
    /// An integer.
    Int(int),
    /// The text of any other number.
    Float(Seq<char>),
}

/// What a JSON value is.
pub enum JsonView {
    /// `null`
    Null,
    /// `true` or `false`
    Bool(bool),
    /// A number.
    Number(NumberView),
    /// A string.
    String(Seq<char>),
    /// An array.
    Array(Seq<JsonView>),
    /// An object.
    Object(Map<Seq<char>, JsonView>),
}

impl JsonNumber {
    /// The number.
    pub open spec fn view(&self) -> NumberView {
        match self {
            JsonNumber::PosInt(n) => NumberView::Int(*n as int),
            JsonNumber::NegInt(n) => NumberView::Int(*n as int),
            JsonNumber::Float(t) => NumberView::Float(t@),
        }
    }
}

impl JsonValue {
    /// The value.
    pub open spec fn view(&self) -> JsonView
        decreases self, 0nat,
    {
        match self {
            JsonValue::Null => JsonView::Null,
            JsonValue::Bool(b) => JsonView::Bool(*b),
            JsonValue::Number(n) => JsonView::Number(n.view()),
            JsonValue::String(s) => JsonView::String(s@),
            JsonValue::Array(items) => JsonView::Array(json_items(items@)),
            JsonValue::Object(map) => {
                proof {
                    OrderedMap::entries_decrease(*map);
                }
                JsonView::Object(json_entries(map.spec_entries()))
            },
        }
    }
}

/// The values of a list.
pub open spec fn json_items(s: Seq<JsonValue>) -> Seq<JsonView>
    decreases s, s.len(),
{
    if s.len() == 0 {
        Seq::empty()
    } else {
        json_items(s.drop_last()).push(s.last().view())
    }
}

/// The map that a list of entries stands for.
pub open spec fn json_entries(s: Seq<(String, JsonValue)>) -> Map<Seq<char>, JsonView>
    decreases s, s.len(),
{
    if s.len() == 0 {
        Map::empty()
    } else {
        json_entries(s.drop_last()).insert(s.last().0@, s.last().1.view())
    }
}

/// The object that a map of values stands for.
pub open spec fn json_map(m: OrderedMap<JsonValue>) -> Map<Seq<char>, JsonView> {
    json_entries(m.spec_entries())
}

/// A list of values holds the value of each of its items.
pub proof fn json_items_index(s: Seq<JsonValue>)
    ensures
        json_items(s).len() == s.len(),
        forall|i: int| 0 <= i < s.len() ==> #[trigger] json_items(s)[i] == s[i].view(),
    decreases s.len(),
{
    if s.len() > 0 {
        json_items_index(s.drop_last());
        assert forall|i: int| 0 <= i < s.len() implies #[trigger] json_items(s)[i] == s[i].view() by {
            if i < s.len() - 1 {
                assert(json_items(s)[i] == json_items(s.drop_last())[i]);
                assert(s.drop_last()[i] == s[i]);
            }
        }
    }
}

/// An item put at the end of a list stands at the end of its values.
pub proof fn json_items_push(s: Seq<JsonValue>, v: JsonValue)
    ensures
        json_items(s.push(v)) == json_items(s).push(v.view()),
{
    assert(s.push(v).drop_last() =~= s);
}

/// The object of a map holds what the map holds, each value seen as JSON.
pub proof fn json_map_values(m: OrderedMap<JsonValue>)
    ensures
        json_map(m) == m@.map_values(|v: JsonValue| v.view()),
{
    let f = |v: JsonValue| v.view();
    json_entries_through(m.spec_entries());
    entry_map_through(m.spec_entries(), f);
    OrderedMap::view_is_entry_map(m);
}

proof fn json_entries_through(s: Seq<(String, JsonValue)>)
    ensures
        json_entries(s) == entry_map(s, |v: JsonValue| v.view()),
    decreases s.len(),
{
    let f = |v: JsonValue| v.view();
    if s.len() > 0 {
        json_entries_through(s.drop_last());
    }
    assert(json_entries(s) =~= entry_map(s, f));
}

/// A new object without members.
pub fn json_object() -> (m: OrderedMap<JsonValue>)
    ensures
        json_map(m) == Map::<Seq<char>, JsonView>::empty(),
{
    let m = OrderedMap::new();
    assert(json_map(m) =~= Map::<Seq<char>, JsonView>::empty());
    m
}

/// Sets a member of an object.
pub fn json_put(m: &mut OrderedMap<JsonValue>, key: &str, value: JsonValue)
    ensures
        json_map(*final(m)) == json_map(*old(m)).insert(key@, value.view()),
{
    let ghost before = *m;
    m.insert(key.to_owned(), value);
    proof {
        json_map_values(before);
        json_map_values(*m);
        assert(json_map(*m) =~= json_map(before).insert(key@, value.view()));
    }
}

/// A member of an object, if there is one.
pub fn json_get<'a>(m: &'a OrderedMap<JsonValue>, key: &str) -> (r: Option<&'a JsonValue>)
    ensures
        match r {
            Some(v) => json_map(*m).contains_key(key@) && json_map(*m)[key@] == v.view()
                && m@.contains_key(key@) && m@[key@] == *v,
            None => !json_map(*m).contains_key(key@),
        },
{
    proof {
        json_map_values(*m);
    }
    m.get(key)
}

/// Takes a member out of an object.
pub fn json_take(m: &mut OrderedMap<JsonValue>, key: &str) -> (r: Option<JsonValue>)
    ensures
        json_map(*final(m)) == json_map(*old(m)).remove(key@),
        match r {
            Some(v) => json_map(*old(m)).contains_key(key@) && json_map(*old(m))[key@] == v.view(),
            None => !json_map(*old(m)).contains_key(key@),
        },
{
    let ghost before = *m;
    let r = m.remove(key);
    proof {
        json_map_values(before);
        json_map_values(*m);
        assert(json_map(*m) =~= json_map(before).remove(key@));
    }
    r
}

/// A JSON string.
pub fn json_str(s: &str) -> (v: JsonValue)
    ensures
        v.view() == JsonView::String(s@),
{
    JsonValue::String(s.to_owned())
}

/// A JSON number that is an integer and not negative.
pub fn json_uint(n: u64) -> (v: JsonValue)
    ensures
        v.view() == JsonView::Number(NumberView::Int(n as int)),
{
    JsonValue::Number(JsonNumber::PosInt(n))
}

/// A JSON number that is an integer.
pub fn json_int(n: i64) -> (v: JsonValue)
    ensures
        v.view() == JsonView::Number(NumberView::Int(n as int)),
{
    if n >= 0 {
        JsonValue::Number(JsonNumber::PosInt(n as u64))
    } else {
        JsonValue::Number(JsonNumber::NegInt(n))
    }
}

/// The array of the given strings.
pub open spec fn strings_view(v: Seq<Seq<char>>) -> JsonView {
    JsonView::Array(v.map_values(|s: Seq<char>| JsonView::String(s)))
}

/// A JSON array of strings.
pub fn json_strings(v: &Vec<String>) -> (r: JsonValue)
    ensures
        r.view() == strings_view(texts(v@)),
{
    let mut items: Vec<JsonValue> = Vec::new();
    let mut i: usize = 0;
    let ghost want = texts(v@).map_values(|s: Seq<char>| JsonView::String(s));
    while i < v.len()
        invariant
            i <= v@.len(),
            want == texts(v@).map_values(|s: Seq<char>| JsonView::String(s)),
            json_items(items@) =~= want.take(i as int),
        decreases v@.len() - i,
    {
        let item = json_str(v[i].as_str());
        proof {
            json_items_push(items@, item);
        }
        items.push(item);
        i = i + 1;
    }
    assert(want.take(v@.len() as int) =~= want);
    JsonValue::Array(items)
}

impl Clone for JsonNumber {
    fn clone(&self) -> (r: Self)
        ensures
            r == *self,
    {
        match self {
            JsonNumber::PosInt(n) => JsonNumber::PosInt(*n),
            JsonNumber::NegInt(n) => JsonNumber::NegInt(*n),
            JsonNumber::Float(t) => JsonNumber::Float(t.clone()),
        }
    }
}

impl Clone for JsonValue {
    fn clone(&self) -> (r: Self)
        ensures
            r.view() == self.view(),
        decreases self,
    {
        match self {
            JsonValue::Null => JsonValue::Null,
            JsonValue::Bool(b) => JsonValue::Bool(*b),
            JsonValue::Number(n) => JsonValue::Number(n.clone()),
            JsonValue::String(s) => JsonValue::String(s.clone()),
            JsonValue::Array(items) => {
                let mut out: Vec<JsonValue> = Vec::new();
                let mut i: usize = 0;
                while i < items.len()
                    invariant
                        i <= items@.len(),
                        *self == JsonValue::Array(*items),
                        json_items(out@) == json_items(items@.take(i as int)),
                    decreases items@.len() - i,
                {
                    proof {
                        assert(decreases_to!(*self => self->Array_0));
                        assert(decreases_to!(items@ => items@[i as int]));
                    }
                    let v = items[i].clone();
                    proof {
                        json_items_push(out@, v);
                        assert(items@.take(i + 1) =~= items@.take(i as int).push(items@[i as int]));
                        json_items_push(items@.take(i as int), items@[i as int]);
                    }
                    out.push(v);
                    i = i + 1;
                }
                assert(items@.take(items@.len() as int) =~= items@);
                JsonValue::Array(out)
            },
            JsonValue::Object(map) => {
                let entries = map.entries();
                let mut out = json_object();
                let mut i: usize = 0;
                assert(json_map(out) =~= json_entries(entries@.take(0)));
                while i < entries.len()
                    invariant
                        i <= entries@.len(),
                        *self == JsonValue::Object(*map),
                        entries@ == map.spec_entries(),
                        json_map(out) == json_entries(entries@.take(i as int)),
                    decreases entries@.len() - i,
                {
                    let e = &entries[i];
                    proof {
                        OrderedMap::entries_decrease(*map);
                        assert(entries@.take(i + 1).drop_last() =~= entries@.take(i as int));
                        assert(decreases_to!(*self => self->Object_0));
                        assert(decreases_to!(entries@ => entries@[i as int]));
                    }
                    let v = e.1.clone();
                    json_put(&mut out, e.0.as_str(), v);
                    i = i + 1;
                }
                assert(entries@.take(entries@.len() as int) =~= entries@);
                JsonValue::Object(out)
            },
        }
    }
}

} // verus!
