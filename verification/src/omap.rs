//! A map from strings to values, kept in the order of its keys.

use crate::text::{lex_lt, lex_lt_irreflexive, lex_lt_total, lex_lt_transitive, str_eq, str_lt, texts};
use vstd::prelude::*;

verus! {

broadcast use vstd::seq_lib::group_seq_properties;

/// The map that a list of entries stands for, with each value seen through `f`.
pub open spec fn entry_map<V, W>(s: Seq<(String, V)>, f: spec_fn(V) -> W) -> Map<Seq<char>, W>
    decreases s.len(),
{
    if s.len() == 0 {
        Map::empty()
    } else {
        entry_map(s.drop_last(), f).insert(s.last().0@, f(s.last().1))
    }
}

/// Whether the keys of the entries strictly increase.
pub open spec fn keys_increase<V>(s: Seq<(String, V)>) -> bool {
    forall|i: int, j: int| 0 <= i < j < s.len() ==> lex_lt(#[trigger] s[i].0@, #[trigger] s[j].0@)
}

/// The key stands among the entries.
pub open spec fn has_key<V>(s: Seq<(String, V)>, k: Seq<char>) -> bool {
    exists|i: int| 0 <= i < s.len() && #[trigger] s[i].0@ == k
}

/// A key is in the map exactly if it stands among the entries.
pub proof fn entry_map_domain<V, W>(s: Seq<(String, V)>, f: spec_fn(V) -> W, k: Seq<char>)
    ensures
        entry_map(s, f).contains_key(k) == has_key(s, k),
    decreases s.len(),
{
    if s.len() > 0 {
        let t = s.drop_last();
        entry_map_domain(t, f, k);
        assert forall|i: int| 0 <= i < t.len() implies #[trigger] t[i].0@ == s[i].0@ by {}
        if has_key(s, k) {
            let i = choose|i: int| 0 <= i < s.len() && #[trigger] s[i].0@ == k;
            if i < t.len() {
                assert(t[i].0@ == k);
            }
        }
        if has_key(t, k) {
            let i = choose|i: int| 0 <= i < t.len() && #[trigger] t[i].0@ == k;
            assert(s[i].0@ == k);
        }
        if s.last().0@ == k {
            assert(s[s.len() - 1].0@ == k);
        }
    }
}

/// Where the keys increase, the map holds each entry's value at its key.
pub proof fn entry_map_value<V, W>(s: Seq<(String, V)>, f: spec_fn(V) -> W, i: int)
    requires
        keys_increase(s),
        0 <= i < s.len(),
    ensures
        entry_map(s, f).contains_key(s[i].0@),
        entry_map(s, f)[s[i].0@] == f(s[i].1),
    decreases s.len(),
{
    let t = s.drop_last();
    if i < t.len() {
        assert(keys_increase(t));
        entry_map_value(t, f, i);
        assert(t[i] == s[i]);
        assert(lex_lt(s[i].0@, s[s.len() - 1].0@));
        lex_lt_irreflexive(s[i].0@);
    }
}

/// Seeing each value through `f` is the same before and after the entries are
/// read as a map.
pub proof fn entry_map_through<V, W>(s: Seq<(String, V)>, f: spec_fn(V) -> W)
    ensures
        entry_map(s, f) == entry_map(s, |v: V| v).map_values(f),
    decreases s.len(),
{
    let id = |v: V| v;
    if s.len() == 0 {
        assert(entry_map(s, f) =~= entry_map(s, id).map_values(f));
    } else {
        let t = s.drop_last();
        entry_map_through(t, f);
        assert(entry_map(s, f) =~= entry_map(s, id).map_values(f));
    }
}

proof fn entry_map_source<V>(s: Seq<(String, V)>, k: Seq<char>) -> (i: int)
    requires
        entry_map(s, |v: V| v).contains_key(k),
    ensures
        0 <= i < s.len(),
        entry_map(s, |v: V| v)[k] == s[i].1,
    decreases s.len(),
{
    let id = |v: V| v;
    if s.last().0@ == k {
        s.len() - 1
    } else {
        let i = entry_map_source(s.drop_last(), k);
        assert(s.drop_last()[i] == s[i]);
        i
    }
}

/// A map whose entries stand in the order of their keys, each key once.
#[derive(Debug, PartialEq)]
pub struct OrderedMap<V> {
    entries: Vec<(String, V)>,
}

impl<V> View for OrderedMap<V> {
    type V = Map<Seq<char>, V>;

    closed spec fn view(&self) -> Map<Seq<char>, V> {
        entry_map(self.entries@, |v: V| v)
    }
}

impl<V> OrderedMap<V> {
    /// The entries, in the order of their keys.
    pub closed spec fn spec_entries(&self) -> Seq<(String, V)> {
        self.entries@
    }

    #[verifier::type_invariant]
    spec fn well_formed(self) -> bool {
        keys_increase(self.entries@)
    }

    /// The entries of a map are part of it.
    pub proof fn entries_decrease(m: Self)
        ensures
            decreases_to!(m => m.spec_entries()),
    {
    }

    /// The values of a map are part of it.
    pub proof fn value_decreases(m: Self, k: Seq<char>)
        requires
            m@.contains_key(k),
        ensures
            decreases_to!(m => m@[k]),
    {
        let s = m.entries@;
        let i = entry_map_source(s, k);
        assert(decreases_to!(m => m.entries));
        assert(decreases_to!(m.entries => m.entries@));
        assert(decreases_to!(s => s[i]));
        assert(decreases_to!(s[i] => s[i].1));
    }

    /// The map is what its entries stand for.
    pub proof fn view_is_entry_map(m: Self)
        ensures
            m@ == entry_map(m.spec_entries(), |v: V| v),
    {
    }

    /// The empty map.
    pub fn new() -> (m: Self)
        ensures
            m@ == Map::<Seq<char>, V>::empty(),
            m.spec_entries().len() == 0,
    {
        OrderedMap { entries: Vec::new() }
    }

    /// The number of entries.
    pub fn len(&self) -> (n: usize)
        ensures
            n == self.spec_entries().len(),
    {
        self.entries.len()
    }

    /// The `i`-th entry in the order of the keys.
    pub fn entry_at(&self, i: usize) -> (e: &(String, V))
        requires
            i < self.spec_entries().len(),
        ensures
            *e == self.spec_entries()[i as int],
            self@.contains_key(e.0@),
            self@[e.0@] == e.1,
    {
        proof {
            use_type_invariant(self);
            entry_map_value(self.entries@, |v: V| v, i as int);
        }
        &self.entries[i]
    }

    /// The entries, in the order of their keys.
    pub fn entries(&self) -> (s: &Vec<(String, V)>)
        ensures
            s@ == self.spec_entries(),
            keys_increase(s@),
    {
        proof {
            use_type_invariant(self);
        }
        &self.entries
    }

    /// Takes the entries out of the map, in the order of their keys.
    pub fn into_entries(self) -> (s: Vec<(String, V)>)
        ensures
            s@ == self.spec_entries(),
            keys_increase(s@),
    {
        proof {
            use_type_invariant(&self);
        }
        self.entries
    }

    /// The number of keys that come before `key`, which is also the place of
    /// `key` among them.
    fn place(&self, key: &str) -> (p: usize)
        ensures
            p <= self.entries@.len(),
            forall|i: int| 0 <= i < p ==> lex_lt(#[trigger] self.entries@[i].0@, key@),
            forall|i: int| p <= i < self.entries@.len() ==> #[trigger] self.entries@[i].0@ == key@ && i == p
                || lex_lt(key@, self.entries@[i].0@),
    {
        proof {
            use_type_invariant(self);
        }
        let mut p: usize = 0;
        while p < self.entries.len() && str_lt(self.entries[p].0.as_str(), key)
            invariant
                p <= self.entries@.len(),
                keys_increase(self.entries@),
                forall|i: int| 0 <= i < p ==> lex_lt(#[trigger] self.entries@[i].0@, key@),
            decreases self.entries@.len() - p,
        {
            p = p + 1;
        }
        proof {
            if p < self.entries@.len() {
                lex_lt_total(self.entries@[p as int].0@, key@);
                assert forall|i: int| p <= i < self.entries@.len() implies #[trigger] self.entries@[i].0@
                    == key@ && i == p || lex_lt(key@, self.entries@[i].0@) by {
                    if i > p {
                        assert(lex_lt(self.entries@[p as int].0@, self.entries@[i].0@));
                        if self.entries@[p as int].0@ != key@ {
                            lex_lt_transitive(
                                key@,
                                self.entries@[p as int].0@,
                                self.entries@[i].0@,
                            );
                        }
                    }
                }
            }
        }
        p
    }

    /// The value at the key, if there is one.
    pub fn get(&self, key: &str) -> (r: Option<&V>)
        ensures
            match r {
                Some(v) => self@.contains_key(key@) && self@[key@] == *v,
                None => !self@.contains_key(key@),
            },
    {
        proof {
            use_type_invariant(self);
        }
        let p = self.place(key);
        let ghost id = |v: V| v;
        if p < self.entries.len() && str_eq(self.entries[p].0.as_str(), key) {
            proof {
                entry_map_value(self.entries@, id, p as int);
            }
            Some(&self.entries[p].1)
        } else {
            proof {
                entry_map_domain(self.entries@, id, key@);
                lex_lt_irreflexive(key@);
            }
            None
        }
    }

    /// Whether the map has a value at the key.
    pub fn contains_key(&self, key: &str) -> (r: bool)
        ensures
            r == self@.contains_key(key@),
    {
        self.get(key).is_some()
    }

    /// Sets the value at the key.
    pub fn insert(&mut self, key: String, value: V)
        ensures
            final(self)@ == old(self)@.insert(key@, value),
    {
        proof {
            use_type_invariant(&*self);
        }
        let p = self.place(key.as_str());
        let mut list: Vec<(String, V)> = Vec::new();
        std::mem::swap(&mut list, &mut self.entries);
        let ghost before = list@;
        let ghost id = |v: V| v;
        let ghost k = key@;
        let same = p < list.len() && str_eq(list[p].0.as_str(), key.as_str());
        if same {
            list.remove(p);
        }
        let ghost rest = list@;
        list.insert(p, (key, value));
        proof {
            lex_lt_irreflexive(k);
            let after = list@;
            assert(after[p as int].0@ == k);
            assert(rest == if same { before.remove(p as int) } else { before });
            assert forall|i: int, j: int| 0 <= i < j < after.len() implies lex_lt(
                #[trigger] after[i].0@,
                #[trigger] after[j].0@,
            ) by {
                let ii = if i < p { i } else if same { i } else { i - 1 };
                let jj = if j < p { j } else if same { j } else { j - 1 };
                if i != p && j != p {
                    assert(after[i] == before[ii]);
                    assert(after[j] == before[jj]);
                    assert(lex_lt(before[ii].0@, before[jj].0@));
                } else if i == p {
                    assert(after[j] == before[jj]);
                    assert(before[jj].0@ == before[jj].0@);
                } else {
                    assert(after[i] == before[ii]);
                    assert(before[ii].0@ == before[ii].0@);
                }
            }
            let m = entry_map(before, id).insert(k, value);
            let n = entry_map(after, id);
            entry_map_value(after, id, p as int);
            assert forall|x: Seq<char>| #[trigger] m.contains_key(x) == n.contains_key(x) by {
                entry_map_domain(before, id, x);
                entry_map_domain(after, id, x);
                if has_key(before, x) && x != k {
                    let i = choose|i: int| 0 <= i < before.len() && #[trigger] before[i].0@ == x;
                    let j = if i < p { i } else if same { i } else { i + 1 };
                    assert(after[j].0@ == x);
                }
                if has_key(after, x) && x != k {
                    let j = choose|j: int| 0 <= j < after.len() && #[trigger] after[j].0@ == x;
                    let i = if j < p { j } else if same { j } else { j - 1 };
                    assert(before[i].0@ == x);
                }
            }
            assert forall|x: Seq<char>| #[trigger] m.contains_key(x) implies m[x] == n[x] by {
                if x != k {
                    entry_map_domain(before, id, x);
                    let i = choose|i: int| 0 <= i < before.len() && #[trigger] before[i].0@ == x;
                    let j = if i < p { i } else if same { i } else { i + 1 };
                    assert(after[j] == before[i]);
                    entry_map_value(before, id, i);
                    entry_map_value(after, id, j);
                }
            }
            assert(m =~= n);
        }
        self.entries = list;
    }

    /// Takes the value at the key out of the map.
    pub fn remove(&mut self, key: &str) -> (r: Option<V>)
        ensures
            final(self)@ == old(self)@.remove(key@),
            match r {
                Some(v) => old(self)@.contains_key(key@) && old(self)@[key@] == v,
                None => !old(self)@.contains_key(key@),
            },
    {
        proof {
            use_type_invariant(&*self);
        }
        let p = self.place(key);
        let ghost id = |v: V| v;
        let ghost before = self.entries@;
        if p < self.entries.len() && str_eq(self.entries[p].0.as_str(), key) {
            let mut list: Vec<(String, V)> = Vec::new();
            std::mem::swap(&mut list, &mut self.entries);
            let (_, value) = list.remove(p);
            proof {
                lex_lt_irreflexive(key@);
                let after = list@;
                assert(after == before.remove(p as int));
                assert forall|i: int, j: int| 0 <= i < j < after.len() implies lex_lt(
                    #[trigger] after[i].0@,
                    #[trigger] after[j].0@,
                ) by {
                    let ii = if i < p { i } else { i + 1 };
                    let jj = if j < p { j } else { j + 1 };
                    assert(lex_lt(before[ii].0@, before[jj].0@));
                }
                entry_map_value(before, id, p as int);
                let m = entry_map(before, id).remove(key@);
                let n = entry_map(after, id);
                assert forall|x: Seq<char>| #[trigger] m.contains_key(x) == n.contains_key(x) by {
                    entry_map_domain(before, id, x);
                    entry_map_domain(after, id, x);
                    if has_key(before, x) && x != key@ {
                        let i = choose|i: int| 0 <= i < before.len() && #[trigger] before[i].0@ == x;
                        let j = if i < p { i } else { i - 1 };
                        assert(after[j].0@ == x);
                    }
                    if has_key(after, x) {
                        let j = choose|j: int| 0 <= j < after.len() && #[trigger] after[j].0@ == x;
                        let i = if j < p { j } else { j + 1 };
                        assert(before[i].0@ == x);
                    }
                }
                assert forall|x: Seq<char>| #[trigger] m.contains_key(x) implies m[x] == n[x] by {
                    entry_map_domain(before, id, x);
                    let i = choose|i: int| 0 <= i < before.len() && #[trigger] before[i].0@ == x;
                    let j = if i < p { i } else { i - 1 };
                    assert(after[j] == before[i]);
                    entry_map_value(before, id, i);
                    entry_map_value(after, id, j);
                }
                assert(m =~= n);
            }
            self.entries = list;
            Some(value)
        } else {
            proof {
                entry_map_domain(self.entries@, id, key@);
                lex_lt_irreflexive(key@);
                assert(entry_map(before, id).remove(key@) =~= entry_map(before, id));
            }
            None
        }
    }
}

/// The list holds exactly the given keys, in increasing order.
pub open spec fn lists_keys(s: Seq<Seq<char>>, keys: Set<Seq<char>>) -> bool {
    &&& forall|i: int, j: int| 0 <= i < j < s.len() ==> lex_lt(#[trigger] s[i], #[trigger] s[j])
    &&& s.to_set() == keys
}

/// The keys in increasing order.
pub open spec fn sorted_keys(keys: Set<Seq<char>>) -> Seq<Seq<char>> {
    choose|s: Seq<Seq<char>>| lists_keys(s, keys)
}

/// Of finitely many keys, one comes before all others.
pub proof fn least_key(s: Set<Seq<char>>) -> (r: Seq<char>)
    requires
        s.finite(),
        s.len() > 0,
    ensures
        s.contains(r),
        forall|k: Seq<char>| #[trigger] s.contains(k) ==> k == r || lex_lt(r, k),
    decreases s.len(),
{
    let a = s.choose();
    let rest = s.remove(a);
    if rest.len() == 0 {
        assert forall|k: Seq<char>| #[trigger] s.contains(k) implies k == a by {
            if k != a {
                assert(rest.contains(k));
            }
        }
        a
    } else {
        let b = least_key(rest);
        lex_lt_total(a, b);
        let r = if lex_lt(a, b) {
            a
        } else {
            b
        };
        assert forall|k: Seq<char>| #[trigger] s.contains(k) implies k == r || lex_lt(r, k) by {
            if k != a {
                assert(rest.contains(k));
                if lex_lt(a, b) && k != b {
                    lex_lt_transitive(a, b, k);
                }
            }
        }
        r
    }
}

proof fn sorted_list(keys: Set<Seq<char>>) -> (s: Seq<Seq<char>>)
    requires
        keys.finite(),
    ensures
        lists_keys(s, keys),
    decreases keys.len(),
{
    if keys.len() == 0 {
        let s = Seq::<Seq<char>>::empty();
        assert(s.to_set() =~= keys);
        s
    } else {
        let first = least_key(keys);
        let rest = keys.remove(first);
        let tail = sorted_list(rest);
        let s = seq![first] + tail;
        assert forall|k: Seq<char>| #[trigger] tail.contains(k) == rest.contains(k) by {
            assert(tail.to_set().contains(k) == rest.contains(k));
        }
        assert forall|k: Seq<char>| s.to_set().contains(k) == keys.contains(k) by {
            if s.contains(k) {
                let i = choose|i: int| 0 <= i < s.len() && s[i] == k;
                if i > 0 {
                    assert(tail[i - 1] == k);
                    assert(tail.contains(k));
                }
            }
            if keys.contains(k) {
                if k == first {
                    assert(s[0] == k);
                } else {
                    assert(tail.contains(k));
                    let i = choose|i: int| 0 <= i < tail.len() && tail[i] == k;
                    assert(s[i + 1] == k);
                }
            }
        }
        assert(s.to_set() =~= keys);
        assert forall|i: int, j: int| 0 <= i < j < s.len() implies lex_lt(
            #[trigger] s[i],
            #[trigger] s[j],
        ) by {
            assert(s[j] == tail[j - 1]);
            assert(tail.contains(tail[j - 1]));
            if i > 0 {
                assert(s[i] == tail[i - 1]);
            } else {
                assert(rest.contains(s[j]));
            }
        }
        s
    }
}

/// Finitely many keys stand in increasing order, each of them once, and no others.
pub proof fn sorted_keys_list(keys: Set<Seq<char>>)
    requires
        keys.finite(),
    ensures
        lists_keys(sorted_keys(keys), keys),
{
    let s = sorted_list(keys);
    assert(lists_keys(s, keys));
}

/// There is only one list of the given keys in increasing order.
pub proof fn sorted_keys_unique(s: Seq<Seq<char>>, keys: Set<Seq<char>>)
    requires
        lists_keys(s, keys),
    ensures
        sorted_keys(keys) == s,
{
    let t = sorted_keys(keys);
    assert(lists_keys(t, keys));
    increasing_lists_agree(s, t);
}

proof fn increasing_lists_agree(s: Seq<Seq<char>>, t: Seq<Seq<char>>)
    requires
        lists_keys(s, t.to_set()),
        lists_keys(t, t.to_set()),
    ensures
        s == t,
    decreases s.len(),
{
    if s.len() == 0 || t.len() == 0 {
        if t.len() > 0 {
            assert(t.to_set().contains(t[0]));
            assert(s.to_set().contains(t[0]));
        }
        if s.len() > 0 {
            assert(s.to_set().contains(s[0]));
        }
        assert(s =~= t);
    } else {
        let a = s.last();
        let b = t.last();
        assert(s.to_set().contains(a));
        assert(t.to_set().contains(a));
        assert(t.to_set().contains(b));
        assert(s.to_set().contains(b));
        let i = choose|i: int| 0 <= i < s.len() && s[i] == b;
        let j = choose|j: int| 0 <= j < t.len() && t[j] == a;
        if a != b {
            assert(lex_lt(s[i], s[s.len() - 1]));
            assert(lex_lt(t[j], t[t.len() - 1]));
            lex_lt_transitive(a, b, a);
            lex_lt_irreflexive(a);
        }
        let s1 = s.drop_last();
        let t1 = t.drop_last();
        assert forall|x: Seq<char>| s1.to_set().contains(x) == t1.to_set().contains(x) by {
            if s1.to_set().contains(x) {
                let k = choose|k: int| 0 <= k < s1.len() && s1[k] == x;
                assert(s[k] == x);
                assert(s.to_set().contains(x));
                assert(lex_lt(s[k], s[s.len() - 1]));
                lex_lt_irreflexive(x);
                assert(t.to_set().contains(x));
                let l = choose|l: int| 0 <= l < t.len() && t[l] == x;
                assert(t1[l] == x);
            }
            if t1.to_set().contains(x) {
                let k = choose|k: int| 0 <= k < t1.len() && t1[k] == x;
                assert(t[k] == x);
                assert(t.to_set().contains(x));
                assert(lex_lt(t[k], t[t.len() - 1]));
                lex_lt_irreflexive(x);
                assert(s.to_set().contains(x));
                let l = choose|l: int| 0 <= l < s.len() && s[l] == x;
                assert(s1[l] == x);
            }
        }
        assert(s1.to_set() =~= t1.to_set());
        increasing_lists_agree(s1, t1);
        assert(s =~= s1.push(a));
        assert(t =~= t1.push(b));
    }
}

impl<V> OrderedMap<V> {
    /// The keys, in increasing order.
    pub fn keys(&self) -> (r: Vec<String>)
        ensures
            texts(r@) == sorted_keys(self@.dom()),
            lists_keys(texts(r@), self@.dom()),
    {
        proof {
            use_type_invariant(self);
        }
        let mut out: Vec<String> = Vec::new();
        let mut i: usize = 0;
        while i < self.entries.len()
            invariant
                i <= self.entries@.len(),
                out@.len() == i,
                forall|j: int| 0 <= j < i ==> #[trigger] out@[j]@ == self.entries@[j].0@,
            decreases self.entries@.len() - i,
        {
            out.push(self.entries[i].0.clone());
            i = i + 1;
        }
        proof {
            let s = texts(out@);
            let id = |v: V| v;
            assert forall|x: Seq<char>| s.to_set().contains(x) == self@.dom().contains(x) by {
                entry_map_domain(self.entries@, id, x);
                if s.to_set().contains(x) {
                    let k = choose|k: int| 0 <= k < s.len() && s[k] == x;
                    assert(out@[k]@ == self.entries@[k].0@);
                }
                if has_key(self.entries@, x) {
                    let k = choose|k: int|
                        0 <= k < self.entries@.len() && #[trigger] self.entries@[k].0@ == x;
                    assert(out@[k]@ == x);
                    assert(s[k] == x);
                }
            }
            assert(s.to_set() =~= self@.dom());
            assert forall|i: int, j: int| 0 <= i < j < s.len() implies lex_lt(
                #[trigger] s[i],
                #[trigger] s[j],
            ) by {
                assert(out@[i]@ == self.entries@[i].0@);
                assert(out@[j]@ == self.entries@[j].0@);
            }
            sorted_keys_unique(s, self@.dom());
        }
        out
    }
}

} // verus!
