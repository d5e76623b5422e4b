//! Lists in order.

use vstd::prelude::*;

verus! {

broadcast use vstd::seq_lib::group_seq_properties;

/// The list with one more element in its place: behind every element that does
/// not come after it.
pub open spec fn placed<T>(s: Seq<T>, e: T, lt: spec_fn(T, T) -> bool) -> Seq<T>
    decreases s.len(),
{
    if s.len() == 0 || !lt(e, s.last()) {
        s.push(e)
    } else {
        placed(s.drop_last(), e, lt).push(s.last())
    }
}

/// The list in order; of elements neither of which comes first, the one that
/// stood first stays first.
pub open spec fn ordered<T>(s: Seq<T>, lt: spec_fn(T, T) -> bool) -> Seq<T>
    decreases s.len(),
{
    if s.len() == 0 {
        s
    } else {
        placed(ordered(s.drop_last(), lt), s.last(), lt)
    }
}

/// No element comes before an earlier one.
pub open spec fn in_order<T>(s: Seq<T>, lt: spec_fn(T, T) -> bool) -> bool {
    forall|i: int, j: int| 0 <= i < j < s.len() ==> !lt(#[trigger] s[j], #[trigger] s[i])
}

/// The relation ranks the elements: of two at most one comes first, and of three
/// the middle one does not fall outside the others.
pub open spec fn ranks<T>(lt: spec_fn(T, T) -> bool) -> bool {
    &&& forall|a: T, b: T| #[trigger] lt(a, b) ==> !lt(b, a)
    &&& forall|a: T, b: T, c: T| #[trigger] lt(a, c) ==> #[trigger] lt(a, b) || lt(b, c)
}

/// Placing an element keeps all others, and keeps a list in order.
pub proof fn placed_keeps<T>(s: Seq<T>, e: T, lt: spec_fn(T, T) -> bool)
    requires
        ranks(lt),
    ensures
        placed(s, e, lt).to_multiset() == s.to_multiset().insert(e),
        in_order(s, lt) ==> in_order(placed(s, e, lt), lt),
    decreases s.len(),
{
    broadcast use vstd::seq_lib::group_to_multiset_ensures;

    if s.len() == 0 || !lt(e, s.last()) {
        if in_order(s, lt) {
            let t = s.push(e);
            assert forall|i: int, j: int| 0 <= i < j < t.len() implies !lt(
                #[trigger] t[j],
                #[trigger] t[i],
            ) by {
                if j == s.len() {
                    let l = s[s.len() - 1];
                    if i < s.len() - 1 {
                        assert(!lt(l, s[i]));
                        assert(lt(e, s[i]) ==> lt(e, l) || lt(l, s[i]));
                    }
                }
            }
        }
    } else {
        let f = s.drop_last();
        let l = s.last();
        placed_keeps(f, e, lt);
        let t = placed(f, e, lt);
        assert(s =~= f.push(l));
        assert(placed(s, e, lt).to_multiset() =~= s.to_multiset().insert(e));
        if in_order(s, lt) {
            assert(in_order(f, lt));
            let u = t.push(l);
            assert forall|i: int, j: int| 0 <= i < j < u.len() implies !lt(
                #[trigger] u[j],
                #[trigger] u[i],
            ) by {
                if j == t.len() {
                    assert(t.to_multiset().count(t[i]) > 0);
                    if t[i] != e {
                        assert(f.to_multiset().count(t[i]) > 0);
                        let k = choose|k: int| 0 <= k < f.len() && f[k] == t[i];
                        assert(s[k] == t[i]);
                        assert(!lt(s[s.len() - 1], s[k]));
                    }
                }
            }
        }
    }
}

/// Ordering a list keeps every element and puts the list in order.
pub proof fn ordered_keeps<T>(s: Seq<T>, lt: spec_fn(T, T) -> bool)
    requires
        ranks(lt),
    ensures
        ordered(s, lt).to_multiset() == s.to_multiset(),
        ordered(s, lt).len() == s.len(),
        in_order(ordered(s, lt), lt),
    decreases s.len(),
{
    broadcast use vstd::seq_lib::group_to_multiset_ensures;

    if s.len() > 0 {
        ordered_keeps(s.drop_last(), lt);
        placed_keeps(ordered(s.drop_last(), lt), s.last(), lt);
        assert(s =~= s.drop_last().push(s.last()));
        placed_length(ordered(s.drop_last(), lt), s.last(), lt);
    }
}

/// Placing an element makes a list longer by one.
pub proof fn placed_length<T>(s: Seq<T>, e: T, lt: spec_fn(T, T) -> bool)
    ensures
        placed(s, e, lt).len() == s.len() + 1,
    decreases s.len(),
{
    if s.len() > 0 && lt(e, s.last()) {
        placed_length(s.drop_last(), e, lt);
    }
}

/// Lists of the same elements hold the same elements.
pub proof fn same_elements<T>(s: Seq<T>, t: Seq<T>, x: T)
    requires
        s.to_multiset() == t.to_multiset(),
    ensures
        s.contains(x) == t.contains(x),
{
    broadcast use vstd::seq_lib::group_to_multiset_ensures;

    assert(s.contains(x) <==> s.to_multiset().count(x) > 0);
    assert(t.contains(x) <==> t.to_multiset().count(x) > 0);
}

/// The place of an element, counted down from the end of the list.
pub proof fn placed_at<T>(s: Seq<T>, e: T, lt: spec_fn(T, T) -> bool, p: int)
    requires
        0 <= p <= s.len(),
        forall|i: int| p <= i < s.len() ==> lt(e, #[trigger] s[i]),
        p > 0 ==> !lt(e, s[p - 1]),
    ensures
        placed(s, e, lt) == s.insert(p, e),
    decreases s.len(),
{
    if p == s.len() {
        assert(s.insert(p, e) =~= s.push(e));
    } else {
        let f = s.drop_last();
        assert(lt(e, s[s.len() - 1]));
        assert forall|i: int| p <= i < f.len() implies lt(e, #[trigger] f[i]) by {
            assert(f[i] == s[i]);
        }
        placed_at(f, e, lt, p);
        assert(s.insert(p, e) =~= f.insert(p, e).push(s.last()));
    }
}

/// What is kept of the start of a list is the start of what is kept of the list.
pub proof fn filter_of_prefix<T>(s: Seq<T>, f: spec_fn(T) -> bool, n: int)
    requires
        0 <= n <= s.len(),
    ensures
        s.take(n).filter(f).len() <= s.filter(f).len(),
        s.take(n).filter(f) == s.filter(f).take(s.take(n).filter(f).len() as int),
        n == s.len() ==> s.take(n).filter(f) == s.filter(f),
    decreases s.len() - n,
{
    reveal(Seq::filter);
    if n == s.len() {
        assert(s.take(n) =~= s);
        assert(s.filter(f).take(s.filter(f).len() as int) =~= s.filter(f));
    } else {
        filter_of_prefix(s, f, n + 1);
        assert(s.take(n + 1).drop_last() =~= s.take(n));
        let a = s.take(n).filter(f);
        let b = s.take(n + 1).filter(f);
        assert(b == if f(s[n]) { a.push(s[n]) } else { a });
        assert(a =~= b.take(a.len() as int));
        assert(a =~= s.filter(f).take(a.len() as int));
    }
}

/// The elements that a filter lets through stand in the order in which they stood: the
/// places that they had, from the first to the last.
pub proof fn filter_places<T>(s: Seq<T>, f: spec_fn(T) -> bool) -> (places: Seq<int>)
    ensures
        places.len() == s.filter(f).len(),
        forall|k: int|
            0 <= k < places.len() ==> 0 <= #[trigger] places[k] < s.len() && s[places[k]]
                == s.filter(f)[k] && f(s[places[k]]),
        forall|k: int, l: int|
            0 <= k < l < places.len() ==> #[trigger] places[k] < #[trigger] places[l],
        forall|i: int|
            0 <= i < s.len() && f(#[trigger] s[i]) ==> exists|k: int|
                0 <= k < places.len() && #[trigger] places[k] == i,
    decreases s.len(),
{
    reveal(Seq::filter);
    if s.len() == 0 {
        Seq::empty()
    } else {
        let t = s.drop_last();
        let before = filter_places(t, f);
        if f(s.last()) {
            let places = before.push(s.len() - 1);
            assert forall|i: int| 0 <= i < s.len() && f(#[trigger] s[i]) implies exists|k: int|
                0 <= k < places.len() && #[trigger] places[k] == i by {
                if i < t.len() {
                    assert(f(t[i]));
                    let k = choose|k: int| 0 <= k < before.len() && #[trigger] before[k] == i;
                    assert(places[k] == i);
                } else {
                    assert(places[before.len() as int] == i);
                }
            }
            assert forall|k: int| 0 <= k < places.len() implies 0 <= #[trigger] places[k] < s.len()
                && s[places[k]] == s.filter(f)[k] && f(s[places[k]]) by {
                if k < before.len() {
                    assert(places[k] == before[k]);
                    assert(t[before[k]] == s[before[k]]);
                }
            }
            places
        } else {
            assert forall|i: int| 0 <= i < s.len() && f(#[trigger] s[i]) implies exists|k: int|
                0 <= k < before.len() && #[trigger] before[k] == i by {
                assert(f(t[i]));
            }
            assert forall|k: int| 0 <= k < before.len() implies 0 <= #[trigger] before[k] < s.len()
                && s[before[k]] == s.filter(f)[k] && f(s[before[k]]) by {
                assert(t[before[k]] == s[before[k]]);
            }
            before
        }
    }
}

} // verus!
