//! What holds of texts.

use crate::order::{ordered, placed};
use crate::text::{
    ascii_lower, ascii_lower_text, contains_text, decimal, digit_char, first_chars, flat, is_space,
    joined, lex_lt, replaced, starts, strip_end, strip_start, texts, trim_end_text, trim_start_text,
    trim_text,
};
use vstd::prelude::*;

verus! {

broadcast use vstd::seq_lib::group_seq_properties;

/// Letters of ASCII in upper case become those in lower case; every other sign stays.
pub proof fn letters_are_put_in_lower_case(s: Seq<char>, i: int)
    requires
        0 <= i < s.len(),
    ensures
        ascii_lower_text(s).len() == s.len(),
        'A' <= s[i] <= 'Z' ==> ascii_lower_text(s)[i] as u32 == s[i] as u32 + 32,
        !('A' <= s[i] <= 'Z') ==> ascii_lower_text(s)[i] == s[i],
        ascii_lower_text(ascii_lower_text(s)) == ascii_lower_text(s),
{
    assert(ascii_lower_text(s)[i] == ascii_lower(s[i]));
    assert(ascii_lower_text(ascii_lower_text(s)) =~= ascii_lower_text(s));
}

/// Blanks, tabs and ends of lines are white space; signs that can be seen are not.
pub proof fn white_space_cannot_be_seen(c: char)
    ensures
        c == ' ' || c == '\t' || c == '\n' || c == '\r' ==> is_space(c),
        '!' <= c <= '~' ==> !is_space(c),
{
}

/// White space is what Unicode says it is.
pub proof fn white_space_is_that_of_unicode(c: char)
    ensures
        is_space(c) <==> {
            let n = c as u32;
            ||| n == 0x09 || n == 0x0a || n == 0x0b || n == 0x0c || n == 0x0d || n == 0x20
            ||| n == 0x85 || n == 0xa0 || n == 0x1680
            ||| n == 0x2000 || n == 0x2001 || n == 0x2002 || n == 0x2003 || n == 0x2004
            ||| n == 0x2005 || n == 0x2006 || n == 0x2007 || n == 0x2008 || n == 0x2009
            ||| n == 0x200a || n == 0x2028 || n == 0x2029 || n == 0x202f || n == 0x205f
            ||| n == 0x3000
        },
{
}

proof fn trim_start_part(s: Seq<char>) -> (lo: int)
    ensures
        0 <= lo <= s.len(),
        trim_start_text(s) == s.skip(lo),
        forall|i: int| 0 <= i < lo ==> is_space(#[trigger] s[i]),
        lo < s.len() ==> !is_space(s[lo]),
    decreases s.len(),
{
    if s.len() > 0 && is_space(s[0]) {
        let t = s.drop_first();
        let l = trim_start_part(t);
        assert(s.skip(l + 1) =~= t.skip(l));
        assert forall|i: int| 0 <= i < l + 1 implies is_space(#[trigger] s[i]) by {
            if i > 0 {
                assert(s[i] == t[i - 1]);
            }
        }
        l + 1
    } else {
        assert(s.skip(0) =~= s);
        0
    }
}

proof fn trim_end_part(s: Seq<char>) -> (hi: int)
    ensures
        0 <= hi <= s.len(),
        trim_end_text(s) == s.take(hi),
        forall|i: int| hi <= i < s.len() ==> is_space(#[trigger] s[i]),
        hi > 0 ==> !is_space(s[hi - 1]),
    decreases s.len(),
{
    if s.len() > 0 && is_space(s.last()) {
        let t = s.drop_last();
        let h = trim_end_part(t);
        assert(s.take(h) =~= t.take(h));
        assert forall|i: int| h <= i < s.len() implies is_space(#[trigger] s[i]) by {
            if i < t.len() {
                assert(s[i] == t[i]);
            }
        }
        h
    } else {
        assert(s.take(s.len() as int) =~= s);
        s.len() as int
    }
}

/// Trimming leaves the middle of a text: white space alone stands before it and behind
/// it, and none at its edges.
pub proof fn trimming_leaves_the_middle(s: Seq<char>) -> (part: (int, int))
    ensures
        0 <= part.0 <= part.1 <= s.len(),
        trim_text(s) == s.subrange(part.0, part.1),
        forall|i: int| 0 <= i < part.0 ==> is_space(#[trigger] s[i]),
        forall|i: int| part.1 <= i < s.len() ==> is_space(#[trigger] s[i]),
        part.0 < part.1 ==> !is_space(s[part.0]) && !is_space(s[part.1 - 1]),
{
    let lo = trim_start_part(s);
    let t = s.skip(lo);
    let h = trim_end_part(t);
    assert(t.take(h) =~= s.subrange(lo, lo + h));
    assert forall|i: int| lo + h <= i < s.len() implies is_space(#[trigger] s[i]) by {
        assert(s[i] == t[i - lo]);
    }
    (lo, lo + h)
}

/// A text is blank where it is made of white space alone.
pub proof fn blank_texts_hold_white_space(s: Seq<char>)
    ensures
        trim_text(s).len() == 0 <==> (forall|i: int| 0 <= i < s.len() ==> is_space(#[trigger] s[i])),
{
    let (lo, hi) = trimming_leaves_the_middle(s);
    if trim_text(s).len() == 0 {
        assert forall|i: int| 0 <= i < s.len() implies is_space(#[trigger] s[i]) by {
            if i < lo {
            } else {
                assert(hi <= i);
            }
        }
    }
}

/// Texts are joined with the separator between them, and nowhere else.
pub proof fn texts_are_joined_in_order(parts: Seq<Seq<char>>, part: Seq<char>, sep: Seq<char>)
    ensures
        joined(Seq::empty(), sep).len() == 0,
        joined(seq![part], sep) == part,
        parts.len() > 0 ==> joined(parts.push(part), sep) == joined(parts, sep) + sep + part,
{
    assert(parts.push(part).drop_last() =~= parts);
}

/// Parts are strung together in order.
pub proof fn parts_are_strung_together(parts: Seq<Seq<char>>, part: Seq<char>)
    ensures
        flat(Seq::empty()).len() == 0,
        flat(parts.push(part)) == flat(parts) + part,
{
    assert(parts.push(part).drop_last() =~= parts);
}

/// A number is written digit by digit, from the greatest to the least, without zeros in
/// front.
pub proof fn numbers_are_written_digit_by_digit(n: nat, d: nat)
    requires
        d < 10,
    ensures
        decimal(d) == seq![digit_char(d)],
        n > 0 ==> decimal(10 * n + d) == decimal(n).push(digit_char(d)),
        digit_char(d) as u32 == 48 + d,
        digit_char(0) == '0',
{
    assert((10 * n + d) / 10 == n && (10 * n + d) % 10 == d);
}

/// Of two texts the one that is smaller at the first place where they differ comes first,
/// and one that the other begins with comes before it.
pub proof fn texts_are_ordered_by_their_first_difference(a: Seq<char>, b: Seq<char>, i: int)
    requires
        0 <= i <= a.len(),
        i <= b.len(),
        forall|j: int| 0 <= j < i ==> #[trigger] a[j] == b[j],
    ensures
        i < a.len() && i < b.len() && (a[i] as int) < (b[i] as int) ==> lex_lt(a, b) && !lex_lt(
            b,
            a,
        ),
        i == a.len() && i < b.len() ==> lex_lt(a, b) && !lex_lt(b, a),
    decreases i,
{
    if i > 0 {
        let x = a.drop_first();
        let y = b.drop_first();
        assert(a[0] == b[0]);
        assert forall|j: int| 0 <= j < i - 1 implies #[trigger] x[j] == y[j] by {
            assert(a[j + 1] == b[j + 1]);
        }
        texts_are_ordered_by_their_first_difference(x, y, i - 1);
        if i < a.len() && i < b.len() {
            assert(x[i - 1] == a[i] && y[i - 1] == b[i]);
        }
    }
}

/// A text begins with another where their first signs are the same, and holds it where
/// they are the same from some place on.
pub proof fn beginnings_and_parts(s: Seq<char>, p: Seq<char>, rest: Seq<char>)
    ensures
        starts(p + rest, p),
        contains_text(rest + p + s, p),
        starts(s, p) ==> p.len() <= s.len() && s == p + s.skip(p.len() as int),
        contains_text(s, p) ==> exists|i: int|
            0 <= i <= s.len() - p.len() && #[trigger] s.subrange(i, i + p.len()) == p,
{
    assert((p + rest).subrange(0, p.len() as int) =~= p);
    let whole = rest + p + s;
    assert(whole.subrange(rest.len() as int, (rest.len() + p.len()) as int) =~= p);
    assert(crate::text::matches_at(whole, rest.len() as int, p));
    if starts(s, p) {
        assert(s =~= s.subrange(0, p.len() as int) + s.skip(p.len() as int));
    }
    if contains_text(s, p) {
        let i = choose|i: int| #[trigger] crate::text::matches_at(s, i, p);
        assert(s.subrange(i, i + p.len()) == p);
    }
}

/// Signs in front of a text, or behind it, are left out, all of them, and no others.
pub proof fn signs_at_an_end_are_left_out(s: Seq<char>, c: char)
    ensures
        strip_end(s.push(c), c) == strip_end(s, c),
        strip_start(seq![c] + s, c) == strip_start(s, c),
        s.len() == 0 || s.last() != c ==> strip_end(s, c) == s,
        s.len() == 0 || s[0] != c ==> strip_start(s, c) == s,
{
    assert(s.push(c).drop_last() =~= s);
    assert((seq![c] + s).drop_first() =~= s);
}

/// A mark at the beginning of a text is replaced, and then those behind it; a sign that
/// begins no mark stays.
pub proof fn marks_are_replaced_from_the_left(s: Seq<char>, from: Seq<char>, to: Seq<char>)
    requires
        from.len() > 0,
    ensures
        replaced(from + s, from, to) == to + replaced(s, from, to),
        s.len() > 0 && !starts(s, from) ==> replaced(s, from, to) == seq![s[0]] + replaced(
            s.skip(1),
            from,
            to,
        ),
        !contains_text(s, from) ==> replaced(s, from, to) == s,
    decreases s.len(),
{
    assert((from + s).subrange(0, from.len() as int) =~= from);
    assert((from + s).skip(from.len() as int) =~= s);
    if s.len() > 0 {
        let t = s.skip(1);
        marks_are_replaced_from_the_left(t, from, to);
        if s.len() < from.len() {
            assert(s =~= seq![s[0]] + t);
        }
        if !contains_text(s, from) {
            if contains_text(t, from) {
                let i = choose|i: int| #[trigger] crate::text::matches_at(t, i, from);
                assert(s.subrange(i + 1, i + 1 + from.len()) =~= t.subrange(i, i + from.len()));
                assert(crate::text::matches_at(s, i + 1, from));
            }
            if starts(s, from) {
                assert(crate::text::matches_at(s, 0, from));
            }
            assert(seq![s[0]] + t =~= s);
        }
    }
}

/// The first signs of a text are those that it begins with.
pub proof fn first_signs_are_the_beginning(s: Seq<char>, n: int, i: int)
    requires
        0 <= n,
    ensures
        first_chars(s, n).len() == if s.len() <= n {
            s.len() as int
        } else {
            n
        },
        0 <= i < first_chars(s, n).len() ==> first_chars(s, n)[i] == s[i],
{
}

/// Each text of a list stands for itself, in its place.
pub proof fn lists_of_texts_keep_their_places(v: Seq<String>, i: int)
    ensures
        texts(v).len() == v.len(),
        0 <= i < v.len() ==> texts(v)[i] == v[i]@,
{
}

// ---------------------------------------------------------------------------
// Lists in order

/// Neither of the two comes first.
pub open spec fn level<T>(lt: spec_fn(T, T) -> bool, a: T) -> spec_fn(T) -> bool {
    |b: T| !lt(a, b) && !lt(b, a)
}

proof fn placed_is_stable<T>(s: Seq<T>, e: T, lt: spec_fn(T, T) -> bool, a: T)
    requires
        crate::order::ranks(lt),
    ensures
        level(lt, a)(e) ==> placed(s, e, lt).filter(level(lt, a)) == s.filter(level(lt, a)).push(e),
        !level(lt, a)(e) ==> placed(s, e, lt).filter(level(lt, a)) == s.filter(level(lt, a)),
    decreases s.len(),
{
    reveal(Seq::filter);
    let f = level(lt, a);
    if s.len() == 0 || !lt(e, s.last()) {
        assert(s.push(e).drop_last() =~= s);
    } else {
        let t = s.drop_last();
        placed_is_stable(t, e, lt, a);
        let p = placed(t, e, lt);
        assert(p.push(s.last()).drop_last() =~= p);
        assert(s =~= t.push(s.last()));
        if f(e) {
            assert(lt(e, s.last()));
            assert(lt(e, a) || lt(a, s.last()));
            assert(!f(s.last()));
        }
    }
}

/// Of elements neither of which comes first, those that stood first stay first.
pub proof fn ordering_keeps_the_order_of_equals<T>(s: Seq<T>, lt: spec_fn(T, T) -> bool, a: T)
    requires
        crate::order::ranks(lt),
    ensures
        ordered(s, lt).filter(level(lt, a)) == s.filter(level(lt, a)),
    decreases s.len(),
{
    reveal(Seq::filter);
    if s.len() > 0 {
        ordering_keeps_the_order_of_equals(s.drop_last(), lt, a);
        placed_is_stable(ordered(s.drop_last(), lt), s.last(), lt, a);
    }
}

} // verus!
