//! What holds of the offered tools.

use crate::omap::{lists_keys, sorted_keys_unique};
use crate::order::{in_order, ordered_keeps, ranks, same_elements};
use crate::protocol::{ApplyPatchToolType, AskForApproval, ModelFamily, PolicyView};
use crate::text::{lex_lt, lex_lt_irreflexive, lex_lt_total, lex_lt_transitive};
use crate::tool_list::{
    by_name, coalesced, dynamic_tool, group_place, group_place_is_first, is_group, name_before,
    patch_tool_for, tools_config_for, with_dynamic, DynamicToolView,
};
use crate::tools::ToolView;
use vstd::prelude::*;

verus! {

broadcast use vstd::seq_lib::group_seq_properties;

/// No two entries have the same name.
pub open spec fn distinct_names<T>(s: Seq<(Seq<char>, T)>) -> bool {
    forall|i: int, j: int| 0 <= i < j < s.len() ==> #[trigger] s[i].0 != #[trigger] s[j].0
}

proof fn names_rank<T>()
    ensures
        ranks(name_before::<T>()),
{
    let lt = name_before::<T>();
    assert forall|a: (Seq<char>, T), b: (Seq<char>, T)| #[trigger] lt(a, b) implies !lt(b, a) by {
        if lt(b, a) {
            lex_lt_transitive(a.0, b.0, a.0);
            lex_lt_irreflexive(a.0);
        }
    }
    assert forall|a: (Seq<char>, T), b: (Seq<char>, T), c: (Seq<char>, T)| #[trigger]
        lt(a, c) implies #[trigger] lt(a, b) || lt(b, c) by {
        lex_lt_total(a.0, b.0);
        if lex_lt(b.0, a.0) {
            lex_lt_transitive(b.0, a.0, c.0);
        }
    }
}

/// Ordering named tools by name keeps every one of them, and puts them in order.
pub proof fn by_name_orders<T>(s: Seq<(Seq<char>, T)>)
    ensures
        by_name(s).to_multiset() == s.to_multiset(),
        in_order(by_name(s), name_before()),
{
    names_rank::<T>();
    ordered_keeps(s, name_before());
}

/// Whatever the order in which named tools come, where their names differ they
/// are offered in one order.
pub proof fn by_name_ignores_order<T>(s: Seq<(Seq<char>, T)>, t: Seq<(Seq<char>, T)>)
    requires
        s.to_multiset() == t.to_multiset(),
        distinct_names(s),
    ensures
        by_name(s) == by_name(t),
{
    broadcast use vstd::seq_lib::group_to_multiset_ensures;

    assert forall|a: (Seq<char>, T), b: (Seq<char>, T)|
        s.contains(a) && s.contains(b) && a.0 == b.0 implies a == b by {
        let i = choose|i: int| 0 <= i < s.len() && s[i] == a;
        let j = choose|j: int| 0 <= j < s.len() && s[j] == b;
        assert(i != j ==> s[i].0 != s[j].0);
    }
    assert(s.no_duplicates()) by {
        assert forall|i: int, j: int| 0 <= i < s.len() && 0 <= j < s.len() && i != j implies s[i]
            != s[j] by {
            assert(s[i].0 != s[j].0);
        }
    }
    by_name_orders(s);
    by_name_orders(t);
    let a = by_name(s);
    let b = by_name(t);
    ordered_strictly(s, a);
    ordered_strictly(s, b);
    let an = a.map_values(|e: (Seq<char>, T)| e.0);
    let bn = b.map_values(|e: (Seq<char>, T)| e.0);
    assert forall|x: Seq<char>| an.to_set().contains(x) == bn.to_set().contains(x) by {
        if an.to_set().contains(x) {
            let i = choose|i: int| 0 <= i < an.len() && an[i] == x;
            same_elements(a, b, a[i]);
            assert(a.contains(a[i]));
            let j = choose|j: int| 0 <= j < b.len() && b[j] == a[i];
            assert(bn[j] == x);
        }
        if bn.to_set().contains(x) {
            let i = choose|i: int| 0 <= i < bn.len() && bn[i] == x;
            same_elements(a, b, b[i]);
            assert(b.contains(b[i]));
            let j = choose|j: int| 0 <= j < a.len() && a[j] == b[i];
            assert(an[j] == x);
        }
    }
    assert(an.to_set() =~= bn.to_set());
    let keys = an.to_set();
    assert(lists_keys(an, keys));
    assert(lists_keys(bn, keys));
    sorted_keys_unique(an, keys);
    sorted_keys_unique(bn, keys);
    assert(an == bn);
    assert(a.len() == an.len() && b.len() == bn.len());
    assert forall|i: int| 0 <= i < a.len() implies a[i] == b[i] by {
        assert(a[i].0 == an[i] && b[i].0 == bn[i]);
        assert(a.contains(a[i]) && b.contains(b[i]));
        same_elements(a, s, a[i]);
        same_elements(b, s, b[i]);
    }
    assert(a =~= b);
}

proof fn ordered_strictly<T>(s: Seq<(Seq<char>, T)>, a: Seq<(Seq<char>, T)>)
    requires
        a.to_multiset() == s.to_multiset(),
        s.no_duplicates(),
        in_order(a, name_before()),
        forall|x: (Seq<char>, T), y: (Seq<char>, T)|
            s.contains(x) && s.contains(y) && x.0 == y.0 ==> x == y,
    ensures
        forall|i: int, j: int| 0 <= i < j < a.len() ==> lex_lt(#[trigger] a[i].0, #[trigger] a[j].0),
{
    broadcast use vstd::seq_lib::group_to_multiset_ensures;

    s.lemma_multiset_has_no_duplicates();
    a.lemma_multiset_has_no_duplicates_conv();
    assert forall|i: int, j: int| 0 <= i < j < a.len() implies lex_lt(
        #[trigger] a[i].0,
        #[trigger] a[j].0,
    ) by {
        assert(a.contains(a[i]) && a.contains(a[j]));
        same_elements(a, s, a[i]);
        same_elements(a, s, a[j]);
        lex_lt_total(a[i].0, a[j].0);
        assert(!(name_before::<T>())(a[j], a[i]));
        assert(a[i] != a[j]);
    }
}

/// No two groups have the same name.
pub open spec fn unique_groups(s: Seq<ToolView>) -> bool {
    forall|i: int, j: int, name: Seq<char>|
        0 <= i < s.len() && 0 <= j < s.len() && is_group(s[i], name) && is_group(s[j], name) ==> i == j
}

/// Adding a tool never makes a second group of a name.
pub proof fn coalesced_keeps_groups_unique(s: Seq<ToolView>, t: ToolView)
    requires
        unique_groups(s),
    ensures
        unique_groups(coalesced(s, t)),
{
    let r = coalesced(s, t);
    if t is Namespace {
        let name = t->Namespace_name;
        group_place_is_first(s, name);
        let p = group_place(s, name);
        assert forall|i: int, j: int, n: Seq<char>|
            0 <= i < r.len() && 0 <= j < r.len() && is_group(r[i], n) && is_group(r[j], n) implies i
            == j by {
            if p < s.len() {
                assert(is_group(s[i], n) && is_group(s[j], n));
            } else {
                if i < s.len() && j < s.len() {
                    assert(is_group(s[i], n) && is_group(s[j], n));
                } else if i < s.len() {
                    assert(!is_group(s[i], name));
                } else if j < s.len() {
                    assert(!is_group(s[j], name));
                }
            }
        }
    } else {
        assert forall|i: int, j: int, n: Seq<char>|
            0 <= i < r.len() && 0 <= j < r.len() && is_group(r[i], n) && is_group(r[j], n) implies i
            == j by {
            assert(is_group(s[i], n) && is_group(s[j], n));
        }
    }
}

/// However many tools the session is given, each group of theirs is offered once.
pub proof fn given_groups_are_unique(s: Seq<ToolView>, given: Seq<DynamicToolView>)
    requires
        unique_groups(s),
    ensures
        unique_groups(with_dynamic(s, given)),
    decreases given.len(),
{
    if given.len() > 0 {
        given_groups_are_unique(s, given.drop_last());
        if let Some(t) = dynamic_tool(given.last()) {
            coalesced_keeps_groups_unique(with_dynamic(s, given.drop_last()), t);
        }
    }
}

/// Giving the session tools takes no tool away: what was offered keeps its place
/// and its kind.
pub proof fn given_tools_only_add(s: Seq<ToolView>, given: Seq<DynamicToolView>, i: int)
    requires
        0 <= i < s.len(),
    ensures
        with_dynamic(s, given).len() >= s.len(),
        !(s[i] is Namespace) ==> with_dynamic(s, given)[i] == s[i],
        forall|name: Seq<char>|
            is_group(s[i], name) ==> #[trigger] is_group(with_dynamic(s, given)[i], name),
    decreases given.len(),
{
    if given.len() > 0 {
        given_tools_only_add(s, given.drop_last(), i);
        if let Some(t) = dynamic_tool(given.last()) {
            let before = with_dynamic(s, given.drop_last());
            if t is Namespace {
                group_place_is_first(before, t->Namespace_name);
            }
            assert forall|name: Seq<char>| is_group(s[i], name) implies #[trigger] is_group(
                with_dynamic(s, given)[i],
                name,
            ) by {
                assert(is_group(before[i], name));
            }
        }
    }
}

/// The streamable shell is never chosen.
pub proof fn streamable_shell_is_never_chosen(
    family: ModelFamily,
    approval_policy: AskForApproval,
    policy: PolicyView,
    plan: bool,
    apply_patch: bool,
    web_search: bool,
    view_image: bool,
    is_windows: bool,
)
    ensures
        !(tools_config_for(
            family,
            approval_policy,
            policy,
            plan,
            apply_patch,
            web_search,
            view_image,
            is_windows,
        ).shell_type is StreamableShell),
{
}

/// On Windows the patch tool is never in free form.
pub proof fn windows_has_no_freeform_patch(of_family: Option<ApplyPatchToolType>, apply_patch: bool)
    ensures
        patch_tool_for(of_family, apply_patch, true) != Some(ApplyPatchToolType::Freeform),
{
}

} // verus!
