//! Where the logs of old are moved to.

use crate::config::DEBUG_LOGS;
use crate::memory_store::{is_path, JoinedPath};
use crate::text::{concat, decimal, decimal_text, digit_char, flat, part_texts, str_eq, texts};
use vstd::prelude::*;

verus! {

/// A directory that the logs were in of old.
pub const LEGACY_LOG: &'static str = "log";

/// Another directory that the logs were in of old.
pub const LEGACY_LOGS: &'static str = "logs";

/// What is in the one directory is moved to the other.
#[derive(Debug, PartialEq, Eq)]
pub struct LogMove {
    pub source: JoinedPath,
    pub target: JoinedPath,
}

/// What is in this directory of old is moved to where the logs are.
pub open spec fn moves(m: LogMove, code_home: Seq<char>, legacy: Seq<char>) -> bool {
    is_path(m.source, code_home, seq![legacy]) && is_path(m.target, code_home, seq![DEBUG_LOGS@])
}

fn log_move(code_home: &str, legacy: &'static str) -> (r: LogMove)
    ensures
        moves(r, code_home@, legacy@),
{
    let source = JoinedPath { base: code_home.to_string(), parts: vec![legacy] };
    let target = JoinedPath { base: code_home.to_string(), parts: vec![DEBUG_LOGS] };
    assert(source.parts@.map_values(|s: &'static str| s@) =~= seq![legacy@]);
    assert(target.parts@.map_values(|s: &'static str| s@) =~= seq![DEBUG_LOGS@]);
    LogMove { source, target }
}

/// The moves that bring the logs of old to where they are now, in this order.
pub fn migrate_legacy_log_dirs(code_home: &str) -> (r: Vec<LogMove>)
    ensures
        r@.len() == 2,
        moves(r@[0], code_home@, LEGACY_LOG@),
        moves(r@[1], code_home@, LEGACY_LOGS@),
{
    vec![log_move(code_home, LEGACY_LOG), log_move(code_home, LEGACY_LOGS)]
}

/// The name that a file gets where its own is taken.
pub open spec fn legacy_name(name: Seq<char>, k: nat) -> Seq<char> {
    name + ".legacy."@ + decimal(k)
}

/// The name under which a file is moved: its own, unless that is taken; then the
/// first of those that it may get instead that is not.
pub open spec fn is_free_name(
    name: Seq<char>,
    taken: Seq<Seq<char>>,
    r: Seq<char>,
) -> bool {
    if taken.contains(name) {
        exists|k: nat| #[trigger] is_first_free(name, taken, k) && r == legacy_name(name, k)
    } else {
        r == name
    }
}

/// This is the first of the names that is not taken.
pub open spec fn is_first_free(name: Seq<char>, taken: Seq<Seq<char>>, k: nat) -> bool {
    &&& 1 <= k
    &&& !taken.contains(legacy_name(name, k))
    &&& forall|j: nat| 1 <= j < k ==> #[trigger] taken.contains(legacy_name(name, j))
}

/// A number is written in one way only.
pub proof fn decimal_is_injective(a: nat, b: nat)
    ensures
        decimal(a) == decimal(b) ==> a == b,
    decreases a,
{
    if decimal(a) == decimal(b) {
        assert(decimal(a).last() == decimal(b).last());
        assert(digit_char(a % 10) == digit_char(b % 10));
        if a >= 10 && b >= 10 {
            assert(decimal(a).drop_last() =~= decimal(a / 10));
            assert(decimal(b).drop_last() =~= decimal(b / 10));
            decimal_is_injective(a / 10, b / 10);
        } else if a >= 10 {
            decimal_is_longer(a / 10);
        } else if b >= 10 {
            decimal_is_longer(b / 10);
        }
    }
}

proof fn decimal_is_longer(n: nat)
    ensures
        decimal(n).len() >= 1,
{
}

proof fn names_differ(name: Seq<char>, a: nat, b: nat)
    requires
        legacy_name(name, a) == legacy_name(name, b),
    ensures
        a == b,
{
    let n = (name + ".legacy."@).len() as int;
    assert(legacy_name(name, a).skip(n) =~= decimal(a));
    assert(legacy_name(name, b).skip(n) =~= decimal(b));
    decimal_is_injective(a, b);
}

/// No more names are taken than there are.
proof fn some_name_is_free(name: Seq<char>, taken: Seq<Seq<char>>, n: nat)
    requires
        forall|j: nat| 1 <= j <= n ==> #[trigger] taken.contains(legacy_name(name, j)),
    ensures
        n <= taken.len(),
    decreases n,
{
    if n > 0 {
        assert(taken.contains(legacy_name(name, n)));
        let i = choose|i: int| 0 <= i < taken.len() && taken[i] == legacy_name(name, n);
        let rest = taken.remove(i);
        assert forall|j: nat| 1 <= j <= n - 1 implies #[trigger] rest.contains(
            legacy_name(name, j),
        ) by {
            assert(taken.contains(legacy_name(name, j)));
            let at = choose|at: int| 0 <= at < taken.len() && taken[at] == legacy_name(name, j);
            if at == i {
                names_differ(name, j, n);
            }
            if at < i {
                assert(rest[at] == legacy_name(name, j));
            } else {
                assert(rest[at - 1] == legacy_name(name, j));
            }
        }
        some_name_is_free(name, rest, (n - 1) as nat);
    }
}

fn is_taken(taken: &Vec<String>, name: &str) -> (r: bool)
    ensures
        r == texts(taken@).contains(name@),
{
    let ghost all = texts(taken@);
    let mut i: usize = 0;
    while i < taken.len()
        invariant
            i <= taken.len(),
            all == texts(taken@),
            forall|j: int| 0 <= j < i ==> #[trigger] all[j] != name@,
        decreases taken.len() - i,
    {
        if str_eq(taken[i].as_str(), name) {
            assert(all[i as int] == name@);
            return true;
        }
        i = i + 1;
    }
    false
}

/// The name under which a file is moved to a directory in which these names are
/// taken; none, if the file has none.
pub fn migrate_entry(file_name: Option<&str>, taken: &Vec<String>) -> (r: Option<String>)
    requires
        taken@.len() < u32::MAX,
    ensures
        r is Some <==> file_name is Some,
        r is Some ==> is_free_name(file_name->0@, texts(taken@), r->0@),
{
    let name: &str = match file_name {
        Some(name) => name,
        None => {
            return None;
        },
    };
    if !is_taken(taken, name) {
        return Some(name.to_string());
    }
    let ghost all = texts(taken@);
    let mut k: u32 = 1;
    loop
        invariant
            all == texts(taken@),
            all.len() == taken@.len(),
            taken@.len() < u32::MAX,
            all.contains(name@),
            1 <= k <= taken@.len() + 1,
            file_name == Some(name),
            forall|j: nat| 1 <= j < k ==> #[trigger] all.contains(legacy_name(name@, j)),
        decreases taken@.len() + 1 - k,
    {
        let number: String = decimal_text(k as u64);
        let parts: [&str; 3] = [name, ".legacy.", number.as_str()];
        proof {
            assert(part_texts(parts@) =~= seq![name@, ".legacy."@, decimal(k as nat)]);
            reveal_with_fuel(flat, 4);
            assert(flat(part_texts(parts@)) =~= legacy_name(name@, k as nat));
        }
        let candidate: String = concat(&parts);
        if !is_taken(taken, candidate.as_str()) {
            assert(is_first_free(name@, all, k as nat));
            return Some(candidate);
        }
        proof {
            assert forall|j: nat| 1 <= j <= k implies #[trigger] all.contains(
                legacy_name(name@, j),
            ) by {
                if j == k as nat {
                    assert(all.contains(legacy_name(name@, k as nat)));
                }
            }
            some_name_is_free(name@, all, k as nat);
        }
        k = k + 1;
    }
}

/// The name under which a file is moved is never taken.
pub proof fn free_name_is_free(name: Seq<char>, taken: Seq<Seq<char>>, r: Seq<char>)
    requires
        is_free_name(name, taken, r),
    ensures
        !taken.contains(r),
{
}

} // verus!
