//! Table-level laws: consequences of the table contracts that callers (and
//! the evaluator built on top of this registry) rely on, stated and proved
//! once here.

use vstd::prelude::*;

use crate::system::is_system_macro_seq;
use crate::table::Macro;
use crate::table::MacroTable;
use crate::table::FIRST_USER_MACRO_ID;
use crate::table::NUM_SYSTEM_MACROS;

verus! {

/// Address stability: appending `m1` and then `m2` to a table assigns them
/// strictly increasing addresses, and no append moves a macro that already
/// has an address — the entries below the old length are untouched, so an
/// address, once assigned, refers to the same macro forever.
pub proof fn lemma_address_stability(
    t0: MacroTable,
    t1: MacroTable,
    t2: MacroTable,
    m1: Macro,
    m2: Macro,
    a1: usize,
    a2: usize,
)
    requires
        t1.spec_macros() == t0.spec_macros().push(m1),
        a1 == t0.spec_macros().len(),
        t2.spec_macros() == t1.spec_macros().push(m2),
        a2 == t1.spec_macros().len(),
    ensures
        a1 < a2,
        t1.spec_macros()[a1 as int] == m1,
        t2.spec_macros()[a1 as int] == m1,
        t2.spec_macros()[a2 as int] == m2,
        forall|a: int|
            0 <= a < t0.spec_macros().len() ==> #[trigger] t1.spec_macros()[a]
                == t0.spec_macros()[a] && t2.spec_macros()[a] == t0.spec_macros()[a],
{
}

/// Name/address equivalence: in a well-formed table, a name bound by the
/// name index is bound to an in-range address, and the macro standing at
/// that address carries exactly that name — so resolving by the name and
/// resolving by the address reach the same macro.
pub proof fn lemma_name_address_equivalence(t: MacroTable, n: Seq<char>)
    requires
        t.well_formed(),
        t.spec_names().contains_key(n),
    ensures
        t.spec_names()[n] < t.spec_macros().len(),
        t.spec_macros()[t.spec_names()[n] as int].name matches Some(nm) && nm@ == n,
{
}

/// System partition: a freshly bootstrapped table holds exactly
/// `NUM_SYSTEM_MACROS` macros, at addresses `0..NUM_SYSTEM_MACROS`, and the
/// first macro appended to it receives `FIRST_USER_MACRO_ID`.
pub proof fn lemma_system_partition(t: MacroTable, t2: MacroTable, m: Macro, a: usize)
    requires
        is_system_macro_seq(t.spec_macros()),
        t2.spec_macros() == t.spec_macros().push(m),
        a == t.spec_macros().len(),
    ensures
        t.spec_macros().len() == NUM_SYSTEM_MACROS,
        a == FIRST_USER_MACRO_ID,
        t2.spec_macros()[FIRST_USER_MACRO_ID as int] == m,
{
}

/// Round trip via merge: when the names of `a` and `b` are disjoint and a
/// completed import of `b` into `a` produced `c`, then `c` holds
/// `len(a) + len(b)` macros, and every macro of `b` is resolvable in `c`
/// under its original name, at its old address shifted past `a`'s length —
/// in particular at an address at least `len(a)`.
pub proof fn lemma_merge_round_trip(a: MacroTable, b: MacroTable, c: MacroTable, n: Seq<char>)
    requires
        a.well_formed(),
        b.well_formed(),
        c.well_formed(),
        crate::table::merge_completed(a, b, c),
        b.spec_names().contains_key(n),
    ensures
        c.spec_macros().len() == a.spec_macros().len() + b.spec_macros().len(),
        c.spec_names().contains_key(n),
        c.spec_names()[n] == a.spec_macros().len() + b.spec_names()[n],
        c.spec_names()[n] >= a.spec_macros().len(),
        c.spec_macros()[c.spec_names()[n] as int] == b.spec_macros()[b.spec_names()[n] as int],
{
    let i = b.spec_names()[n];
    assert(b.spec_macros()[i as int].name matches Some(nm) && nm@ == n);
    assert(c.spec_names().contains_key(n) && c.spec_names()[n] == a.spec_macros().len() + i);
    assert(c.spec_macros()[a.spec_macros().len() + i] == b.spec_macros()[i as int]);
}

} // verus!
