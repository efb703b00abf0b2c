//! The meaning of the recorded formula: satisfaction of clauses and xor
//! clauses under an assignment, the parity algebra behind the literal-level
//! xor sugar, and monotonicity of the growing clause database.

use crate::lit::Lit;
use vstd::prelude::*;

verus! {

/// Whether the assignment makes the literal true. An assignment gives each
/// variable id a truth value: variable `v` reads `a[v as int]`.
pub open spec fn lit_sat(a: Seq<bool>, l: Lit) -> bool {
    if l.spec_isneg() {
        !a[l.spec_var() as int]
    } else {
        a[l.spec_var() as int]
    }
}

/// A clause — a disjunction — is satisfied when at least one of its literals is.
pub open spec fn clause_sat(a: Seq<bool>, c: Seq<Lit>) -> bool {
    exists|i: int| 0 <= i < c.len() && lit_sat(a, #[trigger] c[i])
}

/// The variable ids named by a sequence of literals, in order.
pub open spec fn vars_of(lits: Seq<Lit>) -> Seq<u32> {
    lits.map_values(|l: Lit| l.spec_var())
}

/// The parity of the negated literals: true when an odd number are negated.
pub open spec fn neg_parity(lits: Seq<Lit>) -> bool
    decreases lits.len(),
{
    if lits.len() == 0 {
        false
    } else {
        neg_parity(lits.drop_last()) != lits.last().spec_isneg()
    }
}

/// The exclusive or of the named variables' values under the assignment.
pub open spec fn xor_vars(a: Seq<bool>, vars: Seq<u32>) -> bool
    decreases vars.len(),
{
    if vars.len() == 0 {
        false
    } else {
        xor_vars(a, vars.drop_last()) != a[vars.last() as int]
    }
}

/// The exclusive or of the literals' values under the assignment.
pub open spec fn xor_lits(a: Seq<bool>, lits: Seq<Lit>) -> bool
    decreases lits.len(),
{
    if lits.len() == 0 {
        false
    } else {
        xor_lits(a, lits.drop_last()) != lit_sat(a, lits.last())
    }
}

/// An xor clause over variable ids asserts that their exclusive or equals `rhs`.
pub open spec fn xor_clause_sat(a: Seq<bool>, vars: Seq<u32>, rhs: bool) -> bool {
    xor_vars(a, vars) == rhs
}

/// An xor constraint over literals asserts that their exclusive or equals `rhs`.
pub open spec fn xor_literal_sat(a: Seq<bool>, lits: Seq<Lit>, rhs: bool) -> bool {
    xor_lits(a, lits) == rhs
}

/// One recorded xor clause, as (variable ids, target parity), satisfied.
pub open spec fn xor_entry_sat(a: Seq<bool>, e: (Seq<u32>, bool)) -> bool {
    xor_clause_sat(a, e.0, e.1)
}

/// The whole recorded formula holds: every clause and every xor clause does.
pub open spec fn formula_sat(a: Seq<bool>, clauses: Seq<Seq<Lit>>, xors: Seq<(Seq<u32>, bool)>) -> bool {
    &&& forall|i: int| 0 <= i < clauses.len() ==> clause_sat(a, #[trigger] clauses[i])
    &&& forall|i: int| 0 <= i < xors.len() ==> #[trigger] xor_entry_sat(a, xors[i])
}

/// The exclusive or of a run of literals equals the exclusive or of their
/// variables, offset by the parity of the negations among them.
pub proof fn lemma_xor_lits_to_vars(a: Seq<bool>, lits: Seq<Lit>)
    ensures
        xor_lits(a, lits) == (xor_vars(a, vars_of(lits)) != neg_parity(lits)),
    decreases lits.len(),
{
    if lits.len() == 0 {
        assert(vars_of(lits).len() == 0);
    } else {
        let rest = lits.drop_last();
        let l = lits.last();
        lemma_xor_lits_to_vars(a, rest);
        assert(vars_of(lits).drop_last() =~= vars_of(rest));
        assert(vars_of(lits).last() == l.spec_var());
        assert(vars_of(lits).len() != 0);
    }
}

/// Asserting an xor constraint phrased over literals is the same as asserting
/// it over the underlying variables once each literal's negation has been
/// folded into the target parity.
pub proof fn lemma_xor_literal_clause_equiv(a: Seq<bool>, lits: Seq<Lit>, rhs: bool)
    ensures
        xor_literal_sat(a, lits, rhs) == xor_clause_sat(a, vars_of(lits), rhs != neg_parity(lits)),
{
    lemma_xor_lits_to_vars(a, lits);
}

/// Growing the assignment beyond the variables a literal names does not change
/// how the literal reads: earlier literals stay interpretable, unchanged.
pub proof fn lemma_lit_sat_prefix(a1: Seq<bool>, a2: Seq<bool>, l: Lit)
    requires
        a1.is_prefix_of(a2),
        l.spec_var() < a1.len(),
    ensures
        lit_sat(a1, l) == lit_sat(a2, l),
{
    assert(a1[l.spec_var() as int] == a2[l.spec_var() as int]);
}

/// The database only constrains further as it grows: an assignment satisfying
/// a later stage of the recorded formula satisfies every earlier stage.
pub proof fn lemma_formula_sat_monotonic(
    a: Seq<bool>,
    c1: Seq<Seq<Lit>>,
    x1: Seq<(Seq<u32>, bool)>,
    c2: Seq<Seq<Lit>>,
    x2: Seq<(Seq<u32>, bool)>,
)
    requires
        c1.is_prefix_of(c2),
        x1.is_prefix_of(x2),
        formula_sat(a, c2, x2),
    ensures
        formula_sat(a, c1, x1),
{
    assert forall|i: int| 0 <= i < c1.len() implies clause_sat(a, #[trigger] c1[i]) by {
        assert(c1[i] == c2[i]);
    }
    assert forall|i: int| 0 <= i < x1.len() implies #[trigger] xor_entry_sat(a, x1[i]) by {
        assert(x1[i] == x2[i]);
    }
}

/// Once a recorded clause is violated by an assignment, no extension of the
/// database is satisfied by that assignment: nothing recorded is ever retracted.
pub proof fn lemma_added_clause_binds_forever(
    a: Seq<bool>,
    c1: Seq<Seq<Lit>>,
    x1: Seq<(Seq<u32>, bool)>,
    c2: Seq<Seq<Lit>>,
    x2: Seq<(Seq<u32>, bool)>,
    i: int,
)
    requires
        c1.is_prefix_of(c2),
        x1.is_prefix_of(x2),
        0 <= i < c1.len(),
        !clause_sat(a, c1[i]),
    ensures
        !formula_sat(a, c2, x2),
{
    if formula_sat(a, c2, x2) {
        lemma_formula_sat_monotonic(a, c1, x1, c2, x2);
    }
}

} // verus!
