//! The solving session: a certified ledger of everything handed to and
//! received from the native engine, and the state machine that says which
//! queries are legal when.
//!
//! The engine itself runs outside this crate, behind a C-style boundary that
//! the embedding program owns. Each operation here is the verified half of one
//! engine call: what is sent is computed and recorded under contract, and the
//! engine's answer comes back in as an argument whose recorded meaning is then
//! pinned down for every later query.

use crate::formula::{clause_sat, formula_sat, neg_parity, vars_of};
use crate::lit::{Lbool, Lit};
use vstd::prelude::*;

verus! {

/// The engine's documented soft cap on the variable count, 2^28 - 1; stated
/// here, enforced nowhere in this layer.
pub const MAX_NUM_VARS: usize = 0x0fff_ffff;

/// One solving session. It owns the growing variable count, the recorded
/// clause and xor-clause databases (ghost — the engine holds the only
/// executable copy), and the verdict, model and conflict of the most recent
/// solve.
pub struct Solver {
    nvars: u32,
    clauses: Ghost<Seq<Seq<Lit>>>,
    xors: Ghost<Seq<(Seq<u32>, bool)>>,
    status: Ghost<Option<Lbool>>,
    assumed: Ghost<Option<nat>>,
    model: Vec<Lbool>,
    conflict: Vec<Lit>,
}

impl Solver {
    /// The number of variables allocated so far.
    pub closed spec fn num_vars(self) -> u32 {
        self.nvars
    }

    /// Every clause asserted so far, in order of assertion.
    pub closed spec fn clauses(self) -> Seq<Seq<Lit>> {
        self.clauses@
    }

    /// Every xor clause asserted so far, as (variable ids, target parity).
    pub closed spec fn xor_clauses(self) -> Seq<(Seq<u32>, bool)> {
        self.xors@
    }

    /// The verdict of the most recent solve — None before the first solve and
    /// again after any mutation, which ends the validity window of the results.
    pub closed spec fn last_verdict(self) -> Option<Lbool> {
        self.status@
    }

    /// How many assumptions the most recent solve carried; None for a plain solve.
    pub closed spec fn last_assumptions(self) -> Option<nat> {
        self.assumed@
    }

    /// The per-variable assignment recorded by the most recent solve.
    pub closed spec fn model_view(self) -> Seq<Lbool> {
        self.model@
    }

    /// The failed-assumption literals recorded by the most recent solve.
    pub closed spec fn conflict_view(self) -> Seq<Lit> {
        self.conflict@
    }

    /// Well-formedness of the ledger: a True verdict comes with a model
    /// covering every variable; a conflict never outgrows the assumptions that
    /// produced it; assumption bookkeeping exists only once a solve happened.
    pub closed spec fn wf(self) -> bool {
        &&& (self.status@ == Some(Lbool::True) ==> self.model@.len() == self.nvars as int)
        &&& (self.status@ == Some(Lbool::False) && self.assumed@ is Some ==> self.conflict@.len()
            <= self.assumed@->0)
        &&& (self.assumed@ is Some ==> self.status@ is Some)
    }

    /// A fresh session: no variables, nothing asserted, no solve attempted.
    pub fn new() -> (s: Solver)
        ensures
            s.wf(),
            s.num_vars() == 0,
            s.clauses().len() == 0,
            s.xor_clauses().len() == 0,
            s.last_verdict() is None,
            s.last_assumptions() is None,
    {
        Solver {
            nvars: 0,
            clauses: Ghost(Seq::empty()),
            xors: Ghost(Seq::empty()),
            status: Ghost(None),
            assumed: Ghost(None),
            model: Vec::new(),
            conflict: Vec::new(),
        }
    }

    /// The current variable count.
    pub fn nvars(&self) -> (n: u32)
        ensures
            n == self.num_vars(),
    {
        self.nvars
    }

    /// Allocates `n` fresh variables, extending the contiguous id range by
    /// exactly `n`; everything already recorded is untouched.
    pub fn new_vars(&mut self, n: usize)
        requires
            old(self).wf(),
            old(self).num_vars() + n <= u32::MAX,
        ensures
            final(self).wf(),
            final(self).num_vars() == old(self).num_vars() + n,
            final(self).clauses() == old(self).clauses(),
            final(self).xor_clauses() == old(self).xor_clauses(),
            final(self).last_verdict() is None,
            final(self).last_assumptions() is None,
    {
        self.nvars = self.nvars + (n as u32);
        self.status = Ghost(None);
        self.assumed = Ghost(None);
    }

    /// Allocates one fresh variable and returns its positive literal.
    pub fn new_var(&mut self) -> (l: Lit)
        requires
            old(self).wf(),
            old(self).num_vars() < 0x8000_0000u32,
        ensures
            final(self).wf(),
            final(self).num_vars() == old(self).num_vars() + 1,
            l.spec_var() == old(self).num_vars(),
            !l.spec_isneg(),
            final(self).clauses() == old(self).clauses(),
            final(self).xor_clauses() == old(self).xor_clauses(),
            final(self).last_verdict() is None,
            final(self).last_assumptions() is None,
    {
        let n = self.nvars();
        self.new_vars(1);
        Lit::new(n, false).unwrap()
    }

    /// Records a clause asserted to the engine — the disjunction of `lits` is
    /// conjoined, permanently, to the formula. `engine_ok` is the engine's
    /// answer, false when the formula has become trivially unsatisfiable; both
    /// answers are ordinary outcomes and are handed back unchanged.
    pub fn add_clause(&mut self, lits: &[Lit], engine_ok: bool) -> (r: bool)
        requires
            old(self).wf(),
        ensures
            final(self).wf(),
            r == engine_ok,
            final(self).clauses() == old(self).clauses().push(lits@),
            final(self).xor_clauses() == old(self).xor_clauses(),
            final(self).num_vars() == old(self).num_vars(),
            final(self).last_verdict() is None,
            final(self).last_assumptions() is None,
    {
        self.clauses = Ghost(self.clauses@.push(lits@));
        self.status = Ghost(None);
        self.assumed = Ghost(None);
        engine_ok
    }

    /// Records an xor clause asserted to the engine: the exclusive or of the
    /// named variables' values must equal `rhs`. Polarity plays no part here —
    /// any sign information must already be folded into `rhs`.
    pub fn add_xor_clause(&mut self, vars: &[u32], rhs: bool, engine_ok: bool) -> (r: bool)
        requires
            old(self).wf(),
        ensures
            final(self).wf(),
            r == engine_ok,
            final(self).xor_clauses() == old(self).xor_clauses().push((vars@, rhs)),
            final(self).clauses() == old(self).clauses(),
            final(self).num_vars() == old(self).num_vars(),
            final(self).last_verdict() is None,
            final(self).last_assumptions() is None,
    {
        self.xors = Ghost(self.xors@.push((vars@, rhs)));
        self.status = Ghost(None);
        self.assumed = Ghost(None);
        engine_ok
    }

    /// Asserts an xor constraint phrased over literals: every negation is
    /// folded into the target parity and the resulting variable-level xor
    /// clause is recorded.
    pub fn add_xor_literal_clause(&mut self, lits: &[Lit], rhs: bool, engine_ok: bool) -> (r: bool)
        requires
            old(self).wf(),
        ensures
            final(self).wf(),
            r == engine_ok,
            final(self).xor_clauses() == old(self).xor_clauses().push(
                (vars_of(lits@), rhs != neg_parity(lits@)),
            ),
            final(self).clauses() == old(self).clauses(),
            final(self).num_vars() == old(self).num_vars(),
            final(self).last_verdict() is None,
            final(self).last_assumptions() is None,
    {
        let folded = fold_xor_literals(lits, rhs);
        self.add_xor_clause(folded.0.as_slice(), folded.1, engine_ok)
    }

    /// Records the verdict the engine returned for a solve with no
    /// assumptions, together with the model it exposed — read exactly when the
    /// verdict is True. An Undef verdict means resource exhaustion: unknown,
    /// neither success nor failure.
    pub fn solve(&mut self, verdict: Lbool, model: Vec<Lbool>) -> (r: Lbool)
        requires
            old(self).wf(),
            verdict == Lbool::True ==> model@.len() == old(self).num_vars(),
        ensures
            final(self).wf(),
            r == verdict,
            final(self).last_verdict() == Some(verdict),
            final(self).last_assumptions() is None,
            final(self).model_view() == model@,
            final(self).clauses() == old(self).clauses(),
            final(self).xor_clauses() == old(self).xor_clauses(),
            final(self).num_vars() == old(self).num_vars(),
    {
        self.model = model;
        self.status = Ghost(Some(verdict));
        self.assumed = Ghost(None);
        verdict
    }

    /// Records the verdict of a solve under temporary assumptions — unit
    /// literals asserted for this call only, never persisted — together with
    /// the model (read when True) and the conflict (read when False) the
    /// engine exposed.
    pub fn solve_with_assumptions(
        &mut self,
        assumptions: &[Lit],
        verdict: Lbool,
        model: Vec<Lbool>,
        conflict: Vec<Lit>,
    ) -> (r: Lbool)
        requires
            old(self).wf(),
            verdict == Lbool::True ==> model@.len() == old(self).num_vars(),
            verdict == Lbool::False ==> conflict@.len() <= assumptions@.len(),
        ensures
            final(self).wf(),
            r == verdict,
            final(self).last_verdict() == Some(verdict),
            final(self).last_assumptions() == Some(assumptions@.len()),
            final(self).model_view() == model@,
            final(self).conflict_view() == conflict@,
            final(self).clauses() == old(self).clauses(),
            final(self).xor_clauses() == old(self).xor_clauses(),
            final(self).num_vars() == old(self).num_vars(),
    {
        self.model = model;
        self.conflict = conflict;
        self.status = Ghost(Some(verdict));
        self.assumed = Ghost(Some(assumptions@.len()));
        verdict
    }

    /// The assignment found by the most recent solve: one trinary value per
    /// variable, some possibly Undef when irrelevant to satisfaction. Valid
    /// only immediately after a True verdict; any mutation ends that window.
    pub fn get_model(&self) -> (m: &[Lbool])
        requires
            self.wf(),
            self.last_verdict() == Some(Lbool::True),
        ensures
            m@ == self.model_view(),
            m@.len() == self.num_vars(),
    {
        self.model.as_slice()
    }

    /// The recorded conflict: the negations of the failed assumptions held
    /// responsible for unsatisfiability — a failure-cause subset, not
    /// necessarily minimal, never larger than the assumption list. Valid only
    /// immediately after a False verdict from an assumption-based solve.
    pub fn get_conflict(&self) -> (c: &[Lit])
        requires
            self.wf(),
            self.last_verdict() == Some(Lbool::False),
            self.last_assumptions() is Some,
        ensures
            c@ == self.conflict_view(),
            c@.len() <= self.last_assumptions()->0,
    {
        self.conflict.as_slice()
    }

    /// Whether the model of the most recent satisfiable solve makes this
    /// literal true. An Undef entry equals neither True nor False, so an
    /// undetermined variable deliberately reads as false under either
    /// polarity — "not shown true", not "shown false".
    pub fn is_true(&self, lit: Lit) -> (r: bool)
        requires
            self.wf(),
            self.last_verdict() == Some(Lbool::True),
            lit.spec_var() < self.num_vars(),
        ensures
            r == (self.model_view()[lit.spec_var() as int] == Lbool::spec_from(!lit.spec_isneg())),
    {
        self.model[lit.var() as usize] == Lbool::from(!lit.isneg())
    }

    /// Declares the engine-side parallelism hint. The hint lives wholly in the
    /// engine; this transition only pins down the documented protocol, that it
    /// must come before any variable, clause or solve activity.
    #[allow(unused_variables)]
    pub fn set_num_threads(&mut self, n: u32)
        requires
            old(self).wf(),
            old(self).num_vars() == 0,
            old(self).clauses().len() == 0,
            old(self).xor_clauses().len() == 0,
            old(self).last_verdict() is None,
        ensures
            *final(self) == *old(self),
    {
    }
}

/// Rewrites an xor constraint over literals as one over bare variables: the
/// returned ids are the literals' variables in order, and the returned parity
/// is `rhs` offset by the number of negated literals, modulo two.
pub fn fold_xor_literals(lits: &[Lit], rhs: bool) -> (r: (Vec<u32>, bool))
    ensures
        r.0@ == vars_of(lits@),
        r.1 == (rhs != neg_parity(lits@)),
{
    let n: usize = lits.len();
    let mut vars: Vec<u32> = Vec::with_capacity(n);
    let mut acc: bool = rhs;
    let mut i: usize = 0;
    proof {
        assert(vars@ =~= vars_of(lits@.take(0)));
    }
    while i < n
        invariant
            n == lits@.len(),
            i <= n,
            vars@ == vars_of(lits@.take(i as int)),
            acc == (rhs != neg_parity(lits@.take(i as int))),
        decreases n - i,
    {
        let ghost done = lits@.take(i as int);
        let l = lits[i];
        vars.push(l.var());
        acc = acc ^ l.isneg();
        proof {
            assert(lits@.take(i + 1) =~= done.push(lits@[i as int]));
            assert(lits@.take(i + 1).drop_last() =~= done);
            assert(vars_of(lits@.take(i + 1)) =~= vars_of(done).push(l.spec_var()));
        }
        i = i + 1;
    }
    proof {
        assert(lits@.take(n as int) =~= lits@);
    }
    (vars, acc)
}

/// The recorded formula of a session is satisfied by an assignment exactly
/// when every recorded clause and xor clause is.
pub open spec fn session_sat(a: Seq<bool>, s: Solver) -> bool {
    formula_sat(a, s.clauses(), s.xor_clauses())
}

/// Assertion is monotonic: databases only grow, so once a session has recorded
/// a clause that an assignment violates, no later state of the session —
/// however it has grown since — is satisfied by that assignment.
pub proof fn lemma_session_monotonic(a: Seq<bool>, earlier: Solver, later: Solver, i: int)
    requires
        earlier.clauses().is_prefix_of(later.clauses()),
        earlier.xor_clauses().is_prefix_of(later.xor_clauses()),
        0 <= i < earlier.clauses().len(),
        !clause_sat(a, earlier.clauses()[i]),
    ensures
        !session_sat(a, later),
{
    crate::formula::lemma_added_clause_binds_forever(
        a,
        earlier.clauses(),
        earlier.xor_clauses(),
        later.clauses(),
        later.xor_clauses(),
        i,
    );
}

} // verus!
