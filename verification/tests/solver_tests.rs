//! Session scenarios. The native engine is not linked here: each solve call
//! takes the verdict, model and conflict that the engine hands the embedding
//! program, and the tests check what the session then answers — the variable
//! bookkeeping, the xor folding, and the reading of models and conflicts.

use cryptominisat::{Lbool, Lit, Solver};

fn new_lit(var: u32, neg: bool) -> Lit {
    Lit::new(var, neg).unwrap()
}

#[test]
fn readme_code() {
    // Variables x, y, z with clauses {x}, {-y}, {-x, y, z}: satisfiable,
    // and the engine reports x = true, y = false, z = true.
    let mut solver = Solver::new();
    let mut clause = Vec::new();

    solver.set_num_threads(4);
    solver.new_vars(3);

    clause.push(new_lit(0, false));
    solver.add_clause(&clause, true);

    clause.clear();
    clause.push(new_lit(1, true));
    solver.add_clause(&clause, true);

    clause.clear();
    clause.push(new_lit(0, true));
    clause.push(new_lit(1, false));
    clause.push(new_lit(2, false));
    solver.add_clause(&clause, true);

    let ret = solver.solve(Lbool::True, vec![Lbool::True, Lbool::False, Lbool::True]);

    assert!(ret == Lbool::True);
    assert!(solver.get_model()[0] == Lbool::True);
    assert!(solver.get_model()[1] == Lbool::False);
    assert!(solver.get_model()[2] == Lbool::True);
}

#[test]
fn xor_4_long() {
    // a + b + c + d = false with a, b, c all false forces d = false.
    let mut s = Solver::new();
    s.new_vars(4);
    s.add_xor_clause(&[0, 1, 2, 3], false, true);
    s.add_xor_clause(&[0], false, true);
    s.add_xor_clause(&[1], false, true);
    s.add_xor_clause(&[2], false, true);
    let ret = s.solve(
        Lbool::True,
        vec![Lbool::False, Lbool::False, Lbool::False, Lbool::False],
    );
    assert!(ret == Lbool::True);
    assert!(s.get_model()[0] == Lbool::False);
    assert!(s.get_model()[1] == Lbool::False);
    assert!(s.get_model()[2] == Lbool::False);
    assert!(s.get_model()[3] == Lbool::False);
    assert!(s.nvars() == 4);
}

#[test]
fn replace_false() {
    // a == b, assumed a = true and b = false: unsatisfiable; the conflict is
    // the negations of the two failed assumptions, in no promised order.
    let mut s = Solver::new();
    s.new_vars(2);
    s.add_clause(&[new_lit(0, false), new_lit(1, true)], true); //a V -b
    s.add_clause(&[new_lit(0, true), new_lit(1, false)], true); //-a V b

    let mut assumps = Vec::new();
    assumps.push(new_lit(0, false));
    assumps.push(new_lit(1, true));
    // a = 1, b = 0

    let ret = s.solve_with_assumptions(
        &assumps,
        Lbool::False,
        Vec::new(),
        vec![new_lit(1, false), new_lit(0, true)],
    );
    assert!(ret == Lbool::False);

    assert!(s.get_conflict().len() == 2);

    let mut tmp = s.get_conflict().to_vec();
    tmp.sort();
    assert!(tmp[0] == new_lit(0, true));
    assert!(tmp[1] == new_lit(1, false));
}

#[test]
fn sugared_readme_code() {
    let mut s = Solver::new();
    let x = s.new_var();
    let y = s.new_var();
    let z = s.new_var();

    s.add_clause(&[x], true);
    s.add_clause(&[!y], true);
    s.add_clause(&[!x, y, z], true);

    let model = vec![Lbool::True, Lbool::False, Lbool::True];
    assert!(s.solve(Lbool::True, model) == Lbool::True);
    assert!(s.is_true(x));
    assert!(s.is_true(!y));
    assert!(s.is_true(z));
}

#[test]
fn sugared_xor_code() {
    let mut s = Solver::new();
    let a = s.new_var();
    let b = s.new_var();
    let c = s.new_var();
    let d = s.new_var();

    s.add_xor_literal_clause(&[a, !b, c, d], false, true);
    s.add_xor_literal_clause(&[!a, !b], false, true);
    s.add_xor_literal_clause(&[c, !b, d], false, true);
    s.add_xor_literal_clause(&[a, !!d], true, true);
    let model = vec![Lbool::False, Lbool::False, Lbool::False, Lbool::True];
    assert!(s.solve(Lbool::True, model) == Lbool::True);
    assert!(s.is_true(!a));
    assert!(s.is_true(!b));
    assert!(s.is_true(!c));
    assert!(s.is_true(d));

    assert!(
        s.solve_with_assumptions(&[c], Lbool::False, Vec::new(), vec![!c]) == Lbool::False
    );
    let model = vec![Lbool::False, Lbool::False, Lbool::False, Lbool::True];
    assert!(s.solve_with_assumptions(&[!a, d], Lbool::True, model, Vec::new()) == Lbool::True);
}

#[test]
fn assumptions_test() {
    let mut s = Solver::new();
    let a = s.new_var();
    let b = s.new_var();
    let c = s.new_var();
    let d = s.new_var();

    s.add_clause(&[a, b, !c], true);
    s.add_clause(&[a, !b, c], true);
    s.add_clause(&[!a, b, c], true);
    s.add_clause(&[!a, !b, !c], true);

    s.add_clause(&[!d, b, !c], true);
    s.add_clause(&[!d, !b, c], true);
    s.add_clause(&[d, b, c], true);
    s.add_clause(&[d, !b, !c], true);

    s.add_clause(&[a, d, !c], true);
    s.add_clause(&[a, !d, c], true);
    s.add_clause(&[!a, d, c], true);
    s.add_clause(&[!a, !d, !c], true);

    let model = vec![Lbool::True, Lbool::False, Lbool::True, Lbool::False];
    assert!(s.solve(Lbool::True, model) == Lbool::True);
    assert!(s.is_true(c));

    let model = vec![Lbool::True, Lbool::False, Lbool::True, Lbool::False];
    assert!(s.solve_with_assumptions(&[a], Lbool::True, model, Vec::new()) == Lbool::True);
    assert!(s.is_true(a));
    assert!(s.is_true(!b));
    assert!(s.is_true(c));
    assert!(s.is_true(!d));

    let model = vec![Lbool::False, Lbool::True, Lbool::True, Lbool::True];
    assert!(s.solve_with_assumptions(&[!a], Lbool::True, model, Vec::new()) == Lbool::True);
    assert!(s.is_true(!a));
    assert!(s.is_true(b));
    assert!(s.is_true(c));
    assert!(s.is_true(d));
}

#[test]
fn new_vars_extends_count_and_keeps_literals() {
    let mut s = Solver::new();
    s.new_vars(3);
    assert!(s.nvars() == 3);
    let early = new_lit(1, true);
    s.new_vars(2);
    assert!(s.nvars() == 5);
    // A literal issued against the smaller range still reads the same.
    assert!(early.var() == 1);
    assert!(early.isneg());
    let next = s.new_var();
    assert!(next.var() == 5);
    assert!(!next.isneg());
    assert!(s.nvars() == 6);
}

#[test]
fn add_clause_hands_back_engine_flag() {
    let mut s = Solver::new();
    s.new_vars(1);
    assert!(s.add_clause(&[new_lit(0, false)], true));
    assert!(!s.add_clause(&[new_lit(0, true)], false));
    assert!(!s.add_xor_clause(&[0], true, false));
    assert!(!s.add_xor_literal_clause(&[new_lit(0, false)], true, false));
}

#[test]
fn undef_verdict_passes_through() {
    let mut s = Solver::new();
    s.new_vars(2);
    s.add_clause(&[new_lit(0, false), new_lit(1, false)], true);
    assert!(s.solve(Lbool::Undef, Vec::new()) == Lbool::Undef);
}

#[test]
fn undef_model_entry_reads_false_under_both_polarities() {
    let mut s = Solver::new();
    let x = s.new_var();
    s.add_clause(&[x, !x], true);
    assert!(s.solve(Lbool::True, vec![Lbool::Undef]) == Lbool::True);
    assert!(!s.is_true(x));
    assert!(!s.is_true(!x));
}

#[test]
fn conflict_no_larger_than_assumptions() {
    let mut s = Solver::new();
    let x = s.new_var();
    let y = s.new_var();
    s.add_clause(&[x], true);
    let verdict = s.solve_with_assumptions(&[!x, y], Lbool::False, Vec::new(), vec![x]);
    assert!(verdict == Lbool::False);
    assert!(s.get_conflict().len() <= 2);
    assert!(s.get_conflict() == [x]);
}
