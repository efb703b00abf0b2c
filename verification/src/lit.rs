//! Literals and trinary truth values.

use vstd::prelude::*;

verus! {

/// A literal: a variable id and a polarity packed into one 32-bit word.
/// Bit 0 is the negation flag; the remaining bits hold the variable id,
/// so the packed order is (variable, polarity) lexicographic.
#[derive(PartialEq, Eq, Structural, PartialOrd, Ord, Clone, Copy)]
pub struct Lit(u32);

impl Lit {
    /// The variable id packed into this literal.
    pub closed spec fn spec_var(self) -> u32 {
        self.0 >> 1u32
    }

    /// Whether this literal is negated.
    pub closed spec fn spec_isneg(self) -> bool {
        self.0 & 1u32 == 1u32
    }

    /// The literal over the same variable with the opposite polarity.
    pub closed spec fn spec_not(self) -> Lit {
        Lit(self.0 ^ 1u32)
    }

    /// Packs a variable id and a polarity into a literal.
    /// Fails exactly when the id does not fit beside the negation bit.
    pub fn new(var: u32, negated: bool) -> (r: Option<Lit>)
        ensures
            r is Some <==> var < 0x8000_0000u32,
            r matches Some(l) ==> l.spec_var() == var && l.spec_isneg() == negated,
    {
        if var < 0x8000_0000u32 {
            let bit: u32 = if negated {
                1
            } else {
                0
            };
            let code: u32 = (var << 1u32) | bit;
            proof {
                assert(((var << 1u32) | bit) >> 1u32 == var && ((((var << 1u32) | bit) & 1u32
                    == 1u32) <==> bit == 1u32)) by (bit_vector)
                    requires
                        var < 0x8000_0000u32 && bit < 2u32,
                ;
            }
            Some(Lit(code))
        } else {
            None
        }
    }

    /// Extracts the variable id.
    pub fn var(&self) -> (v: u32)
        ensures
            v == self.spec_var(),
    {
        self.0 >> 1
    }

    /// Whether this literal is negated.
    pub fn isneg(&self) -> (b: bool)
        ensures
            b == self.spec_isneg(),
    {
        proof {
            let c = self.0;
            assert((c & 1u32 != 0) <==> (c & 1u32 == 1u32)) by (bit_vector);
        }
        self.0 & 1 != 0
    }
}

impl core::ops::Not for Lit {
    type Output = Lit;

    /// The same literal with its polarity flipped.
    fn not(self) -> Lit {
        Lit(self.0 ^ 1)
    }
}

impl vstd::std_specs::ops::NotSpecImpl for Lit {
    open spec fn obeys_not_spec() -> bool {
        true
    }

    open spec fn not_req(self) -> bool {
        true
    }

    open spec fn not_spec(self) -> Lit {
        self.spec_not()
    }
}

/// Negation flips only the polarity bit: the variable stays, the sign flips,
/// and negating twice gives back the original literal.
pub proof fn lemma_not_properties(l: Lit)
    ensures
        l.spec_not().spec_var() == l.spec_var(),
        l.spec_not().spec_isneg() == !l.spec_isneg(),
        l.spec_not().spec_not() == l,
{
    let c = l.0;
    assert((c ^ 1u32) >> 1u32 == c >> 1u32) by (bit_vector);
    assert(((c ^ 1u32) & 1u32 == 1u32) <==> !(c & 1u32 == 1u32)) by (bit_vector);
    assert((c ^ 1u32) ^ 1u32 == c) by (bit_vector);
}

/// A three-valued result: a definite truth value, or undetermined.
#[derive(PartialEq, Eq, Structural, Clone, Copy)]
pub enum Lbool {
    True,
    False,
    Undef,
}

impl Lbool {
    /// The trinary value of a boolean; never Undef.
    pub open spec fn spec_from(b: bool) -> Lbool {
        if b {
            Lbool::True
        } else {
            Lbool::False
        }
    }

    /// Maps a boolean to the matching definite trinary value.
    #[verifier::when_used_as_spec(spec_from)]
    pub fn from(b: bool) -> (r: Lbool)
        ensures
            r == Lbool::spec_from(b),
    {
        if b {
            Lbool::True
        } else {
            Lbool::False
        }
    }
}

} // verus!
