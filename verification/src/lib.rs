//! A typed, verified front end for an incremental SAT solving session.
//!
//! The solving engine itself is a native library living outside this crate; what
//! is verified here is everything around it: packing variables and polarities
//! into literals, the trinary result type, the parity algebra that turns an xor
//! constraint over literals into one over variables, the semantics of the
//! accumulated clause database, and the session's state machine — which calls
//! are legal when, and what each recorded answer means.

pub mod formula;
pub mod lit;
pub mod solver;

pub use lit::Lbool;
pub use lit::Lit;
pub use solver::fold_xor_literals;
pub use solver::Solver;
pub use solver::MAX_NUM_VARS;
