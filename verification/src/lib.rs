//! A static-analysis check that decides whether the explicit region
//! (lifetime) annotations of a function signature are redundant, i.e.
//! whether the elision rules would let the compiler infer the same
//! regions if the annotations were omitted.
//!
//! The check is advisory: it extracts the region descriptors of every
//! reference in the signature and returns a yes/no eligibility verdict,
//! never an edit.

pub mod ast;
pub mod laws;
pub mod lifetimes;
