//! The signature model the check runs on.
//!
//! The pass driver that discovers function definitions and parses source
//! text is an external collaborator: it hands the check an already-parsed
//! signature in the shapes below. Region identifiers arrive interned, as
//! symbols; the distinguished whole-program region (`'static`) is the
//! reserved symbol [`STATIC_NAME`].

use vstd::prelude::*;

verus! {

/// The interned symbol reserved for the whole-program region (`'static`).
pub const STATIC_NAME: u64 = 0;

/// A region annotation as written in source, identified by its interned
/// symbol.
#[derive(PartialEq, Eq, Structural, Clone, Copy, Debug)]
pub struct Lifetime {
    pub name: u64,
}

/// A type expression, reduced to the shapes the reference walk
/// distinguishes.
#[derive(Debug)]
pub enum Ty {
    /// `&'r T` or `&T`: a reference with an optional region annotation.
    Rptr(Option<Lifetime>, Box<Ty>),
    /// `(T1, ..., Tn)`: a tuple of component types.
    Tup(Vec<Ty>),
    /// A path with generic arguments: region arguments, then type
    /// arguments. A bare path has both lists empty.
    Path(Vec<Lifetime>, Vec<Ty>),
    /// A trait object with region bounds. The bounds constrain generic
    /// parameters; they do not annotate a reference.
    ObjectSum(Box<Ty>, Vec<Lifetime>),
    /// A leaf to be inferred; it contains no references.
    Infer,
}

/// The declared return type of a function.
#[derive(Debug)]
pub enum FunctionRetTy {
    /// No return type is written; nothing is walked.
    DefaultReturn,
    /// An explicitly written return type.
    Return(Box<Ty>),
}

/// A function declaration: the parameter types and the return type.
#[derive(Debug)]
pub struct FnDecl {
    pub inputs: Vec<Ty>,
    pub output: FunctionRetTy,
}

/// How a method takes its receiver.
#[derive(Debug)]
pub enum ExplicitSelf {
    /// No receiver: an associated function.
    SelfStatic,
    /// `self`: by value, carrying no region.
    SelfValue,
    /// `&self`, `&'r self`, `&mut self`: by reference. The region stands
    /// out-of-band, not inside a type expression.
    SelfRegion(Option<Lifetime>),
    /// `self: T`: a fully written receiver type.
    SelfExplicit(Box<Ty>),
}

/// The kind of function definition being checked.
#[derive(Debug)]
pub enum FnKind {
    /// A free function.
    FkItemFn,
    /// A closure.
    FkFnBlock,
    /// A method, with its receiver form.
    FkMethod(ExplicitSelf),
}

} // verus!
