//! Parser and validator for declarative constructor contracts.
//!
//! A bridge module describes one object shared across a language boundary.
//! Its construction sequence is declared as a trait implementation whose
//! generic arguments carry the argument lists of the construction phases:
//! a leading positional tuple (the public constructor signature) followed by
//! zero or more named role bindings. This crate checks that such a
//! declaration is well formed and assembles the resulting constructor
//! contract, or reports a span-attributed diagnostic.
//!
//! The library works on its own model of the relevant syntax
//! ([`syntax::ImplDecl`] and friends): plain data that an adapter fills in
//! from whatever front-end parsed the source text.

pub mod constructor;
pub mod errors;
pub mod invokables;
pub mod laws;
pub mod qt_values;
pub mod span;
pub mod syntax;
