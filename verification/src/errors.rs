use vstd::prelude::*;

use crate::span::Span;

verus! {

/// One of the three construction roles a named binding may carry.
///
/// Each role feeds one phase of the two-phase construction sequence:
/// `NewArguments` are the inputs of the function that produces the
/// native-side value, `BaseArguments` are forwarded to the foreign base
/// constructor, and `InitializeArguments` feed the hook run after the
/// foreign object exists. Each role may appear at most once per
/// declaration.
#[derive(Clone, Copy, PartialEq, Eq, Structural, Debug)]
pub enum Role {
    NewArguments,
    BaseArguments,
    InitializeArguments,
}

/// Why a declaration was rejected. Every rejection is terminal: no partial
/// contract is ever produced.
#[derive(Clone, Copy, PartialEq, Eq, Structural, Debug)]
pub enum ErrorKind {
    /// An argument-list type is not tuple-shaped.
    MalformedArgumentList,
    /// A named binding's name is not one of the three recognized roles.
    UnknownConstructorRole,
    /// A tail generic argument is not a named-type binding.
    ExpectedAssociatedRole,
    /// The same role is bound twice; carries the role in question.
    DuplicateConstructorRole(Role),
    /// The generic-argument list is empty or absent.
    MissingConstructorArguments,
    /// The first generic argument is not a positional type.
    ExpectedArgumentTuple,
    /// The declaration is marked `unsafe`.
    UnnecessaryUnsafe,
    /// The declaration has generic parameters of its own.
    GenericsNotAllowed,
    /// The declaration implements items instead of only declaring.
    MustBeDeclarationOnly,
    /// The declaration is not a trait implementation.
    ExpectedTraitImpl,
}

/// A diagnostic: what went wrong and the smallest source fragment to point
/// at. The message is derived from the kind by [`ParseError::message`].
#[derive(Clone, Copy, PartialEq, Eq, Structural, Debug)]
pub struct ParseError {
    pub kind: ErrorKind,
    pub span: Span,
}

/// The surface name of a role, as written in a binding.
pub open spec fn spec_role_name(role: Role) -> Seq<char> {
    match role {
        Role::NewArguments => "NewArguments"@,
        Role::BaseArguments => "BaseArguments"@,
        Role::InitializeArguments => "InitializeArguments"@,
    }
}

/// The human-readable message for each kind of rejection.
pub open spec fn spec_message(kind: ErrorKind) -> Seq<char> {
    match kind {
        ErrorKind::MalformedArgumentList => "Expected a tuple as argument list!\nNote that a tuple of a single type needs to use a trailing comma, e.g. (i32,)"@,
        ErrorKind::UnknownConstructorRole => "Unknown associated type!"@,
        ErrorKind::ExpectedAssociatedRole => "Expected associated type as a generic argument!"@,
        ErrorKind::DuplicateConstructorRole(role) => "Duplicate associated type definition: "@ + spec_role_name(
            role,
        ),
        ErrorKind::MissingConstructorArguments => "Missing generic argument for Constructor!"@,
        ErrorKind::ExpectedArgumentTuple => "Constructor expects a tuple as the first generic argument"@,
        ErrorKind::UnnecessaryUnsafe => "Unnecessary unsafe around constructor impl."@,
        ErrorKind::GenericsNotAllowed => "Generics are not allowed on Constructor impls!"@,
        ErrorKind::MustBeDeclarationOnly => "Constructor must only be declared, not implemented!"@,
        ErrorKind::ExpectedTraitImpl => "Expected trait impl!"@,
    }
}

impl Role {
    /// The surface name of the role.
    pub fn name(&self) -> (r: &'static str)
        ensures
            r@ == spec_role_name(*self),
    {
        match self {
            Role::NewArguments => "NewArguments",
            Role::BaseArguments => "BaseArguments",
            Role::InitializeArguments => "InitializeArguments",
        }
    }
}

impl ParseError {
    /// The human-readable message of this diagnostic.
    pub fn message(&self) -> (r: String)
        ensures
            r@ == spec_message(self.kind),
    {
        match self.kind {
            ErrorKind::MalformedArgumentList => String::from_str(
                "Expected a tuple as argument list!\nNote that a tuple of a single type needs to use a trailing comma, e.g. (i32,)",
            ),
            ErrorKind::UnknownConstructorRole => String::from_str("Unknown associated type!"),
            ErrorKind::ExpectedAssociatedRole => String::from_str(
                "Expected associated type as a generic argument!",
            ),
            ErrorKind::DuplicateConstructorRole(role) => String::from_str(
                "Duplicate associated type definition: ",
            ).concat(role.name()),
            ErrorKind::MissingConstructorArguments => String::from_str(
                "Missing generic argument for Constructor!",
            ),
            ErrorKind::ExpectedArgumentTuple => String::from_str(
                "Constructor expects a tuple as the first generic argument",
            ),
            ErrorKind::UnnecessaryUnsafe => String::from_str(
                "Unnecessary unsafe around constructor impl.",
            ),
            ErrorKind::GenericsNotAllowed => String::from_str(
                "Generics are not allowed on Constructor impls!",
            ),
            ErrorKind::MustBeDeclarationOnly => String::from_str(
                "Constructor must only be declared, not implemented!",
            ),
            ErrorKind::ExpectedTraitImpl => String::from_str("Expected trait impl!"),
        }
    }
}

} // verus!
