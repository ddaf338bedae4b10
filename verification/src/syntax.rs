use vstd::prelude::*;

use crate::span::Span;

verus! {

// ---------------------------------------------------------------------------
// The syntax model.
//
// The parser only ever reads a handful of structural facts about the
// declaration it is given: whether a type expression is a tuple and what its
// elements are, which generic arguments are named bindings and what they are
// called, and whether the declaration carries an `unsafe` qualifier, its own
// generic parameters, or body items. The types below hold exactly those
// facts as plain data, together with the source location of every fragment a
// diagnostic may need to point at. An adapter around whatever front-end
// parsed the source fills them in.
// ---------------------------------------------------------------------------

/// An opaque type expression: its source text and its location.
///
/// Element types of an argument tuple are never inspected further by this
/// library; they are carried through to the constructor contract verbatim.
#[derive(Debug, PartialEq, Eq)]
pub struct TypeName {
    pub text: String,
    pub span: Span,
}

/// Mathematical value of a [`TypeName`].
pub struct TypeNameV {
    pub text: Seq<char>,
    pub span: Span,
}

impl View for TypeName {
    type V = TypeNameV;

    open spec fn view(&self) -> TypeNameV {
        TypeNameV { text: self.text@, span: self.span }
    }
}

/// The views of a sequence of [`TypeName`]s, in order.
pub open spec fn names_view(s: Seq<TypeName>) -> Seq<TypeNameV> {
    s.map_values(|t: TypeName| t@)
}

/// A type expression, classified one level deep: either a tuple with its
/// element types in source order, or any other type shape.
///
/// A parenthesized single type without a trailing comma is not a tuple in
/// the host grammar, so it arrives here as [`TypeExpr::Other`].
#[derive(Debug, PartialEq, Eq)]
pub enum TypeExpr {
    Tuple { elems: Vec<TypeName>, span: Span },
    Other { ty: TypeName },
}

/// Mathematical value of a [`TypeExpr`].
pub enum TypeExprV {
    Tuple { elems: Seq<TypeNameV>, span: Span },
    Other { ty: TypeNameV },
}

impl View for TypeExpr {
    type V = TypeExprV;

    open spec fn view(&self) -> TypeExprV {
        match self {
            TypeExpr::Tuple { elems, span } => TypeExprV::Tuple {
                elems: names_view(elems@),
                span: *span,
            },
            TypeExpr::Other { ty } => TypeExprV::Other { ty: ty@ },
        }
    }
}

impl TypeExprV {
    /// The location of the whole type expression.
    pub open spec fn spec_span(self) -> Span {
        match self {
            TypeExprV::Tuple { span, .. } => span,
            TypeExprV::Other { ty } => ty.span,
        }
    }
}

impl TypeExpr {
    /// The location of the whole type expression.
    pub fn span(&self) -> (s: Span)
        ensures
            s == self@.spec_span(),
    {
        match self {
            TypeExpr::Tuple { span, .. } => *span,
            TypeExpr::Other { ty } => ty.span,
        }
    }
}

/// An identifier together with its location.
#[derive(Debug, PartialEq, Eq)]
pub struct Ident {
    pub name: String,
    pub span: Span,
}

/// Mathematical value of an [`Ident`].
pub struct IdentV {
    pub name: Seq<char>,
    pub span: Span,
}

impl View for Ident {
    type V = IdentV;

    open spec fn view(&self) -> IdentV {
        IdentV { name: self.name@, span: self.span }
    }
}

/// One generic argument of the trait reference.
#[derive(Debug, PartialEq, Eq)]
pub enum GenericArg {
    /// A positional type argument.
    Type { ty: TypeExpr },
    /// A named associated-type binding `Name = Type`; `span` covers the
    /// whole binding.
    AssocType { name: Ident, ty: TypeExpr, span: Span },
    /// Any other kind of generic argument (a lifetime, a const expression,
    /// an associated-const binding, a constraint).
    Other { span: Span },
}

/// Mathematical value of a [`GenericArg`].
pub enum GenericArgV {
    Type { ty: TypeExprV },
    AssocType { name: IdentV, ty: TypeExprV, span: Span },
    Other { span: Span },
}

impl View for GenericArg {
    type V = GenericArgV;

    open spec fn view(&self) -> GenericArgV {
        match self {
            GenericArg::Type { ty } => GenericArgV::Type { ty: ty@ },
            GenericArg::AssocType { name, ty, span } => GenericArgV::AssocType {
                name: name@,
                ty: ty@,
                span: *span,
            },
            GenericArg::Other { span } => GenericArgV::Other { span: *span },
        }
    }
}

/// The views of a sequence of [`GenericArg`]s, in order.
pub open spec fn args_view(s: Seq<GenericArg>) -> Seq<GenericArgV> {
    s.map_values(|g: GenericArg| g@)
}

impl GenericArgV {
    /// The location of the whole generic argument.
    pub open spec fn spec_span(self) -> Span {
        match self {
            GenericArgV::Type { ty } => ty.spec_span(),
            GenericArgV::AssocType { span, .. } => span,
            GenericArgV::Other { span } => span,
        }
    }
}

impl GenericArg {
    /// The location of the whole generic argument.
    pub fn span(&self) -> (s: Span)
        ensures
            s == self@.spec_span(),
    {
        match self {
            GenericArg::Type { ty } => ty.span(),
            GenericArg::AssocType { span, .. } => *span,
            GenericArg::Other { span } => *span,
        }
    }
}

/// The trait reference written on the declaration.
#[derive(Debug, PartialEq, Eq)]
pub struct TraitRef {
    /// Location of the trait path.
    pub span: Span,
    /// The bracketed generic-argument list on the path's trailing segment,
    /// or `None` when the path carries no such list at all.
    pub args: Option<Vec<GenericArg>>,
}

/// Mathematical value of a [`TraitRef`].
pub struct TraitRefV {
    pub span: Span,
    pub args: Option<Seq<GenericArgV>>,
}

impl View for TraitRef {
    type V = TraitRefV;

    open spec fn view(&self) -> TraitRefV {
        TraitRefV {
            span: self.span,
            args: match &self.args {
                Option::Some(v) => Option::Some(args_view(v@)),
                Option::None => Option::None,
            },
        }
    }
}

/// The declaration a constructor contract is parsed from: a trait
/// implementation, reduced to the structural facts the parser reads.
#[derive(Debug, PartialEq, Eq)]
pub struct ImplDecl {
    /// Location of the `unsafe` qualifier, if the declaration carries one.
    pub unsafety: Option<Span>,
    /// Locations of the generic parameters declared on the impl itself, in
    /// source order.
    pub generic_params: Vec<Span>,
    /// Locations of the items implemented in the body, in source order.
    pub items: Vec<Span>,
    /// The implemented trait, or `None` when the declaration is an inherent
    /// impl.
    pub trait_ref: Option<TraitRef>,
    /// Location of the whole declaration.
    pub span: Span,
}

/// Mathematical value of an [`ImplDecl`].
pub struct ImplDeclV {
    pub unsafety: Option<Span>,
    pub generic_params: Seq<Span>,
    pub items: Seq<Span>,
    pub trait_ref: Option<TraitRefV>,
    pub span: Span,
}

impl View for ImplDecl {
    type V = ImplDeclV;

    open spec fn view(&self) -> ImplDeclV {
        ImplDeclV {
            unsafety: self.unsafety,
            generic_params: self.generic_params@,
            items: self.items@,
            trait_ref: match &self.trait_ref {
                Option::Some(t) => Option::Some(t@),
                Option::None => Option::None,
            },
            span: self.span,
        }
    }
}

} // verus!
