use vstd::prelude::*;

use crate::errors::{ErrorKind, ParseError, Role};
use crate::span::Span;
use crate::syntax::{
    args_view, names_view, GenericArg, GenericArgV, ImplDecl, ImplDeclV, TraitRef, TraitRefV,
    TypeExpr, TypeExprV, TypeName, TypeNameV,
};

verus! {

// ---------------------------------------------------------------------------
// The role record.
// ---------------------------------------------------------------------------

/// The three optional role-specific argument lists of a constructor
/// contract. A role that never appears in the declaration stays `None`:
/// that construction phase receives no extra arguments from the caller.
#[derive(Debug, PartialEq, Eq)]
pub struct ConstructorArguments {
    /// Arguments to the function that produces the native-side value.
    pub new: Option<Vec<TypeName>>,
    /// Arguments forwarded to the foreign base-object constructor.
    pub base: Option<Vec<TypeName>>,
    /// Arguments to the hook run after the foreign object exists.
    pub initialize: Option<Vec<TypeName>>,
}

/// Mathematical value of a [`ConstructorArguments`].
pub struct ConstructorArgumentsV {
    pub new: Option<Seq<TypeNameV>>,
    pub base: Option<Seq<TypeNameV>>,
    pub initialize: Option<Seq<TypeNameV>>,
}

pub open spec fn opt_names_view(o: Option<Vec<TypeName>>) -> Option<Seq<TypeNameV>> {
    match o {
        Option::Some(v) => Option::Some(names_view(v@)),
        Option::None => Option::None,
    }
}

impl View for ConstructorArguments {
    type V = ConstructorArgumentsV;

    open spec fn view(&self) -> ConstructorArgumentsV {
        ConstructorArgumentsV {
            new: opt_names_view(self.new),
            base: opt_names_view(self.base),
            initialize: opt_names_view(self.initialize),
        }
    }
}

impl ConstructorArgumentsV {
    /// The record with every role unused.
    pub open spec fn empty() -> ConstructorArgumentsV {
        ConstructorArgumentsV { new: Option::None, base: Option::None, initialize: Option::None }
    }

    /// The argument list bound to `role`, if any.
    pub open spec fn get(self, role: Role) -> Option<Seq<TypeNameV>> {
        match role {
            Role::NewArguments => self.new,
            Role::BaseArguments => self.base,
            Role::InitializeArguments => self.initialize,
        }
    }

    /// This record with `role` bound to `elems`.
    pub open spec fn set(self, role: Role, elems: Seq<TypeNameV>) -> ConstructorArgumentsV {
        match role {
            Role::NewArguments => ConstructorArgumentsV { new: Option::Some(elems), ..self },
            Role::BaseArguments => ConstructorArgumentsV { base: Option::Some(elems), ..self },
            Role::InitializeArguments => ConstructorArgumentsV {
                initialize: Option::Some(elems),
                ..self
            },
        }
    }
}

impl Default for ConstructorArguments {
    /// The record with every role unused.
    fn default() -> (r: ConstructorArguments)
        ensures
            r@ == ConstructorArgumentsV::empty(),
    {
        ConstructorArguments { new: Option::None, base: Option::None, initialize: Option::None }
    }
}

// ---------------------------------------------------------------------------
// The constructor contract.
// ---------------------------------------------------------------------------

/// A parsed constructor contract: the validated, immutable record handed to
/// code emission.
#[derive(Debug, PartialEq, Eq)]
pub struct Constructor {
    /// The flat ordered list of types a caller must supply to invoke this
    /// constructor. Always present, possibly empty.
    pub arguments: Vec<TypeName>,

    /// Arguments to the function that produces the native-side value.
    pub new_arguments: Option<Vec<TypeName>>,
    /// Arguments forwarded to the foreign base-object constructor.
    pub base_arguments: Option<Vec<TypeName>>,
    /// Arguments to the hook run after the foreign object exists.
    pub initialize_arguments: Option<Vec<TypeName>>,

    /// The declaration this contract was parsed from, retained for
    /// span-accurate downstream diagnostics.
    pub imp: ImplDecl,
}

/// Mathematical value of a [`Constructor`].
pub struct ConstructorV {
    pub arguments: Seq<TypeNameV>,
    pub new_arguments: Option<Seq<TypeNameV>>,
    pub base_arguments: Option<Seq<TypeNameV>>,
    pub initialize_arguments: Option<Seq<TypeNameV>>,
    pub imp: ImplDeclV,
}

impl View for Constructor {
    type V = ConstructorV;

    open spec fn view(&self) -> ConstructorV {
        ConstructorV {
            arguments: names_view(self.arguments@),
            new_arguments: opt_names_view(self.new_arguments),
            base_arguments: opt_names_view(self.base_arguments),
            initialize_arguments: opt_names_view(self.initialize_arguments),
            imp: self.imp@,
        }
    }
}

// ---------------------------------------------------------------------------
// What parsing means, as spec functions. Each exec parser below is proved
// to return exactly what the corresponding spec function says.
// ---------------------------------------------------------------------------

/// The role a binding name denotes, if it is recognized.
pub open spec fn spec_role_of(name: Seq<char>) -> Option<Role> {
    if name == "NewArguments"@ {
        Option::Some(Role::NewArguments)
    } else if name == "BaseArguments"@ {
        Option::Some(Role::BaseArguments)
    } else if name == "InitializeArguments"@ {
        Option::Some(Role::InitializeArguments)
    } else {
        Option::None
    }
}

/// An argument list is exactly the element list of a tuple-shaped type;
/// any other type shape is malformed, spanned at the type itself.
pub open spec fn spec_parse_argument_list(ty: TypeExprV) -> Result<Seq<TypeNameV>, ParseError> {
    match ty {
        TypeExprV::Tuple { elems, .. } => Result::Ok(elems),
        TypeExprV::Other { ty } => Result::Err(
            ParseError { kind: ErrorKind::MalformedArgumentList, span: ty.span },
        ),
    }
}

/// Resolving the tail of the generic-argument list, scanning in order with
/// the roles bound so far in `acc`: each argument must be a named binding
/// with a recognized, not yet bound role name and a tuple-shaped type.
pub open spec fn spec_parse_associated_types(
    generics: Seq<GenericArgV>,
    acc: ConstructorArgumentsV,
) -> Result<ConstructorArgumentsV, ParseError>
    decreases generics.len(),
{
    if generics.len() == 0 {
        Result::Ok(acc)
    } else {
        match generics[0] {
            GenericArgV::AssocType { name, ty, span } => match spec_role_of(name.name) {
                Option::None => Result::Err(
                    ParseError { kind: ErrorKind::UnknownConstructorRole, span },
                ),
                Option::Some(role) => if acc.get(role) is Some {
                    Result::Err(
                        ParseError { kind: ErrorKind::DuplicateConstructorRole(role), span },
                    )
                } else {
                    match spec_parse_argument_list(ty) {
                        Result::Err(e) => Result::Err(e),
                        Result::Ok(elems) => spec_parse_associated_types(
                            generics.drop_first(),
                            acc.set(role, elems),
                        ),
                    }
                },
            },
            _ => Result::Err(
                ParseError {
                    kind: ErrorKind::ExpectedAssociatedRole,
                    span: generics[0].spec_span(),
                },
            ),
        }
    }
}

/// The expected generic shape: one leading positional tuple argument (the
/// flat constructor signature), then zero or more named role bindings.
pub open spec fn spec_parse_generics(trait_span: Span, generics: Seq<GenericArgV>) -> Result<
    (Seq<TypeNameV>, ConstructorArgumentsV),
    ParseError,
> {
    if generics.len() == 0 {
        Result::Err(ParseError { kind: ErrorKind::MissingConstructorArguments, span: trait_span })
    } else {
        match generics[0] {
            GenericArgV::Type { ty } => match spec_parse_argument_list(ty) {
                Result::Err(e) => Result::Err(e),
                Result::Ok(arguments) => match spec_parse_associated_types(
                    generics.drop_first(),
                    ConstructorArgumentsV::empty(),
                ) {
                    Result::Err(e) => Result::Err(e),
                    Result::Ok(roles) => Result::Ok((arguments, roles)),
                },
            },
            _ => Result::Err(
                ParseError { kind: ErrorKind::ExpectedArgumentTuple, span: generics[0].spec_span() },
            ),
        }
    }
}

/// Extracting the generic-argument list from the trait reference: an absent
/// list is rejected like an empty one, spanned at the trait path.
pub open spec fn spec_parse_arguments(trait_ref: TraitRefV) -> Result<
    (Seq<TypeNameV>, ConstructorArgumentsV),
    ParseError,
> {
    match trait_ref.args {
        Option::None => Result::Err(
            ParseError { kind: ErrorKind::MissingConstructorArguments, span: trait_ref.span },
        ),
        Option::Some(generics) => spec_parse_generics(trait_ref.span, generics),
    }
}

/// The whole pipeline: the declaration must carry no `unsafe` qualifier, no
/// generic parameters and no implemented items, and must be a trait impl;
/// then its trait reference is parsed and the contract assembled. The
/// precondition checks run in this order, each spanned at the smallest
/// offending fragment.
pub open spec fn spec_parse(imp: ImplDeclV) -> Result<ConstructorV, ParseError> {
    if imp.unsafety is Some {
        Result::Err(
            ParseError { kind: ErrorKind::UnnecessaryUnsafe, span: imp.unsafety->Some_0 },
        )
    } else if imp.generic_params.len() > 0 {
        Result::Err(
            ParseError { kind: ErrorKind::GenericsNotAllowed, span: imp.generic_params[0] },
        )
    } else if imp.items.len() > 0 {
        Result::Err(ParseError { kind: ErrorKind::MustBeDeclarationOnly, span: imp.items[0] })
    } else {
        match imp.trait_ref {
            Option::None => Result::Err(
                ParseError { kind: ErrorKind::ExpectedTraitImpl, span: imp.span },
            ),
            Option::Some(trait_ref) => match spec_parse_arguments(trait_ref) {
                Result::Err(e) => Result::Err(e),
                Result::Ok((arguments, roles)) => Result::Ok(
                    ConstructorV {
                        arguments,
                        new_arguments: roles.new,
                        base_arguments: roles.base,
                        initialize_arguments: roles.initialize,
                        imp,
                    },
                ),
            },
        }
    }
}

// ---------------------------------------------------------------------------
// The executable parsers.
// ---------------------------------------------------------------------------

/// The role a binding name denotes, if it is recognized.
pub fn role_of(name: &String) -> (r: Option<Role>)
    ensures
        r == spec_role_of(name@),
{
    if *name == String::from_str("NewArguments") {
        Option::Some(Role::NewArguments)
    } else if *name == String::from_str("BaseArguments") {
        Option::Some(Role::BaseArguments)
    } else if *name == String::from_str("InitializeArguments") {
        Option::Some(Role::InitializeArguments)
    } else {
        Option::None
    }
}

impl Constructor {
    /// Turns a tuple-shaped type into its ordered element list; any other
    /// type shape is rejected as a malformed argument list.
    pub fn parse_argument_list(ty: &TypeExpr) -> (r: Result<Vec<TypeName>, ParseError>)
        ensures
            (match r {
                Result::Ok(v) => spec_parse_argument_list(ty@) == Result::<
                    Seq<TypeNameV>,
                    ParseError,
                >::Ok(names_view(v@)),
                Result::Err(e) => spec_parse_argument_list(ty@) == Result::<
                    Seq<TypeNameV>,
                    ParseError,
                >::Err(e),
            }),
    {
        match ty {
            TypeExpr::Tuple { elems, .. } => {
                let mut out: Vec<TypeName> = Vec::new();
                let mut i: usize = 0;
                while i < elems.len()
                    invariant
                        i <= elems.len(),
                        out@.len() == i,
                        forall|j: int| 0 <= j < i ==> #[trigger] out@[j]@ == elems@[j]@,
                    decreases elems.len() - i,
                {
                    let e = &elems[i];
                    out.push(TypeName { text: e.text.clone(), span: e.span });
                    i += 1;
                }
                proof {
                    assert(names_view(out@) =~= names_view(elems@));
                }
                Result::Ok(out)
            },
            TypeExpr::Other { ty } => Result::Err(
                ParseError { kind: ErrorKind::MalformedArgumentList, span: ty.span },
            ),
        }
    }

    /// Classifies the tail of the generic-argument list into the three
    /// construction roles, rejecting unknown roles, duplicate roles,
    /// non-binding arguments and non-tuple bound types.
    pub fn parse_associated_types(generics: &[GenericArg]) -> (r: Result<
        ConstructorArguments,
        ParseError,
    >)
        ensures
            (match r {
                Result::Ok(a) => spec_parse_associated_types(
                    args_view(generics@),
                    ConstructorArgumentsV::empty(),
                ) == Result::<ConstructorArgumentsV, ParseError>::Ok(a@),
                Result::Err(e) => spec_parse_associated_types(
                    args_view(generics@),
                    ConstructorArgumentsV::empty(),
                ) == Result::<ConstructorArgumentsV, ParseError>::Err(e),
            }),
    {
        let ghost all = args_view(generics@);
        let mut arguments = ConstructorArguments::default();
        let mut i: usize = 0;
        proof {
            assert(all.skip(0) =~= all);
        }
        while i < generics.len()
            invariant
                i <= generics.len(),
                all == args_view(generics@),
                spec_parse_associated_types(all, ConstructorArgumentsV::empty())
                    == spec_parse_associated_types(all.skip(i as int), arguments@),
            decreases generics.len() - i,
        {
            proof {
                assert(all.skip(i as int)[0] == generics@[i as int]@);
                assert(all.skip(i as int).drop_first() =~= all.skip(i as int + 1));
            }
            match &generics[i] {
                GenericArg::AssocType { name, ty, span } => {
                    match role_of(&name.name) {
                        Option::None => {
                            return Result::Err(
                                ParseError { kind: ErrorKind::UnknownConstructorRole, span: *span },
                            );
                        },
                        Option::Some(role) => {
                            let already = match role {
                                Role::NewArguments => arguments.new.is_some(),
                                Role::BaseArguments => arguments.base.is_some(),
                                Role::InitializeArguments => arguments.initialize.is_some(),
                            };
                            if already {
                                return Result::Err(
                                    ParseError {
                                        kind: ErrorKind::DuplicateConstructorRole(role),
                                        span: *span,
                                    },
                                );
                            }
                            let elems = match Constructor::parse_argument_list(ty) {
                                Result::Err(e) => {
                                    return Result::Err(e);
                                },
                                Result::Ok(v) => v,
                            };
                            match role {
                                Role::NewArguments => {
                                    arguments.new = Option::Some(elems);
                                },
                                Role::BaseArguments => {
                                    arguments.base = Option::Some(elems);
                                },
                                Role::InitializeArguments => {
                                    arguments.initialize = Option::Some(elems);
                                },
                            }
                        },
                    }
                },
                other => {
                    return Result::Err(
                        ParseError { kind: ErrorKind::ExpectedAssociatedRole, span: other.span() },
                    );
                },
            }
            i += 1;
        }
        Result::Ok(arguments)
    }

    /// Validates the generic shape of the trait reference: a leading
    /// positional tuple argument, then zero or more named role bindings.
    pub fn parse_generics(trait_span: Span, generics: &[GenericArg]) -> (r: Result<
        (Vec<TypeName>, ConstructorArguments),
        ParseError,
    >)
        ensures
            (match r {
                Result::Ok(p) => spec_parse_generics(trait_span, args_view(generics@)) == Result::<
                    (Seq<TypeNameV>, ConstructorArgumentsV),
                    ParseError,
                >::Ok((names_view(p.0@), p.1@)),
                Result::Err(e) => spec_parse_generics(trait_span, args_view(generics@)) == Result::<
                    (Seq<TypeNameV>, ConstructorArgumentsV),
                    ParseError,
                >::Err(e),
            }),
    {
        if generics.len() == 0 {
            return Result::Err(
                ParseError { kind: ErrorKind::MissingConstructorArguments, span: trait_span },
            );
        }
        proof {
            assert(args_view(generics@)[0] == generics@[0]@);
        }
        match &generics[0] {
            GenericArg::Type { ty } => {
                let argument_types = match Constructor::parse_argument_list(ty) {
                    Result::Err(e) => {
                        return Result::Err(e);
                    },
                    Result::Ok(v) => v,
                };
                let tail = vstd::slice::slice_subrange(generics, 1, generics.len());
                proof {
                    assert(args_view(tail@) =~= args_view(generics@).drop_first());
                }
                let arguments = match Constructor::parse_associated_types(tail) {
                    Result::Err(e) => {
                        return Result::Err(e);
                    },
                    Result::Ok(a) => a,
                };
                Result::Ok((argument_types, arguments))
            },
            other => Result::Err(
                ParseError { kind: ErrorKind::ExpectedArgumentTuple, span: other.span() },
            ),
        }
    }

    /// Extracts the generic-argument list from the trait reference and
    /// validates its shape; an absent list is rejected like an empty one.
    pub fn parse_arguments(trait_ref: &TraitRef) -> (r: Result<
        (Vec<TypeName>, ConstructorArguments),
        ParseError,
    >)
        ensures
            (match r {
                Result::Ok(p) => spec_parse_arguments(trait_ref@) == Result::<
                    (Seq<TypeNameV>, ConstructorArgumentsV),
                    ParseError,
                >::Ok((names_view(p.0@), p.1@)),
                Result::Err(e) => spec_parse_arguments(trait_ref@) == Result::<
                    (Seq<TypeNameV>, ConstructorArgumentsV),
                    ParseError,
                >::Err(e),
            }),
    {
        match &trait_ref.args {
            Option::None => Result::Err(
                ParseError { kind: ErrorKind::MissingConstructorArguments, span: trait_ref.span },
            ),
            Option::Some(generics) => Constructor::parse_generics(
                trait_ref.span,
                generics.as_slice(),
            ),
        }
    }

    /// Parses one declaration into a constructor contract.
    ///
    /// The declaration must carry no `unsafe` qualifier, no generic
    /// parameters of its own and no implemented items, and must be a trait
    /// implementation; its trait reference must then have the generic shape
    /// checked by [`Constructor::parse_generics`]. Exactly the inputs
    /// [`spec_parse`] maps to `Ok` are accepted; every other declaration is
    /// rejected with the diagnostic [`spec_parse`] names, pointing at the
    /// smallest offending fragment.
    pub fn parse(imp: ImplDecl) -> (r: Result<Constructor, ParseError>)
        ensures
            (match r {
                Result::Ok(c) => spec_parse(imp@) == Result::<ConstructorV, ParseError>::Ok(c@),
                Result::Err(e) => spec_parse(imp@) == Result::<ConstructorV, ParseError>::Err(e),
            }),
    {
        if let Option::Some(span) = imp.unsafety {
            return Result::Err(ParseError { kind: ErrorKind::UnnecessaryUnsafe, span });
        }
        if imp.generic_params.len() > 0 {
            return Result::Err(
                ParseError { kind: ErrorKind::GenericsNotAllowed, span: imp.generic_params[0] },
            );
        }
        if imp.items.len() > 0 {
            return Result::Err(
                ParseError { kind: ErrorKind::MustBeDeclarationOnly, span: imp.items[0] },
            );
        }
        let parsed = match &imp.trait_ref {
            Option::None => {
                return Result::Err(
                    ParseError { kind: ErrorKind::ExpectedTraitImpl, span: imp.span },
                );
            },
            Option::Some(trait_ref) => match Constructor::parse_arguments(trait_ref) {
                Result::Err(e) => {
                    return Result::Err(e);
                },
                Result::Ok(p) => p,
            },
        };
        let (argument_list, arguments) = parsed;
        Result::Ok(
            Constructor {
                arguments: argument_list,
                new_arguments: arguments.new,
                base_arguments: arguments.base,
                initialize_arguments: arguments.initialize,
                imp,
            },
        )
    }
}

} // verus!
