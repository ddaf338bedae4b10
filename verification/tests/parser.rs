use bridge_parser::constructor::{role_of, Constructor, ConstructorArguments};
use bridge_parser::errors::{ErrorKind, ParseError, Role};
use bridge_parser::span::Span;
use bridge_parser::syntax::{GenericArg, Ident, ImplDecl, TraitRef, TypeExpr, TypeName};

fn sp(n: usize) -> Span {
    Span::new(n, 0, n, 1)
}

fn tn(text: &str, n: usize) -> TypeName {
    TypeName { text: text.to_string(), span: sp(n) }
}

fn tuple(elems: Vec<TypeName>, n: usize) -> TypeExpr {
    TypeExpr::Tuple { elems, span: sp(n) }
}

fn non_tuple(text: &str, n: usize) -> TypeExpr {
    TypeExpr::Other { ty: tn(text, n) }
}

fn binding(name: &str, ty: TypeExpr, n: usize) -> GenericArg {
    GenericArg::AssocType { name: Ident { name: name.to_string(), span: sp(n) }, ty, span: sp(n) }
}

fn trait_ref(args: Option<Vec<GenericArg>>) -> TraitRef {
    TraitRef { span: sp(100), args }
}

fn decl(args: Option<Vec<GenericArg>>) -> ImplDecl {
    ImplDecl {
        unsafety: None,
        generic_params: vec![],
        items: vec![],
        trait_ref: Some(trait_ref(args)),
        span: sp(200),
    }
}

// --- The argument-list parser ---

#[test]
fn argument_list_keeps_order() {
    let ty = tuple(vec![tn("i32", 1), tn("QString", 2), tn("bool", 3)], 4);
    let parsed = Constructor::parse_argument_list(&ty).unwrap();
    assert_eq!(parsed, vec![tn("i32", 1), tn("QString", 2), tn("bool", 3)]);
}

#[test]
fn argument_list_empty_tuple_is_valid() {
    let ty = tuple(vec![], 1);
    assert_eq!(Constructor::parse_argument_list(&ty).unwrap(), vec![]);
}

#[test]
fn argument_list_rejects_non_tuple() {
    let ty = non_tuple("i32", 7);
    let err = Constructor::parse_argument_list(&ty).unwrap_err();
    assert_eq!(err, ParseError { kind: ErrorKind::MalformedArgumentList, span: sp(7) });
}

// --- The associated-role resolver ---

#[test]
fn roles_resolve_in_any_order() {
    // Each role ends up in its slot wherever it stands in the list.
    let make = |names: [&str; 3]| {
        let args = vec![
            binding(names[0], tuple(vec![tn(names[0], 1)], 1), 11),
            binding(names[1], tuple(vec![tn(names[1], 2)], 2), 12),
            binding(names[2], tuple(vec![tn(names[2], 3)], 3), 13),
        ];
        Constructor::parse_associated_types(&args).unwrap()
    };
    let orders = [
        ["NewArguments", "BaseArguments", "InitializeArguments"],
        ["InitializeArguments", "NewArguments", "BaseArguments"],
        ["BaseArguments", "InitializeArguments", "NewArguments"],
    ];
    for names in orders {
        let rec = make(names);
        assert_eq!(rec.new.as_ref().unwrap()[0].text, "NewArguments");
        assert_eq!(rec.base.as_ref().unwrap()[0].text, "BaseArguments");
        assert_eq!(rec.initialize.as_ref().unwrap()[0].text, "InitializeArguments");
    }
}

#[test]
fn role_of_recognizes_the_three_roles() {
    assert_eq!(role_of(&"NewArguments".to_string()), Some(Role::NewArguments));
    assert_eq!(role_of(&"BaseArguments".to_string()), Some(Role::BaseArguments));
    assert_eq!(role_of(&"InitializeArguments".to_string()), Some(Role::InitializeArguments));
    assert_eq!(role_of(&"newarguments".to_string()), None);
    assert_eq!(role_of(&"Arguments".to_string()), None);
    assert_eq!(role_of(&"".to_string()), None);
}

#[test]
fn roles_order_identical_record() {
    // Same three bindings, different orders: identical records.
    let b1 = || binding("NewArguments", tuple(vec![tn("i32", 1)], 1), 11);
    let b2 = || binding("BaseArguments", tuple(vec![], 2), 12);
    let b3 = || binding("InitializeArguments", tuple(vec![tn("bool", 3)], 3), 13);
    let first = Constructor::parse_associated_types(&[b1(), b2(), b3()]).unwrap();
    let second = Constructor::parse_associated_types(&[b3(), b1(), b2()]).unwrap();
    let third = Constructor::parse_associated_types(&[b2(), b3(), b1()]).unwrap();
    assert_eq!(first, second);
    assert_eq!(first, third);
}

#[test]
fn duplicate_role_always_rejected() {
    // The duplicate is detected wherever the second occurrence stands,
    // and the diagnostic names the role and points at that occurrence.
    let dup = |args: Vec<GenericArg>, role, at: usize| {
        let err = Constructor::parse_associated_types(&args).unwrap_err();
        assert_eq!(err, ParseError { kind: ErrorKind::DuplicateConstructorRole(role), span: sp(at) });
    };
    dup(
        vec![
            binding("NewArguments", tuple(vec![], 1), 11),
            binding("NewArguments", tuple(vec![], 2), 12),
        ],
        Role::NewArguments,
        12,
    );
    dup(
        vec![
            binding("BaseArguments", tuple(vec![], 1), 11),
            binding("NewArguments", tuple(vec![], 2), 12),
            binding("BaseArguments", tuple(vec![], 3), 13),
        ],
        Role::BaseArguments,
        13,
    );
    dup(
        vec![
            binding("InitializeArguments", tuple(vec![], 1), 11),
            binding("InitializeArguments", tuple(vec![tn("i32", 9)], 2), 12),
        ],
        Role::InitializeArguments,
        12,
    );
}

#[test]
fn unknown_role_always_rejected() {
    let args = vec![
        binding("NewArguments", tuple(vec![], 1), 11),
        binding("ExtraArguments", tuple(vec![], 2), 12),
        binding("BaseArguments", tuple(vec![], 3), 13),
    ];
    let err = Constructor::parse_associated_types(&args).unwrap_err();
    assert_eq!(err, ParseError { kind: ErrorKind::UnknownConstructorRole, span: sp(12) });
}

#[test]
fn positional_argument_in_tail_rejected() {
    let args = vec![
        binding("NewArguments", tuple(vec![], 1), 11),
        GenericArg::Type { ty: tuple(vec![], 5) },
    ];
    let err = Constructor::parse_associated_types(&args).unwrap_err();
    assert_eq!(err, ParseError { kind: ErrorKind::ExpectedAssociatedRole, span: sp(5) });
}

#[test]
fn lifetime_in_tail_rejected() {
    let args = vec![GenericArg::Other { span: sp(5) }];
    let err = Constructor::parse_associated_types(&args).unwrap_err();
    assert_eq!(err, ParseError { kind: ErrorKind::ExpectedAssociatedRole, span: sp(5) });
}

// --- The generic-shape validator ---

#[test]
fn empty_generic_list_rejected() {
    let err = Constructor::parse_generics(sp(100), &[]).unwrap_err();
    assert_eq!(err, ParseError { kind: ErrorKind::MissingConstructorArguments, span: sp(100) });
}

#[test]
fn absent_generic_list_rejected() {
    let err = Constructor::parse_arguments(&trait_ref(None)).unwrap_err();
    assert_eq!(err, ParseError { kind: ErrorKind::MissingConstructorArguments, span: sp(100) });
}

#[test]
fn leading_named_binding_rejected() {
    // The first generic argument must be positional; a named binding
    // there is rejected at that argument, not at the trait path.
    let args = vec![binding("NewArguments", tuple(vec![], 1), 11)];
    let err = Constructor::parse_generics(sp(100), &args).unwrap_err();
    assert_eq!(err, ParseError { kind: ErrorKind::ExpectedArgumentTuple, span: sp(11) });
}

#[test]
fn leading_argument_must_be_tuple() {
    let args = vec![GenericArg::Type { ty: non_tuple("i32", 7) }];
    let err = Constructor::parse_generics(sp(100), &args).unwrap_err();
    assert_eq!(err, ParseError { kind: ErrorKind::MalformedArgumentList, span: sp(7) });
}

// --- The contract builder: declaration preconditions ---

#[test]
fn unsafe_declaration_rejected() {
    let mut d = decl(Some(vec![GenericArg::Type { ty: tuple(vec![], 1) }]));
    d.unsafety = Some(sp(42));
    let err = Constructor::parse(d).unwrap_err();
    assert_eq!(err, ParseError { kind: ErrorKind::UnnecessaryUnsafe, span: sp(42) });
}

#[test]
fn generic_parameters_rejected() {
    let mut d = decl(Some(vec![GenericArg::Type { ty: tuple(vec![], 1) }]));
    d.generic_params = vec![sp(43), sp(44)];
    let err = Constructor::parse(d).unwrap_err();
    assert_eq!(err, ParseError { kind: ErrorKind::GenericsNotAllowed, span: sp(43) });
}

#[test]
fn implemented_items_rejected() {
    let mut d = decl(Some(vec![GenericArg::Type { ty: tuple(vec![], 1) }]));
    d.items = vec![sp(45), sp(46)];
    let err = Constructor::parse(d).unwrap_err();
    assert_eq!(err, ParseError { kind: ErrorKind::MustBeDeclarationOnly, span: sp(45) });
}

#[test]
fn non_trait_impl_rejected() {
    let mut d = decl(None);
    d.trait_ref = None;
    let err = Constructor::parse(d).unwrap_err();
    assert_eq!(err, ParseError { kind: ErrorKind::ExpectedTraitImpl, span: sp(200) });
}

#[test]
fn precondition_checks_are_ordered_and_independent() {
    // Each precondition fires on its own even when the generic shape is
    // perfectly valid; when several are violated the unsafety qualifier
    // is reported first, then the generic parameters, then the items.
    let mut d = decl(Some(vec![GenericArg::Type { ty: tuple(vec![], 1) }]));
    d.unsafety = Some(sp(42));
    d.generic_params = vec![sp(43)];
    d.items = vec![sp(44)];
    let err = Constructor::parse(d).unwrap_err();
    assert_eq!(err.kind, ErrorKind::UnnecessaryUnsafe);

    let mut d = decl(Some(vec![GenericArg::Type { ty: tuple(vec![], 1) }]));
    d.generic_params = vec![sp(43)];
    d.items = vec![sp(44)];
    let err = Constructor::parse(d).unwrap_err();
    assert_eq!(err.kind, ErrorKind::GenericsNotAllowed);
}

// --- End-to-end scenarios ---

#[test]
fn scenario_no_role_bindings() {
    // Constructor<(i32, QString)>
    let d = decl(Some(vec![GenericArg::Type {
        ty: tuple(vec![tn("i32", 1), tn("QString", 2)], 3),
    }]));
    let c = Constructor::parse(d).unwrap();
    assert_eq!(c.arguments, vec![tn("i32", 1), tn("QString", 2)]);
    assert_eq!(c.new_arguments, None);
    assert_eq!(c.base_arguments, None);
    assert_eq!(c.initialize_arguments, None);
}

#[test]
fn scenario_some_role_bindings() {
    // Constructor<(i32,), NewArguments = (i32,), BaseArguments = ()>
    let d = decl(Some(vec![
        GenericArg::Type { ty: tuple(vec![tn("i32", 1)], 2) },
        binding("NewArguments", tuple(vec![tn("i32", 3)], 4), 11),
        binding("BaseArguments", tuple(vec![], 5), 12),
    ]));
    let c = Constructor::parse(d).unwrap();
    assert_eq!(c.arguments, vec![tn("i32", 1)]);
    assert_eq!(c.new_arguments, Some(vec![tn("i32", 3)]));
    assert_eq!(c.base_arguments, Some(vec![]));
    assert_eq!(c.initialize_arguments, None);
}

#[test]
fn scenario_single_type_without_trailing_comma() {
    // Constructor<(), NewArguments = (bool)>: a parenthesized single type
    // is not a tuple, so the binding's argument list is malformed.
    let d = decl(Some(vec![
        GenericArg::Type { ty: tuple(vec![], 1) },
        binding("NewArguments", non_tuple("bool", 7), 11),
    ]));
    let err = Constructor::parse(d).unwrap_err();
    assert_eq!(err, ParseError { kind: ErrorKind::MalformedArgumentList, span: sp(7) });
}

#[test]
fn scenario_duplicate_new_arguments() {
    // Constructor<(i32,), NewArguments = (i32,), NewArguments = (i32,)>
    let d = decl(Some(vec![
        GenericArg::Type { ty: tuple(vec![tn("i32", 1)], 2) },
        binding("NewArguments", tuple(vec![tn("i32", 3)], 4), 11),
        binding("NewArguments", tuple(vec![tn("i32", 5)], 6), 12),
    ]));
    let err = Constructor::parse(d).unwrap_err();
    assert_eq!(
        err,
        ParseError { kind: ErrorKind::DuplicateConstructorRole(Role::NewArguments), span: sp(12) }
    );
}

#[test]
fn contract_keeps_declaration() {
    let d = decl(Some(vec![GenericArg::Type { ty: tuple(vec![], 1) }]));
    let expected = decl(Some(vec![GenericArg::Type { ty: tuple(vec![], 1) }]));
    let c = Constructor::parse(d).unwrap();
    assert_eq!(c.imp, expected);
}

// --- Diagnostics ---

#[test]
fn messages_are_attributed() {
    let e = ParseError { kind: ErrorKind::MalformedArgumentList, span: sp(1) };
    assert_eq!(
        e.message(),
        "Expected a tuple as argument list!\nNote that a tuple of a single type needs to use a trailing comma, e.g. (i32,)"
    );
    let e = ParseError { kind: ErrorKind::UnknownConstructorRole, span: sp(1) };
    assert_eq!(e.message(), "Unknown associated type!");
    let e = ParseError { kind: ErrorKind::ExpectedAssociatedRole, span: sp(1) };
    assert_eq!(e.message(), "Expected associated type as a generic argument!");
    let e = ParseError { kind: ErrorKind::MissingConstructorArguments, span: sp(1) };
    assert_eq!(e.message(), "Missing generic argument for Constructor!");
    let e = ParseError { kind: ErrorKind::ExpectedArgumentTuple, span: sp(1) };
    assert_eq!(e.message(), "Constructor expects a tuple as the first generic argument");
    let e = ParseError { kind: ErrorKind::UnnecessaryUnsafe, span: sp(1) };
    assert_eq!(e.message(), "Unnecessary unsafe around constructor impl.");
    let e = ParseError { kind: ErrorKind::GenericsNotAllowed, span: sp(1) };
    assert_eq!(e.message(), "Generics are not allowed on Constructor impls!");
    let e = ParseError { kind: ErrorKind::MustBeDeclarationOnly, span: sp(1) };
    assert_eq!(e.message(), "Constructor must only be declared, not implemented!");
    let e = ParseError { kind: ErrorKind::ExpectedTraitImpl, span: sp(1) };
    assert_eq!(e.message(), "Expected trait impl!");
}

#[test]
fn duplicate_message_names_the_role() {
    let e = ParseError { kind: ErrorKind::DuplicateConstructorRole(Role::NewArguments), span: sp(1) };
    assert_eq!(e.message(), "Duplicate associated type definition: NewArguments");
    let e = ParseError {
        kind: ErrorKind::DuplicateConstructorRole(Role::InitializeArguments),
        span: sp(1),
    };
    assert_eq!(e.message(), "Duplicate associated type definition: InitializeArguments");
}

#[test]
fn role_names() {
    assert_eq!(Role::NewArguments.name(), "NewArguments");
    assert_eq!(Role::BaseArguments.name(), "BaseArguments");
    assert_eq!(Role::InitializeArguments.name(), "InitializeArguments");
}

#[test]
fn default_role_record_is_empty() {
    let a = ConstructorArguments::default();
    assert_eq!(a.new, None);
    assert_eq!(a.base, None);
    assert_eq!(a.initialize, None);
}
