use vstd::prelude::*;

use crate::constructor::{
    spec_parse_associated_types, spec_role_of, ConstructorArgumentsV,
};
use crate::errors::{ErrorKind, ParseError, Role};
use crate::syntax::{GenericArgV, TypeExprV, TypeNameV};

verus! {

// ---------------------------------------------------------------------------
// Laws of the associated-role resolver.
//
// The resolver's behaviour is pinned down operationally by
// `spec_parse_associated_types`, which scans the bindings in source order.
// The lemmas here state the declarative consequences: on well-formed
// bindings the scan order does not matter, a duplicated role is always
// rejected under that duplicate's name, and an unrecognized role name is
// always rejected even when every other binding is valid.
// ---------------------------------------------------------------------------

/// The role a generic argument binds, when it is a named binding with a
/// recognized role name.
pub open spec fn binding_role(g: GenericArgV) -> Option<Role> {
    match g {
        GenericArgV::AssocType { name, .. } => spec_role_of(name.name),
        _ => Option::None,
    }
}

/// A named binding with a recognized role name and a tuple-shaped type:
/// the only shape of tail argument the resolver accepts.
pub open spec fn is_valid_role_binding(g: GenericArgV) -> bool {
    match g {
        GenericArgV::AssocType { name, ty, .. } => spec_role_of(name.name) is Some
            && ty matches TypeExprV::Tuple { .. },
        _ => false,
    }
}

/// The element types bound by a valid role binding.
pub open spec fn binding_elems(g: GenericArgV) -> Seq<TypeNameV> {
    match g {
        GenericArgV::AssocType { ty: TypeExprV::Tuple { elems, .. }, .. } => elems,
        _ => Seq::empty(),
    }
}

/// Every argument is a valid role binding.
pub open spec fn all_valid_role_bindings(s: Seq<GenericArgV>) -> bool {
    forall|i: int| 0 <= i < s.len() ==> is_valid_role_binding(#[trigger] s[i])
}

/// No two arguments bind the same role.
pub open spec fn roles_distinct(s: Seq<GenericArgV>) -> bool {
    forall|i: int, j: int|
        0 <= i < j < s.len() ==> binding_role(#[trigger] s[i]) != binding_role(#[trigger] s[j])
}

/// The argument list bound to `role` by the first binding that carries it.
pub open spec fn spec_find_role(s: Seq<GenericArgV>, role: Role) -> Option<Seq<TypeNameV>>
    decreases s.len(),
{
    if s.len() == 0 {
        Option::None
    } else if binding_role(s[0]) == Option::Some(role) {
        Option::Some(binding_elems(s[0]))
    } else {
        spec_find_role(s.drop_first(), role)
    }
}

/// A role is found among some bindings exactly when one of them carries it.
proof fn lemma_find_role_exists(s: Seq<GenericArgV>, role: Role)
    ensures
        (spec_find_role(s, role) is Some) <==> (exists|i: int|
            0 <= i < s.len() && binding_role(#[trigger] s[i]) == Option::Some(role)),
    decreases s.len(),
{
    if s.len() == 0 {
    } else if binding_role(s[0]) == Option::Some(role) {
    } else {
        let t = s.drop_first();
        lemma_find_role_exists(t, role);
        if spec_find_role(s, role) is Some {
            let i = choose|i: int| 0 <= i < t.len() && binding_role(#[trigger] t[i])
                == Option::Some(role);
            assert(binding_role(s[i + 1]) == Option::Some(role));
        }
        if exists|i: int| 0 <= i < s.len() && binding_role(#[trigger] s[i]) == Option::Some(role) {
            let i = choose|i: int| 0 <= i < s.len() && binding_role(#[trigger] s[i])
                == Option::Some(role);
            assert(binding_role(t[i - 1]) == Option::Some(role));
        }
    }
}

/// With pairwise-distinct roles, whichever binding carries a role is the
/// one the resolver finds.
proof fn lemma_find_role_unique(s: Seq<GenericArgV>, role: Role, i: int)
    requires
        roles_distinct(s),
        0 <= i < s.len(),
        binding_role(s[i]) == Option::Some(role),
    ensures
        spec_find_role(s, role) == Option::Some(binding_elems(s[i])),
    decreases s.len(),
{
    if i == 0 {
    } else {
        let t = s.drop_first();
        assert(roles_distinct(t)) by {
            assert forall|a: int, b: int| 0 <= a < b < t.len() implies binding_role(#[trigger] t[a])
                != binding_role(#[trigger] t[b]) by {
                assert(t[a] == s[a + 1] && t[b] == s[b + 1]);
            }
        }
        assert(t[i - 1] == s[i]);
        lemma_find_role_unique(t, role, i - 1);
    }
}

/// On valid, pairwise-distinct bindings the resolver succeeds, and each
/// role of the result is exactly what `spec_find_role` names: the list
/// bound by the one binding carrying that role, or what `acc` already held.
proof fn lemma_resolve_characterization(s: Seq<GenericArgV>, acc: ConstructorArgumentsV)
    requires
        all_valid_role_bindings(s),
        roles_distinct(s),
        forall|i: int|
            0 <= i < s.len() ==> acc.get(binding_role(#[trigger] s[i])->Some_0) is None,
    ensures
        spec_parse_associated_types(s, acc) is Ok,
        forall|role: Role| #![auto]
            spec_parse_associated_types(s, acc)->Ok_0.get(role) == (match spec_find_role(s, role) {
                Option::Some(e) => Option::Some(e),
                Option::None => acc.get(role),
            }),
    decreases s.len(),
{
    if s.len() == 0 {
    } else {
        let g = s[0];
        let role0 = binding_role(g)->Some_0;
        let elems0 = binding_elems(g);
        let acc2 = acc.set(role0, elems0);
        let t = s.drop_first();
        assert forall|i: int| 0 <= i < t.len() implies is_valid_role_binding(#[trigger] t[i])
            && binding_role(t[i]) != Option::Some(role0) by {
            assert(t[i] == s[i + 1]);
        }
        assert(roles_distinct(t)) by {
            assert forall|a: int, b: int| 0 <= a < b < t.len() implies binding_role(#[trigger] t[a])
                != binding_role(#[trigger] t[b]) by {
                assert(t[a] == s[a + 1] && t[b] == s[b + 1]);
            }
        }
        assert forall|i: int|
            0 <= i < t.len() implies acc2.get(binding_role(#[trigger] t[i])->Some_0) is None by {
            assert(t[i] == s[i + 1]);
        }
        lemma_resolve_characterization(t, acc2);
        lemma_find_role_exists(t, role0);
        assert(spec_find_role(t, role0) is None);
        assert forall|role: Role| #![auto]
            spec_parse_associated_types(s, acc)->Ok_0.get(role) == (match spec_find_role(s, role) {
                Option::Some(e) => Option::Some(e),
                Option::None => acc.get(role),
            }) by {
            if role == role0 {
                assert(spec_find_role(s, role) == Option::Some(elems0));
            } else {
                assert(spec_find_role(s, role) == spec_find_role(t, role));
                assert(acc2.get(role) == acc.get(role));
            }
        }
    }
}

/// Order independence of role resolution: two tails of a generic-argument
/// list that consist of the same valid bindings, each binding each role at
/// most once, resolve to the same role record, whatever order the bindings
/// are written in.
pub proof fn lemma_roles_order_independent(s1: Seq<GenericArgV>, s2: Seq<GenericArgV>)
    requires
        all_valid_role_bindings(s1),
        all_valid_role_bindings(s2),
        roles_distinct(s1),
        roles_distinct(s2),
        forall|g: GenericArgV| s1.contains(g) <==> s2.contains(g),
    ensures
        spec_parse_associated_types(s1, ConstructorArgumentsV::empty()) is Ok,
        spec_parse_associated_types(s2, ConstructorArgumentsV::empty())
            == spec_parse_associated_types(s1, ConstructorArgumentsV::empty()),
{
    let empty = ConstructorArgumentsV::empty();
    lemma_resolve_characterization(s1, empty);
    lemma_resolve_characterization(s2, empty);
    assert forall|role: Role| spec_find_role(s1, role) == spec_find_role(s2, role) by {
        lemma_find_role_exists(s1, role);
        lemma_find_role_exists(s2, role);
        if exists|i: int| 0 <= i < s1.len() && binding_role(#[trigger] s1[i])
            == Option::Some(role) {
            let i = choose|i: int| 0 <= i < s1.len() && binding_role(#[trigger] s1[i])
                == Option::Some(role);
            let g = s1[i];
            assert(s1.contains(g));
            assert(s2.contains(g));
            let j = choose|j: int| 0 <= j < s2.len() && s2[j] == g;
            lemma_find_role_unique(s1, role, i);
            lemma_find_role_unique(s2, role, j);
        } else {
            if exists|j: int| 0 <= j < s2.len() && binding_role(#[trigger] s2[j])
                == Option::Some(role) {
                let j = choose|j: int| 0 <= j < s2.len() && binding_role(#[trigger] s2[j])
                    == Option::Some(role);
                let g = s2[j];
                assert(s2.contains(g));
                assert(s1.contains(g));
                let i = choose|i: int| 0 <= i < s1.len() && s1[i] == g;
                assert(binding_role(s1[i]) == Option::Some(role));
                assert(false);
            }
        }
    }
    let r1 = spec_parse_associated_types(s1, empty)->Ok_0;
    let r2 = spec_parse_associated_types(s2, empty)->Ok_0;
    assert(r1.new == r2.new) by {
        assert(r1.get(Role::NewArguments) == r2.get(Role::NewArguments));
    }
    assert(r1.base == r2.base) by {
        assert(r1.get(Role::BaseArguments) == r2.get(Role::BaseArguments));
    }
    assert(r1.initialize == r2.initialize) by {
        assert(r1.get(Role::InitializeArguments) == r2.get(Role::InitializeArguments));
    }
}

/// When every binding up to `k` resolves cleanly but the role of `s[k]` is
/// already bound in `acc`, the scan stops at `s[k]` with a duplicate-role
/// diagnostic naming that role.
proof fn lemma_resolve_stops_at_set_role(s: Seq<GenericArgV>, acc: ConstructorArgumentsV, k: int)
    requires
        all_valid_role_bindings(s),
        roles_distinct(s),
        0 <= k < s.len(),
        acc.get(binding_role(s[k])->Some_0) is Some,
        forall|m: int|
            0 <= m < s.len() && m != k ==> acc.get(binding_role(#[trigger] s[m])->Some_0) is None,
    ensures
        spec_parse_associated_types(s, acc) == Result::<ConstructorArgumentsV, ParseError>::Err(
            ParseError {
                kind: ErrorKind::DuplicateConstructorRole(binding_role(s[k])->Some_0),
                span: s[k].spec_span(),
            },
        ),
    decreases s.len(),
{
    let g = s[0];
    let role0 = binding_role(g)->Some_0;
    if k == 0 {
    } else {
        let acc2 = acc.set(role0, binding_elems(g));
        let t = s.drop_first();
        assert forall|i: int| 0 <= i < t.len() implies is_valid_role_binding(#[trigger] t[i]) by {
            assert(t[i] == s[i + 1]);
        }
        assert(roles_distinct(t)) by {
            assert forall|a: int, b: int| 0 <= a < b < t.len() implies binding_role(#[trigger] t[a])
                != binding_role(#[trigger] t[b]) by {
                assert(t[a] == s[a + 1] && t[b] == s[b + 1]);
            }
        }
        assert(t[k - 1] == s[k]);
        assert(binding_role(s[k]) != binding_role(s[0]));
        assert(acc2.get(binding_role(t[k - 1])->Some_0) is Some);
        assert forall|m: int|
            0 <= m < t.len() && m != k - 1 implies acc2.get(
            binding_role(#[trigger] t[m])->Some_0) is None by {
            assert(t[m] == s[m + 1]);
            assert(binding_role(s[m + 1]) != binding_role(s[0]));
        }
        lemma_resolve_stops_at_set_role(t, acc2, k - 1);
    }
}

/// Binding the same role twice always fails with a duplicate-role
/// diagnostic naming that role and pointing at the second binding; the
/// first binding is never silently overwritten. `i` and `j` are the two
/// positions carrying the same role; every other pair of bindings is
/// distinct.
pub proof fn lemma_duplicate_role_rejected(s: Seq<GenericArgV>, i: int, j: int)
    requires
        all_valid_role_bindings(s),
        0 <= i < j < s.len(),
        binding_role(s[i]) == binding_role(s[j]),
        forall|a: int, b: int|
            0 <= a < b < s.len() && !(a == i && b == j) ==> binding_role(#[trigger] s[a])
                != binding_role(#[trigger] s[b]),
    ensures
        spec_parse_associated_types(s, ConstructorArgumentsV::empty()) == Result::<
            ConstructorArgumentsV,
            ParseError,
        >::Err(
            ParseError {
                kind: ErrorKind::DuplicateConstructorRole(binding_role(s[i])->Some_0),
                span: s[j].spec_span(),
            },
        ),
{
    lemma_duplicate_role_rejected_from(s, ConstructorArgumentsV::empty(), i, j);
}

/// Generalization of `lemma_duplicate_role_rejected` over the roles
/// already bound when the scan starts.
proof fn lemma_duplicate_role_rejected_from(
    s: Seq<GenericArgV>,
    acc: ConstructorArgumentsV,
    i: int,
    j: int,
)
    requires
        all_valid_role_bindings(s),
        0 <= i < j < s.len(),
        binding_role(s[i]) == binding_role(s[j]),
        forall|a: int, b: int|
            0 <= a < b < s.len() && !(a == i && b == j) ==> binding_role(#[trigger] s[a])
                != binding_role(#[trigger] s[b]),
        forall|m: int| 0 <= m < s.len() ==> acc.get(binding_role(#[trigger] s[m])->Some_0) is None,
    ensures
        spec_parse_associated_types(s, acc) == Result::<ConstructorArgumentsV, ParseError>::Err(
            ParseError {
                kind: ErrorKind::DuplicateConstructorRole(binding_role(s[i])->Some_0),
                span: s[j].spec_span(),
            },
        ),
    decreases s.len(),
{
    let g = s[0];
    let role0 = binding_role(g)->Some_0;
    let acc2 = acc.set(role0, binding_elems(g));
    let t = s.drop_first();
    assert forall|m: int| 0 <= m < t.len() implies #[trigger] t[m] == s[m + 1] by {}
    assert forall|m: int| 0 <= m < t.len() implies is_valid_role_binding(#[trigger] t[m]) by {
        assert(t[m] == s[m + 1]);
    }
    if i == 0 {
        // The tail is duplicate-free; the scan runs until it meets `s[j]`,
        // whose role was bound by `s[0]`.
        assert(roles_distinct(t)) by {
            assert forall|a: int, b: int| 0 <= a < b < t.len() implies binding_role(#[trigger] t[a])
                != binding_role(#[trigger] t[b]) by {
                assert(t[a] == s[a + 1] && t[b] == s[b + 1]);
            }
        }
        assert(acc2.get(binding_role(t[j - 1])->Some_0) is Some);
        assert forall|m: int|
            0 <= m < t.len() && m != j - 1 implies acc2.get(
            binding_role(#[trigger] t[m])->Some_0) is None by {
            assert(t[m] == s[m + 1]);
            assert(binding_role(s[m + 1]) != binding_role(s[0]));
        }
        lemma_resolve_stops_at_set_role(t, acc2, j - 1);
    } else {
        assert forall|a: int, b: int|
            0 <= a < b < t.len() && !(a == i - 1 && b == j - 1) implies binding_role(
            #[trigger] t[a]) != binding_role(#[trigger] t[b]) by {
            assert(t[a] == s[a + 1] && t[b] == s[b + 1]);
        }
        assert forall|m: int|
            0 <= m < t.len() implies acc2.get(binding_role(#[trigger] t[m])->Some_0) is None by {
            assert(t[m] == s[m + 1]);
            assert(binding_role(s[m + 1]) != binding_role(s[0]));
        }
        lemma_duplicate_role_rejected_from(t, acc2, i - 1, j - 1);
    }
}

/// A named binding with an unrecognized name always fails with an
/// unknown-role diagnostic pointing at that binding, even when every other
/// binding is valid and the roles are distinct.
pub proof fn lemma_unknown_role_rejected(s: Seq<GenericArgV>, k: int)
    requires
        forall|m: int| 0 <= m < s.len() ==> #[trigger] s[m] matches GenericArgV::AssocType { .. },
        forall|m: int| 0 <= m < s.len() && m != k ==> is_valid_role_binding(#[trigger] s[m]),
        forall|a: int, b: int|
            0 <= a < b < s.len() && a != k && b != k ==> binding_role(#[trigger] s[a])
                != binding_role(#[trigger] s[b]),
        0 <= k < s.len(),
        binding_role(s[k]) is None,
    ensures
        spec_parse_associated_types(s, ConstructorArgumentsV::empty()) == Result::<
            ConstructorArgumentsV,
            ParseError,
        >::Err(ParseError { kind: ErrorKind::UnknownConstructorRole, span: s[k].spec_span() }),
{
    lemma_unknown_role_rejected_from(s, ConstructorArgumentsV::empty(), k);
}

/// Generalization of `lemma_unknown_role_rejected` over the roles already
/// bound when the scan starts.
proof fn lemma_unknown_role_rejected_from(
    s: Seq<GenericArgV>,
    acc: ConstructorArgumentsV,
    k: int,
)
    requires
        forall|m: int| 0 <= m < s.len() ==> #[trigger] s[m] matches GenericArgV::AssocType { .. },
        forall|m: int| 0 <= m < s.len() && m != k ==> is_valid_role_binding(#[trigger] s[m]),
        forall|a: int, b: int|
            0 <= a < b < s.len() && a != k && b != k ==> binding_role(#[trigger] s[a])
                != binding_role(#[trigger] s[b]),
        forall|m: int|
            0 <= m < s.len() && m != k ==> acc.get(binding_role(#[trigger] s[m])->Some_0) is None,
        0 <= k < s.len(),
        binding_role(s[k]) is None,
    ensures
        spec_parse_associated_types(s, acc) == Result::<ConstructorArgumentsV, ParseError>::Err(
            ParseError { kind: ErrorKind::UnknownConstructorRole, span: s[k].spec_span() },
        ),
    decreases s.len(),
{
    if k == 0 {
    } else {
        let g = s[0];
        let role0 = binding_role(g)->Some_0;
        let acc2 = acc.set(role0, binding_elems(g));
        let t = s.drop_first();
        assert forall|m: int|
            0 <= m < t.len() implies #[trigger] t[m] matches GenericArgV::AssocType { .. } by {
            assert(t[m] == s[m + 1]);
        }
        assert forall|m: int|
            0 <= m < t.len() && m != k - 1 implies is_valid_role_binding(#[trigger] t[m]) by {
            assert(t[m] == s[m + 1]);
        }
        assert forall|a: int, b: int|
            0 <= a < b < t.len() && a != k - 1 && b != k - 1 implies binding_role(#[trigger] t[a])
                != binding_role(#[trigger] t[b]) by {
            assert(t[a] == s[a + 1] && t[b] == s[b + 1]);
        }
        assert forall|m: int|
            0 <= m < t.len() && m != k - 1 implies acc2.get(
            binding_role(#[trigger] t[m])->Some_0) is None by {
            assert(t[m] == s[m + 1]);
            assert(binding_role(s[m + 1]) != binding_role(s[0]));
        }
        assert(t[k - 1] == s[k]);
        lemma_unknown_role_rejected_from(t, acc2, k - 1);
    }
}

} // verus!
