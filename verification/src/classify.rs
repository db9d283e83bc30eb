//! The parameter classifier: every declared parameter gets exactly one role.
//!
//! An explicit role wins. A parameter without one that is named like a
//! placeholder of the path template fills that placeholder. A single parameter
//! that is left over becomes the body where the verb carries one. Anything else
//! is refused.

use vstd::prelude::*;
use vstd::multiset::Multiset;
use crate::attrs::{
    extract_path_placeholders, placeholders_of, HttpMethod, ParamKind,
};
use crate::error::CompilationError;
use crate::text::{contains_text, texts};
use crate::types::TypeDesc;

verus! {

/// A parameter as declared: its name, its type and, where given, its role.
#[derive(Debug)]
pub struct ParamDecl {
    /// The parameter's name.
    pub name: String,
    /// The declared type as written.
    pub declared_type: String,
    /// What the rules read from the declared type.
    pub ty: TypeDesc,
    /// The explicit role, if the declaration gives one.
    pub hint: Option<ParamKind>,
}

/// A parameter with its role.
#[derive(Debug)]
pub struct MethodParam {
    /// The parameter's name.
    pub name: String,
    /// The declared type as written.
    pub declared_type: String,
    /// What the rules read from the declared type.
    pub ty: TypeDesc,
    /// The parameter's role.
    pub kind: ParamKind,
}

impl Clone for MethodParam {
    fn clone(&self) -> (r: Self)
        ensures
            r == *self,
    {
        MethodParam {
            name: self.name.clone(),
            declared_type: self.declared_type.clone(),
            ty: self.ty.clone(),
            kind: self.kind.clone(),
        }
    }
}

/// What classifying a parameter list comes to.
pub enum Classification {
    /// Every parameter has a role.
    Roles(Seq<MethodParam>),
    /// One parameter is left without a role and the verb carries no body.
    NoBodyAllowed(ParamDecl),
    /// Several parameters are left without a role.
    Ambiguous(Seq<ParamDecl>),
}

/// True when a parameter gets its role on its own: from its hint, or from a
/// placeholder with its name.
pub open spec fn has_own_role(p: ParamDecl, placeholders: Seq<Seq<char>>) -> bool {
    p.hint is Some || placeholders.contains(p.name@)
}

/// The role of a parameter: its hint; without one, the path where a placeholder
/// bears its name; else the body.
pub open spec fn role_of(p: ParamDecl, placeholders: Seq<Seq<char>>) -> ParamKind {
    match p.hint {
        Some(kind) => kind,
        None => if placeholders.contains(p.name@) {
            ParamKind::Path(None)
        } else {
            ParamKind::Body
        },
    }
}

/// The declared parameter with a role.
pub open spec fn with_kind(p: ParamDecl, kind: ParamKind) -> MethodParam {
    MethodParam { name: p.name, declared_type: p.declared_type, ty: p.ty, kind }
}

/// Of the first `n` parameters, those that have a role of their own, each with
/// that role, in declaration order.
pub open spec fn settled(inputs: Seq<ParamDecl>, placeholders: Seq<Seq<char>>, n: int) -> Seq<
    MethodParam,
>
    decreases n,
{
    if n <= 0 {
        Seq::empty()
    } else if has_own_role(inputs[n - 1], placeholders) {
        settled(inputs, placeholders, n - 1).push(
            with_kind(inputs[n - 1], role_of(inputs[n - 1], placeholders)),
        )
    } else {
        settled(inputs, placeholders, n - 1)
    }
}

/// Of the first `n` parameters, those without a role of their own, in
/// declaration order.
pub open spec fn deferred(inputs: Seq<ParamDecl>, placeholders: Seq<Seq<char>>, n: int) -> Seq<
    ParamDecl,
>
    decreases n,
{
    if n <= 0 {
        Seq::empty()
    } else if has_own_role(inputs[n - 1], placeholders) {
        deferred(inputs, placeholders, n - 1)
    } else {
        deferred(inputs, placeholders, n - 1).push(inputs[n - 1])
    }
}

/// The classification of a parameter list against the placeholders of its
/// template. The parameters with a role of their own keep their order; a single
/// leftover parameter comes last, as the body.
pub open spec fn classification(
    inputs: Seq<ParamDecl>,
    placeholders: Seq<Seq<char>>,
    method: HttpMethod,
) -> Classification {
    let rest = deferred(inputs, placeholders, inputs.len() as int);
    let done = settled(inputs, placeholders, inputs.len() as int);
    if rest.len() == 0 {
        Classification::Roles(done)
    } else if rest.len() == 1 {
        if method.has_body() {
            Classification::Roles(done.push(with_kind(rest[0], ParamKind::Body)))
        } else {
            Classification::NoBodyAllowed(rest[0])
        }
    } else {
        Classification::Ambiguous(rest)
    }
}

/// The names of the parameters.
pub open spec fn names_of(params: Seq<ParamDecl>) -> Seq<String> {
    Seq::new(params.len(), |i: int| params[i].name)
}

/// True when `r` reports what `c` comes to.
pub open spec fn reports(
    r: Result<Vec<MethodParam>, CompilationError>,
    c: Classification,
    placeholders: Seq<Seq<char>>,
    method: HttpMethod,
) -> bool {
    match c {
        Classification::Roles(params) => r matches Ok(v) && v@ == params,
        Classification::NoBodyAllowed(p) => r matches Err(
            CompilationError::UnclassifiedParameter { name, placeholders: ph, method: m },
        ) && name == p.name && texts(ph@) == placeholders && m == method,
        Classification::Ambiguous(ps) => r matches Err(
            CompilationError::MultipleUnattributed { names, placeholders: ph },
        ) && names@ == names_of(ps) && texts(ph@) == placeholders,
    }
}

/// Classifies the parameters of an endpoint.
///
/// 1. An explicit role is taken as it stands.
/// 2. A parameter named like a placeholder of the template is a path parameter.
/// 3. For a verb with a body (POST, PUT, PATCH), a single remaining parameter
///    becomes the body.
/// 4. Several remaining parameters, or one on a verb without a body, are an error.
pub fn parse_method_params(
    inputs: &Vec<ParamDecl>,
    path_template: &str,
    http_method: HttpMethod,
) -> (r: Result<Vec<MethodParam>, CompilationError>)
    ensures
        reports(
            r,
            classification(inputs@, placeholders_of(path_template@), http_method),
            placeholders_of(path_template@),
            http_method,
        ),
{
    let placeholders = extract_path_placeholders(path_template);
    let ghost ph = placeholders_of(path_template@);
    let mut params: Vec<MethodParam> = Vec::new();
    let mut unclassified: Vec<usize> = Vec::new();
    let mut i: usize = 0;
    while i < inputs.len()
        invariant
            i <= inputs.len(),
            texts(placeholders@) == ph,
            params@ == settled(inputs@, ph, i as int),
            unclassified@.len() == deferred(inputs@, ph, i as int).len(),
            forall|k: int|
                0 <= k < unclassified@.len() ==> 0 <= #[trigger] unclassified@[k] < i
                    && inputs@[unclassified@[k] as int] == deferred(inputs@, ph, i as int)[k],
        decreases inputs.len() - i,
    {
        let p = &inputs[i];
        match &p.hint {
            Some(kind) => {
                params.push(
                    MethodParam {
                        name: p.name.clone(),
                        declared_type: p.declared_type.clone(),
                        ty: p.ty.clone(),
                        kind: kind.clone(),
                    },
                );
            },
            None => {
                if contains_text(&placeholders, p.name.as_str()) {
                    params.push(
                        MethodParam {
                            name: p.name.clone(),
                            declared_type: p.declared_type.clone(),
                            ty: p.ty.clone(),
                            kind: ParamKind::Path(None),
                        },
                    );
                } else {
                    unclassified.push(i);
                }
            },
        }
        i += 1;
    }
    let ghost rest = deferred(inputs@, ph, inputs.len() as int);
    if unclassified.len() == 0 {
        Ok(params)
    } else if unclassified.len() == 1 {
        let p = &inputs[unclassified[0]];
        if http_method.supports_body() {
            params.push(
                MethodParam {
                    name: p.name.clone(),
                    declared_type: p.declared_type.clone(),
                    ty: p.ty.clone(),
                    kind: ParamKind::Body,
                },
            );
            Ok(params)
        } else {
            Err(
                CompilationError::UnclassifiedParameter {
                    name: p.name.clone(),
                    placeholders,
                    method: http_method,
                },
            )
        }
    } else {
        let mut names: Vec<String> = Vec::new();
        let mut k: usize = 0;
        while k < unclassified.len()
            invariant
                k <= unclassified.len(),
                unclassified@.len() == rest.len(),
                forall|j: int|
                    0 <= j < unclassified@.len() ==> 0 <= #[trigger] unclassified@[j]
                        < inputs.len() && inputs@[unclassified@[j] as int] == rest[j],
                names@ == names_of(rest).take(k as int),
            decreases unclassified.len() - k,
        {
            names.push(inputs[unclassified[k]].name.clone());
            k += 1;
        }
        proof {
            assert(names_of(rest).take(rest.len() as int) == names_of(rest));
        }
        Err(CompilationError::MultipleUnattributed { names, placeholders })
    }
}

/// Classification is a function of the declaration: the same parameters,
/// placeholders and verb always come to the same roles.
pub proof fn lemma_classification_deterministic(
    a: Seq<ParamDecl>,
    b: Seq<ParamDecl>,
    placeholders: Seq<Seq<char>>,
    method: HttpMethod,
)
    requires
        a == b,
    ensures
        classification(a, placeholders, method) == classification(b, placeholders, method),
{
}

/// Every settled parameter is a declared parameter with the role that the
/// precedence rules give it.
pub proof fn lemma_settled_roles(inputs: Seq<ParamDecl>, placeholders: Seq<Seq<char>>, n: int)
    requires
        0 <= n <= inputs.len(),
    ensures
        forall|k: int|
            0 <= k < settled(inputs, placeholders, n).len() ==> exists|i: int|
                0 <= i < n && has_own_role(inputs[i], placeholders) && #[trigger] settled(
                    inputs,
                    placeholders,
                    n,
                )[k] == with_kind(inputs[i], role_of(inputs[i], placeholders)),
    decreases n,
{
    if n > 0 {
        lemma_settled_roles(inputs, placeholders, n - 1);
        let prev = settled(inputs, placeholders, n - 1);
        let cur = settled(inputs, placeholders, n);
        assert forall|k: int| 0 <= k < cur.len() implies exists|i: int|
            0 <= i < n && has_own_role(inputs[i], placeholders) && #[trigger] cur[k] == with_kind(
                inputs[i],
                role_of(inputs[i], placeholders),
            ) by {
            if k < prev.len() {
                assert(cur[k] == prev[k]);
                let i = choose|i: int|
                    0 <= i < n - 1 && has_own_role(inputs[i], placeholders) && prev[k]
                        == with_kind(inputs[i], role_of(inputs[i], placeholders));
                assert(0 <= i < n);
            } else {
                assert(has_own_role(inputs[n - 1], placeholders));
                assert(cur[k] == with_kind(inputs[n - 1], role_of(inputs[n - 1], placeholders)));
            }
        }
    }
}

/// Every deferred parameter is a declared parameter without a hint whose name
/// is no placeholder.
pub proof fn lemma_deferred_members(inputs: Seq<ParamDecl>, placeholders: Seq<Seq<char>>, n: int)
    requires
        0 <= n <= inputs.len(),
    ensures
        forall|k: int|
            0 <= k < deferred(inputs, placeholders, n).len() ==> exists|i: int|
                0 <= i < n && !has_own_role(inputs[i], placeholders) && #[trigger] deferred(
                    inputs,
                    placeholders,
                    n,
                )[k] == inputs[i],
        settled(inputs, placeholders, n).len() + deferred(inputs, placeholders, n).len() == n,
    decreases n,
{
    if n > 0 {
        lemma_deferred_members(inputs, placeholders, n - 1);
        let prev = deferred(inputs, placeholders, n - 1);
        let cur = deferred(inputs, placeholders, n);
        assert forall|k: int| 0 <= k < cur.len() implies exists|i: int|
            0 <= i < n && !has_own_role(inputs[i], placeholders) && #[trigger] cur[k]
                == inputs[i] by {
            if k < prev.len() {
                assert(cur[k] == prev[k]);
                let i = choose|i: int|
                    0 <= i < n - 1 && !has_own_role(inputs[i], placeholders) && prev[k]
                        == inputs[i];
                assert(0 <= i < n);
            } else {
                assert(cur[k] == inputs[n - 1]);
            }
        }
    }
}

/// The precedence of roles. Where classification succeeds, every parameter of
/// the result is a declared parameter with the role that `role_of` gives it:
/// the explicit role first, the path for a name that a placeholder bears next,
/// the body last. No declared parameter is lost or doubled in number.
pub proof fn lemma_roles_follow_precedence(
    inputs: Seq<ParamDecl>,
    placeholders: Seq<Seq<char>>,
    method: HttpMethod,
)
    ensures
        classification(inputs, placeholders, method) matches Classification::Roles(params)
            ==> params.len() == inputs.len() && forall|k: int|
            0 <= k < params.len() ==> exists|i: int|
                0 <= i < inputs.len() && #[trigger] params[k] == with_kind(
                    inputs[i],
                    role_of(inputs[i], placeholders),
                ),
{
    let n = inputs.len() as int;
    lemma_settled_roles(inputs, placeholders, n);
    lemma_deferred_members(inputs, placeholders, n);
    let done = settled(inputs, placeholders, n);
    let rest = deferred(inputs, placeholders, n);
    if let Classification::Roles(params) = classification(inputs, placeholders, method) {
        assert forall|k: int| 0 <= k < params.len() implies exists|i: int|
            0 <= i < inputs.len() && #[trigger] params[k] == with_kind(
                inputs[i],
                role_of(inputs[i], placeholders),
            ) by {
            if k < done.len() {
                assert(params[k] == done[k]);
                let i = choose|i: int|
                    0 <= i < n && has_own_role(inputs[i], placeholders) && done[k] == with_kind(
                        inputs[i],
                        role_of(inputs[i], placeholders),
                    );
                assert(0 <= i < inputs.len());
            } else {
                assert(rest.len() == 1);
                let i = choose|i: int|
                    0 <= i < n && !has_own_role(inputs[i], placeholders) && rest[0] == inputs[i];
                assert(role_of(inputs[i], placeholders) == ParamKind::Body);
                assert(params[k] == with_kind(inputs[i], ParamKind::Body));
            }
        }
    }
}

/// The deferred parameters are, as a multiset, the declared parameters
/// without a role of their own.
pub proof fn lemma_deferred_as_multiset(
    inputs: Seq<ParamDecl>,
    placeholders: Seq<Seq<char>>,
    n: int,
    left_over: spec_fn(ParamDecl) -> bool,
)
    requires
        0 <= n <= inputs.len(),
        forall|d: ParamDecl| #[trigger] left_over(d) == !has_own_role(d, placeholders),
    ensures
        deferred(inputs, placeholders, n).to_multiset() == inputs.take(n).to_multiset().filter(
            left_over,
        ),
    decreases n,
{
    broadcast use vstd::multiset::group_multiset_axioms;
    broadcast use vstd::seq_lib::to_multiset_build;

    if n == 0 {
        assert(inputs.take(0) == Seq::<ParamDecl>::empty());
        Seq::<ParamDecl>::empty().to_multiset_ensures();
        vstd::multiset::lemma_multiset_empty_len(Seq::<ParamDecl>::empty().to_multiset());
        assert(deferred(inputs, placeholders, 0).to_multiset() =~= inputs.take(
            0,
        ).to_multiset().filter(left_over));
    } else {
        lemma_deferred_as_multiset(inputs, placeholders, n - 1, left_over);
        let x = inputs[n - 1];
        let before = inputs.take(n - 1).to_multiset();
        assert(inputs.take(n) == inputs.take(n - 1).push(x));
        assert(inputs.take(n).to_multiset() =~= before.insert(x));
        if left_over(x) {
            assert(before.insert(x).filter(left_over) =~= before.filter(left_over).insert(x));
        } else {
            assert(before.insert(x).filter(left_over) =~= before.filter(left_over));
        }
        assert(deferred(inputs, placeholders, n).to_multiset() =~= inputs.take(
            n,
        ).to_multiset().filter(left_over));
    }
}

/// How often a parameter with its role stands among the settled parameters:
/// as often as a declared parameter has a role of its own and comes to it.
pub proof fn lemma_settled_count(
    inputs: Seq<ParamDecl>,
    placeholders: Seq<Seq<char>>,
    n: int,
    m: MethodParam,
    comes_to: spec_fn(ParamDecl) -> bool,
)
    requires
        0 <= n <= inputs.len(),
        forall|d: ParamDecl| #[trigger]
            comes_to(d) == (has_own_role(d, placeholders) && with_kind(
                d,
                role_of(d, placeholders),
            ) == m),
    ensures
        settled(inputs, placeholders, n).to_multiset().count(m) == inputs.take(
            n,
        ).to_multiset().filter(comes_to).len(),
    decreases n,
{
    broadcast use vstd::multiset::group_multiset_axioms;
    broadcast use vstd::seq_lib::to_multiset_build;

    if n == 0 {
        assert(inputs.take(0) == Seq::<ParamDecl>::empty());
        Seq::<ParamDecl>::empty().to_multiset_ensures();
        vstd::multiset::lemma_multiset_empty_len(Seq::<ParamDecl>::empty().to_multiset());
        Seq::<MethodParam>::empty().to_multiset_ensures();
        vstd::multiset::lemma_multiset_empty_len(Seq::<MethodParam>::empty().to_multiset());
        assert(inputs.take(0).to_multiset().filter(comes_to) =~= Multiset::<ParamDecl>::empty());
        assert(settled(inputs, placeholders, 0).to_multiset() =~= Multiset::<
            MethodParam,
        >::empty());
    } else {
        lemma_settled_count(inputs, placeholders, n - 1, m, comes_to);
        let x = inputs[n - 1];
        let before = inputs.take(n - 1).to_multiset();
        let done = settled(inputs, placeholders, n - 1);
        assert(inputs.take(n) == inputs.take(n - 1).push(x));
        assert(inputs.take(n).to_multiset() =~= before.insert(x));
        if comes_to(x) {
            assert(before.insert(x).filter(comes_to) =~= before.filter(comes_to).insert(x));
            vstd::multiset::lemma_insert_len(before.filter(comes_to), x);
        } else {
            assert(before.insert(x).filter(comes_to) =~= before.filter(comes_to));
        }
        if has_own_role(x, placeholders) {
            let p = with_kind(x, role_of(x, placeholders));
            assert(settled(inputs, placeholders, n).to_multiset() =~= done.to_multiset().insert(
                p,
            ));
        }
    }
}

/// The order of declaration is irrelevant. Two parameter lists that hold the
/// same declarations, in whatever order, come to the same kind of result.
/// Where they succeed, they give the same parameters with the same roles;
/// where one parameter is left over, it is the same one; where several are,
/// they are the same ones.
pub proof fn lemma_order_is_irrelevant(
    a: Seq<ParamDecl>,
    b: Seq<ParamDecl>,
    placeholders: Seq<Seq<char>>,
    method: HttpMethod,
)
    requires
        a.to_multiset() == b.to_multiset(),
    ensures
        match (classification(a, placeholders, method), classification(b, placeholders, method)) {
            (Classification::Roles(pa), Classification::Roles(pb)) => pa.to_multiset()
                == pb.to_multiset(),
            (Classification::NoBodyAllowed(x), Classification::NoBodyAllowed(y)) => x == y,
            (Classification::Ambiguous(xs), Classification::Ambiguous(ys)) => xs.to_multiset()
                == ys.to_multiset(),
            _ => false,
        },
{
    broadcast use vstd::multiset::group_multiset_axioms;
    broadcast use vstd::seq_lib::to_multiset_build;

    let na = a.len() as int;
    let nb = b.len() as int;
    let left_over = |d: ParamDecl| !has_own_role(d, placeholders);
    assert(a.take(na) == a);
    assert(b.take(nb) == b);
    lemma_deferred_as_multiset(a, placeholders, na, left_over);
    lemma_deferred_as_multiset(b, placeholders, nb, left_over);
    let rest_a = deferred(a, placeholders, na);
    let rest_b = deferred(b, placeholders, nb);
    assert(rest_a.to_multiset() == rest_b.to_multiset());
    rest_a.to_multiset_ensures();
    rest_b.to_multiset_ensures();
    assert(rest_a.len() == rest_b.len());
    let done_a = settled(a, placeholders, na);
    let done_b = settled(b, placeholders, nb);
    assert forall|m: MethodParam| done_a.to_multiset().count(m) == done_b.to_multiset().count(
        m,
    ) by {
        let comes_to = |d: ParamDecl|
            has_own_role(d, placeholders) && with_kind(d, role_of(d, placeholders)) == m;
        lemma_settled_count(a, placeholders, na, m, comes_to);
        lemma_settled_count(b, placeholders, nb, m, comes_to);
    }
    assert(done_a.to_multiset() =~= done_b.to_multiset());
    if rest_a.len() == 1 {
        assert(rest_a.contains(rest_a[0]));
        assert(rest_b.to_multiset().count(rest_a[0]) > 0);
        assert(rest_b.contains(rest_a[0]));
        assert(rest_b[0] == rest_a[0]);
        let body = with_kind(rest_a[0], ParamKind::Body);
        assert(done_a.push(body).to_multiset() =~= done_b.push(body).to_multiset());
    }
}

/// Ambiguity is refused. With two or more parameters left without a role,
/// classification fails whatever the verb; with one, it fails unless the verb
/// carries a body, and then that parameter is the body and comes last.
pub proof fn lemma_leftover_parameters(
    inputs: Seq<ParamDecl>,
    placeholders: Seq<Seq<char>>,
    method: HttpMethod,
)
    ensures
        ({
            let rest = deferred(inputs, placeholders, inputs.len() as int);
            let c = classification(inputs, placeholders, method);
            &&& rest.len() >= 2 ==> c == Classification::Ambiguous(rest)
            &&& rest.len() == 1 && !method.has_body() ==> c == Classification::NoBodyAllowed(
                rest[0],
            )
            &&& rest.len() == 1 && method.has_body() ==> (c matches Classification::Roles(params)
                && params.len() > 0 && params.last() == with_kind(rest[0], ParamKind::Body))
            &&& rest.len() == 0 ==> c is Roles
        }),
{
}

} // verus!
