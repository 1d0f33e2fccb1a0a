//! The algebra of path composition: what a built chain's traversal means in
//! terms of the attributes it was built from.

use vstd::prelude::*;

use crate::AccessError;
use crate::AccessKind;
use crate::Attr;
use crate::Identity;
use crate::InsecureAttr;
use crate::InsecurePath;
use crate::IterableAttr;
use crate::MapPath;
use crate::Path;
use crate::Traverse;

verus! {

/// Identity law: traversing the one-segment path built from an attribute
/// returns exactly what the attribute itself returns, and nothing else.
pub proof fn lemma_identity_law<X, Z, A: Attr<X, Output = Z>>(
    p: Path<X, Z, A, Identity>,
    v: X,
    r: Z,
)
    ensures
        p.spec_traverse(v, r) <==> r == p.attr.spec_get(v),
{
}

/// Composition order: in a three-segment chain the outermost attribute (the
/// one added last) is applied to the original value first, and the innermost
/// attribute (the one the chain was started from) produces the final result.
pub proof fn lemma_composition_order<X, Y0, Y1, Z, A, B, C>(
    p: Path<X, Z, A, Path<Y0, Z, B, Path<Y1, Z, C, Identity>>>,
    v: X,
    r: Z,
) where A: Attr<X, Output = Y0>, B: Attr<Y0, Output = Y1>, C: Attr<Y1, Output = Z>
    ensures
        p.spec_traverse(v, r) <==> r == p.next.next.attr.spec_get(
            p.next.attr.spec_get(p.attr.spec_get(v)),
        ),
{
}

/// Branch flattening: a branching path over a container yields exactly one
/// result per element of the container, in the container's native order,
/// each equal to the leaf attribute applied to that element.
pub proof fn lemma_branch_flattening<X, Y, Z, B, L>(
    p: MapPath<B, Path<Y, Z, L, Identity>>,
    v: X,
    r: Vec<Z>,
) where B: IterableAttr<X, Item = Y>, L: Attr<Y, Output = Z>
    ensures
        p.spec_traverse(v, r) <==> (r@.len() == p.attr.spec_items(v).len() && forall|j: int|
            0 <= j < r@.len() ==> r@[j] == p.next.attr.spec_get(
                #[trigger] p.attr.spec_items(v)[j],
            )),
{
}

/// Short-circuit on failure: when the first attribute of a fallible link
/// fails, the traversal returns a failure of exactly that kind, named after
/// the failing attribute, and the rest of the chain contributes nothing to
/// the result.
pub proof fn lemma_short_circuit<X, Z, A, R>(
    p: InsecurePath<X, Z, A, R>,
    v: X,
    r: Result<Z, AccessError>,
    k: AccessKind,
) where A: InsecureAttr<X>, R: Traverse<A::Output, Result<Z, AccessError>>
    requires
        p.attr.spec_get(v) == Err::<A::Output, AccessKind>(k),
    ensures
        p.spec_traverse(v, r) <==> (r is Err && r->Err_0.kind == k && r->Err_0.name@
            == p.attr.spec_name()),
{
}

/// On success of a fallible link, the traversal continues with the rest of
/// the chain on the retrieved value, exactly as if the chain had started
/// there.
pub proof fn lemma_fallible_success<X, Z, A, R>(
    p: InsecurePath<X, Z, A, R>,
    v: X,
    y: A::Output,
    r: Result<Z, AccessError>,
) where A: InsecureAttr<X>, R: Traverse<A::Output, Result<Z, AccessError>>
    requires
        p.attr.spec_get(v) == Ok::<A::Output, AccessKind>(y),
    ensures
        p.spec_traverse(v, r) <==> p.next.spec_traverse(y, r),
{
}

/// A path carries no per-traversal state: the result of each traversal is a
/// function of the path value and that traversal's input alone, so one path
/// value can serve any number of distinct containers without interference.
pub proof fn lemma_no_traversal_state<X, Z, A: Attr<X, Output = Z>>(
    p: Path<X, Z, A, Identity>,
    v1: X,
    v2: X,
    r1: Z,
    r2: Z,
)
    requires
        p.spec_traverse(v1, r1),
        p.spec_traverse(v2, r2),
    ensures
        r1 == p.attr.spec_get(v1),
        r2 == p.attr.spec_get(v2),
{
}

} // verus!
