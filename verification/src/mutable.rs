//! Mutable attribute paths: the parallel accessor family that yields an
//! exclusive, writable view of the target instead of a read-only one.
//!
//! Exclusivity is enforced by construction: a mutable traversal hands out
//! exactly one live `&mut` view into the target, whose validity cannot
//! outlive the borrow of the container it was derived from.

use vstd::prelude::*;

use crate::Attr;
use crate::Identity;
use crate::IndexableAttr;

verus! {

/// Exclusive, writable access to an attribute of a type.
pub trait AttrMut<Input>: Attr<Input> {
    /// The input value with the attribute's slot replaced by `v`, and
    /// everything else unchanged.
    spec fn spec_set(&self, i: Input, v: Self::Output) -> Input;

    /// Writing a value into the attribute's slot and reading the slot again
    /// yields that value back.
    proof fn lemma_get_set(&self, i: Input, v: Self::Output)
        ensures
            self.spec_get(self.spec_set(i, v)) == v,
    ;

    /// Writing back the value the attribute already holds leaves the input
    /// unchanged: an exclusive view that is never written through alters
    /// nothing.
    proof fn lemma_set_noop(&self, i: Input)
        ensures
            self.spec_set(i, self.spec_get(i)) == i,
    ;

    /// Implementation of the exclusive retrieval: the view reads the
    /// attribute's current value, and whatever is left in the view when the
    /// borrow ends is what the attribute's slot then holds.
    fn get_mut<'c>(&self, i: &'c mut Input) -> (r: &'c mut Self::Output)
        ensures
            *r == self.spec_get(*old(i)),
            *final(i) == self.spec_set(*old(i), *final(r)),
    ;
}

/// Exclusive access to one element of an indexed attribute.
///
/// The bounds are the caller's obligation, as with [`IndexableAttr`].
pub trait IndexableAttrMut<Input>: IndexableAttr<Input> + AttrMut<Input> {
    /// Whether everything outside the indexed collection is the same in
    /// `i1` and `i2`.
    spec fn spec_untouched_outside_elems(&self, i1: Input, i2: Input) -> bool;

    /// Implementation of the exclusive indexing operation: the view reads
    /// the element at `idx`, writing through it updates exactly that
    /// element, and the rest of the container stays as it was.
    fn at_mut<'c>(&self, i: &'c mut Input, idx: usize) -> (r: &'c mut Self::Element)
        requires
            idx < self.spec_elems(*old(i)).len(),
        ensures
            *r == self.spec_elems(*old(i))[idx as int],
            self.spec_elems(*final(i)) == self.spec_elems(*old(i)).update(
                idx as int,
                *final(r),
            ),
            self.spec_untouched_outside_elems(*old(i), *final(i)),
    ;
}

/// Recursive path traversal with an exclusive view as its result.
pub trait TraverseMut<'a, 'b: 'a, X, Z> {
    /// The value the traversal's view reads, as a function of the input.
    spec fn spec_read(&self, val: X) -> Z;

    /// The input with the traversal's target replaced by `v`, and
    /// everything else unchanged.
    spec fn spec_write(&self, val: X, v: Z) -> X;

    /// Mutation visibility: writing a value through the path and then
    /// reading through the path again yields that value back.
    proof fn lemma_read_write(&self, val: X, v: Z)
        ensures
            self.spec_read(self.spec_write(val, v)) == v,
    ;

    /// Writing back the value the path already reads leaves the input
    /// unchanged: a traversal whose view is never written through mutates
    /// nothing.
    proof fn lemma_write_noop(&self, val: X)
        ensures
            self.spec_write(val, self.spec_read(val)) == val,
    ;

    /// Implementation of the traversal for a specific path: the returned
    /// view reads the target, and whatever is left in the view when the
    /// borrow ends is what the target then holds.
    fn traverse_mut(&'b self, val: &'b mut X) -> (r: &'a mut Z)
        ensures
            *r == self.spec_read(*old(val)),
            *final(val) == self.spec_write(*old(val), *final(r)),
    ;
}

impl<'a, 'b: 'a, T> TraverseMut<'a, 'b, T, T> for Identity {
    open spec fn spec_read(&self, val: T) -> T {
        val
    }

    open spec fn spec_write(&self, val: T, v: T) -> T {
        v
    }

    proof fn lemma_read_write(&self, val: T, v: T) {
    }

    proof fn lemma_write_noop(&self, val: T) {
    }

    fn traverse_mut(&'b self, val: &'b mut T) -> (r: &'a mut T) {
        val
    }
}

/// A path describing how to reach a value at a point exclusively, and then
/// recurse down the rest of the path.
///
/// Paths are usually inferred and should not be directly used in user code.
pub struct MutablePath<'a, 'b: 'a, X, Y, Z, A, R> {
    /// The attribute applied first.
    pub attr: A,
    /// The rest of the path, applied within the attribute's view.
    pub next: R,
    /// The path holds no view of the types it traverses.
    pub phantom: core::marker::PhantomData<(&'b mut X, &'a mut Y, &'a mut Z)>,
}

/// `retrieve_mut` is the starting point of a path that yields an exclusive,
/// writable view of its target.
///
/// Note that path creation starts inside out; this needs to be called with
/// the innermost attribute.
pub fn retrieve_mut<'a, 'b: 'a, X, A: AttrMut<X>>(attr: A) -> (p: MutablePath<
    'a,
    'b,
    X,
    A::Output,
    A::Output,
    A,
    Identity,
>)
    ensures
        p.attr == attr,
{
    MutablePath { attr, next: Identity, phantom: core::marker::PhantomData }
}

impl<'a, 'b: 'a, X, Y, Z, A: AttrMut<X, Output = Y>, R: TraverseMut<'a, 'b, Y, Z>> MutablePath<
    'a,
    'b,
    X,
    Y,
    Z,
    A,
    R,
> {
    /// Extends a mutable path by another segment.
    ///
    /// The new attribute is applied first; its output must be what this
    /// path already expects.
    pub fn from<NX, NA: AttrMut<NX, Output = X>>(self, attr: NA) -> (p: MutablePath<
        'a,
        'b,
        NX,
        X,
        Z,
        NA,
        Self,
    >)
        ensures
            p.attr == attr,
            p.next == self,
    {
        MutablePath { attr, next: self, phantom: core::marker::PhantomData }
    }
}

impl<
    'a,
    'b: 'a,
    X: 'b,
    Y: 'b,
    Z: 'a,
    A: AttrMut<X, Output = Y>,
    R: TraverseMut<'a, 'b, Y, Z>,
> TraverseMut<'a, 'b, X, Z> for MutablePath<'a, 'b, X, Y, Z, A, R> {
    open spec fn spec_read(&self, val: X) -> Z {
        self.next.spec_read(self.attr.spec_get(val))
    }

    open spec fn spec_write(&self, val: X, v: Z) -> X {
        self.attr.spec_set(val, self.next.spec_write(self.attr.spec_get(val), v))
    }

    proof fn lemma_read_write(&self, val: X, v: Z) {
        let y = self.attr.spec_get(val);
        self.attr.lemma_get_set(val, self.next.spec_write(y, v));
        self.next.lemma_read_write(y, v);
    }

    proof fn lemma_write_noop(&self, val: X) {
        let y = self.attr.spec_get(val);
        self.next.lemma_write_noop(y);
        self.attr.lemma_set_noop(val);
    }

    fn traverse_mut(&'b self, val: &'b mut X) -> (r: &'a mut Z) {
        let y = self.attr.get_mut(val);
        self.next.traverse_mut(y)
    }
}

/// Indexed mutation visibility: after writing `v` through the exclusive
/// view of the element at `idx`, reading the elements again sees `v` at
/// `idx`, the same elements everywhere else, and the same length.
pub proof fn lemma_indexed_update_visible<X, IA: IndexableAttrMut<X>>(
    a: IA,
    i1: X,
    i2: X,
    idx: int,
    v: IA::Element,
)
    requires
        0 <= idx < a.spec_elems(i1).len(),
        a.spec_elems(i2) == a.spec_elems(i1).update(idx, v),
    ensures
        a.spec_elems(i2)[idx] == v,
        a.spec_elems(i2).len() == a.spec_elems(i1).len(),
        forall|j: int|
            0 <= j < a.spec_elems(i1).len() && j != idx ==> a.spec_elems(i2)[j]
                == #[trigger] a.spec_elems(i1)[j],
{
}

} // verus!
