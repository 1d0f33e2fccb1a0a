//! Statically-typed attribute paths.
//!
//! An attribute is a named accessor from a container value to one of its
//! sub-values.  A path chains attributes together, ending in [`Identity`],
//! and the traversal protocol ([`Traverse`]) threads a concrete value
//! through the chain: plain links apply one attribute and recurse, branching
//! links fan a collection out into one result per element, and fallible
//! links short-circuit on the first failed access.
//!
//! Paths are built once, carry no per-traversal state, and may be reused
//! across any number of container values.

use vstd::prelude::*;
use vstd::string::StringExecFns;

pub mod examples;
pub mod laws;
pub mod mutable;
pub mod serde;
pub mod value;

verus! {

/// Why a fallible attribute access did not produce a value.
#[derive(Clone, Copy, Debug, PartialEq, Eq, Structural)]
pub enum AccessKind {
    /// A named child was requested from a value that has no named children.
    NotAnObject,
    /// The value has named children, but none under the requested name.
    MissingField,
    /// An element was requested by index from a value that is not a sequence.
    NotAnArray,
    /// The index lies outside the sequence.
    IndexOutOfRange,
}

impl AccessKind {
    /// The diagnostic text of this failure kind, as a sequence of characters.
    pub open spec fn spec_describe(&self) -> Seq<char> {
        match self {
            AccessKind::NotAnObject => "not an object"@,
            AccessKind::MissingField => "field is absent"@,
            AccessKind::NotAnArray => "not an array"@,
            AccessKind::IndexOutOfRange => "index out of range"@,
        }
    }

    /// A human-readable description of the failure kind.
    pub fn describe(&self) -> (r: &'static str)
        ensures
            r@ == self.spec_describe(),
    {
        match self {
            AccessKind::NotAnObject => "not an object",
            AccessKind::MissingField => "field is absent",
            AccessKind::NotAnArray => "not an array",
            AccessKind::IndexOutOfRange => "index out of range",
        }
    }
}

/// A failed attribute access: what went wrong, and at which attribute.
///
/// The name serves the diagnostic alone; contracts pin the kind exactly and
/// the name by its characters.
#[derive(Clone, Debug, PartialEq, Eq)]
pub struct AccessError {
    /// What went wrong.
    pub kind: AccessKind,
    /// The name of the attribute whose access failed.
    pub name: String,
}

impl AccessError {
    /// The diagnostic text of this failure, as a sequence of characters:
    /// the failing attribute's name, then what went wrong.
    pub open spec fn spec_message(&self) -> Seq<char> {
        self.name@ + ": "@ + self.kind.spec_describe()
    }

    /// A human-readable diagnostic naming the failing attribute.
    pub fn message(&self) -> (r: String)
        ensures
            r@ == self.spec_message(),
    {
        let mut s = self.name.as_str().to_owned();
        s.append(": ");
        s.append(self.kind.describe());
        s
    }
}

/// Direct access to an attribute of a type.
///
/// All attributes need to be named for debugging purposes; the name is never
/// used to dispatch behaviour.
pub trait Attr<Input> {
    /// The resulting value when accessing the attribute.
    type Output;

    /// The attribute's name, as a sequence of characters.
    spec fn spec_name(&self) -> Seq<char>;

    /// What `get` returns, as a function of the input value.
    spec fn spec_get(&self, i: Input) -> Self::Output;

    /// The attribute's name.
    fn name(&self) -> (r: &str)
        ensures
            r@ == self.spec_name(),
    ;

    /// Implementation of the retrieval.
    fn get(&self, i: Input) -> (r: Self::Output)
        ensures
            r == self.spec_get(i),
    ;
}

/// Direct, possibly failing access to an attribute of a type.
pub trait InsecureAttr<Input> {
    /// The resulting value when accessing the attribute.
    type Output;

    /// The attribute's name, as a sequence of characters.
    spec fn spec_name(&self) -> Seq<char>;

    /// What `get` returns, as a function of the input value: either the
    /// retrieved value or the exact failure kind.
    spec fn spec_get(&self, i: Input) -> Result<Self::Output, AccessKind>;

    /// The attribute's name.
    fn name(&self) -> (r: &str)
        ensures
            r@ == self.spec_name(),
    ;

    /// Implementation of the retrieval.  A failure carries the exact kind
    /// and this attribute's name.
    fn get(&self, i: Input) -> (r: Result<Self::Output, AccessError>)
        ensures
            match self.spec_get(i) {
                Ok(v) => r == Ok::<Self::Output, AccessError>(v),
                Err(k) => r is Err && r->Err_0.kind == k && r->Err_0.name@ == self.spec_name(),
            },
    ;
}

/// Access to a part of the attribute by index.
///
/// This can be used to provide access to parts of a vector.  The bounds are
/// the caller's obligation, which makes this the unchecked flavour; see
/// [`InsecureIndexableAttr`] for the checked one.
pub trait IndexableAttr<Input>: Attr<Input> {
    /// The resulting value when accessing one element.
    type Element;

    /// The elements that indexing ranges over, in their native order.
    spec fn spec_elems(&self, i: Input) -> Seq<Self::Element>;

    /// Implementation of the indexing operation.
    fn at(&self, i: Input, idx: usize) -> (r: Self::Element)
        requires
            idx < self.spec_elems(i).len(),
        ensures
            r == self.spec_elems(i)[idx as int],
    ;
}

/// Access to a part of the attribute by index, where access can fail.
///
/// This can be used to provide access to parts of a vector where the exact
/// structure of vector parts is unknown: out-of-range indices are reported
/// as a failure, never as an abort.
pub trait InsecureIndexableAttr<Input>: InsecureAttr<Input> {
    /// The resulting value when accessing one element.
    type Element;

    /// What `at` returns, as a function of the input value and the index:
    /// either the element or the exact failure kind.
    spec fn spec_at(&self, i: Input, idx: int) -> Result<Self::Element, AccessKind>;

    /// Implementation of the indexing operation.  A failure carries the
    /// exact kind and this attribute's name.
    fn at(&self, i: Input, idx: usize) -> (r: Result<Self::Element, AccessError>)
        ensures
            match self.spec_at(i, idx as int) {
                Ok(v) => r == Ok::<Self::Element, AccessError>(v),
                Err(k) => r is Err && r->Err_0.kind == k && r->Err_0.name@ == self.spec_name(),
            },
    ;
}

/// Iteration over an attribute.
///
/// This allows to express paths that branch out, for example at a vector.
pub trait IterableAttr<Input>: Attr<Input> {
    /// The output item of the iteration.
    type Item;

    /// The items the iteration yields, in the collection's native order.
    spec fn spec_items(&self, i: Input) -> Seq<Self::Item>;

    /// Retrieval of the items, one per member of the underlying collection.
    fn iter(&self, i: Input) -> (r: Vec<Self::Item>)
        ensures
            r@ == self.spec_items(i),
    ;
}

/// Insecure variant of iteration over an attribute.
///
/// This allows to express paths that branch out, for example at a vector.
/// This operation may fail.
pub trait InsecureIterableAttr<Input>: InsecureAttr<Input> {
    /// The output item of the iteration.
    type Item;

    /// The items the iteration yields, or the exact failure kind.
    spec fn spec_items(&self, i: Input) -> Result<Seq<Self::Item>, AccessKind>;

    /// Retrieval of the items, one per member of the underlying collection.
    /// A failure carries the exact kind and this attribute's name.
    fn iter(&self, i: Input) -> (r: Result<Vec<Self::Item>, AccessError>)
        ensures
            match self.spec_items(i) {
                Ok(s) => r is Ok && r->Ok_0@ == s,
                Err(k) => r is Err && r->Err_0.kind == k && r->Err_0.name@ == self.spec_name(),
            },
    ;
}

/// Recursive path traversal.
///
/// This trait should rarely need to be implemented yourself, but is needed
/// to express bounds when accepting paths.
pub trait Traverse<X, Y> {
    /// Whether `r` is the result of traversing `val`.  For every node type
    /// whose output is a single value this pins `r` down exactly; for a
    /// branching node it pins the length and every element of `r` exactly.
    spec fn spec_traverse(&self, val: X, r: Y) -> bool;

    /// Implementation of the traversal for a specific path.
    fn traverse(&self, val: X) -> (r: Y)
        ensures
            self.spec_traverse(val, r),
    ;
}

/// The Identity is the end of a path and provides the point where input
/// equals output and we start returning.  It's necessary for recursive path
/// traversal, but generally not to be used in user code.
pub struct Identity;

impl<T> Traverse<T, T> for Identity {
    open spec fn spec_traverse(&self, val: T, r: T) -> bool {
        r == val
    }

    fn traverse(&self, val: T) -> (r: T) {
        val
    }
}

/// At the end of a chain that contains a fallible link, the Identity closes
/// the chain by handing the value back as a success.
impl<T> Traverse<T, Result<T, AccessError>> for Identity {
    open spec fn spec_traverse(&self, val: T, r: Result<T, AccessError>) -> bool {
        r == Ok::<T, AccessError>(val)
    }

    fn traverse(&self, val: T) -> (r: Result<T, AccessError>) {
        Ok(val)
    }
}

/// A plain path describing how to retrieve a value at a point, and then
/// recurse down the rest of the path.
///
/// Paths are usually inferred and should not be directly used in user code.
pub struct Path<Input, Output, A, Rest> {
    /// The attribute applied first.
    pub attr: A,
    /// The rest of the path, applied to the attribute's output.
    pub next: Rest,
    /// The path holds no value of its input or output type.
    pub phantom: core::marker::PhantomData<(Input, Output)>,
}

/// A path describing how to retrieve a value at a point whose retrieval
/// operation could fail, and then recurse down the rest of the path.
///
/// Paths are usually inferred and should not be directly used in user code.
pub struct InsecurePath<Input, Output, A, Rest> {
    /// The attribute applied first.
    pub attr: A,
    /// The rest of the path, applied on success of the attribute.
    pub next: Rest,
    /// The path holds no value of its input or output type.
    pub phantom: core::marker::PhantomData<(Input, Output)>,
}

/// A path that describes a mapping operation, with later application of a
/// subpath to every element.
///
/// Paths are usually inferred and should not be directly used in user code.
pub struct MapPath<A, R> {
    /// The attribute that fans the container out into elements.
    pub attr: A,
    /// The rest of the path, applied to each element independently.
    pub next: R,
}

/// `retrieve` is the starting point of a path that always returns a value.
///
/// Note that path creation starts inside out; this needs to be called with
/// the innermost attribute.
pub fn retrieve<X, Z, A: Attr<X>>(attr: A) -> (p: Path<X, Z, A, Identity>)
    ensures
        p.attr == attr,
{
    Path { attr, next: Identity, phantom: core::marker::PhantomData }
}

/// `retrieve_insecure` is the starting point of a path that is not always
/// present.  For that reason, traversing it returns a `Result` indicating
/// the success of the path operation.
pub fn retrieve_insecure<X, Z, A: InsecureAttr<X>>(attr: A) -> (p: InsecurePath<X, Z, A, Identity>)
    ensures
        p.attr == attr,
{
    InsecurePath { attr, next: Identity, phantom: core::marker::PhantomData }
}

impl<X, Z, A: Attr<X>, R: Traverse<A::Output, Z>> Traverse<X, Z> for Path<X, Z, A, R> {
    open spec fn spec_traverse(&self, val: X, r: Z) -> bool {
        self.next.spec_traverse(self.attr.spec_get(val), r)
    }

    fn traverse(&self, val: X) -> (r: Z) {
        let v = self.attr.get(val);
        self.next.traverse(v)
    }
}

impl<X, Z, A: InsecureAttr<X>, R: Traverse<A::Output, Result<Z, AccessError>>> Traverse<
    X,
    Result<Z, AccessError>,
> for InsecurePath<X, Z, A, R> {
    open spec fn spec_traverse(&self, val: X, r: Result<Z, AccessError>) -> bool {
        match self.attr.spec_get(val) {
            Ok(v) => self.next.spec_traverse(v, r),
            Err(k) => r is Err && r->Err_0.kind == k && r->Err_0.name@ == self.attr.spec_name(),
        }
    }

    fn traverse(&self, val: X) -> (r: Result<Z, AccessError>) {
        match self.attr.get(val) {
            Ok(v) => self.next.traverse(v),
            Err(e) => Err(e),
        }
    }
}

impl<X, Z, A: IterableAttr<X>, R: Traverse<A::Item, Z>> Traverse<X, Vec<Z>> for MapPath<A, R> {
    open spec fn spec_traverse(&self, val: X, r: Vec<Z>) -> bool {
        &&& r@.len() == self.attr.spec_items(val).len()
        &&& forall|j: int|
            0 <= j < r@.len() ==> self.next.spec_traverse(
                self.attr.spec_items(val)[j],
                #[trigger] r@[j],
            )
    }

    fn traverse(&self, val: X) -> (r: Vec<Z>) {
        let ghost items = self.attr.spec_items(val);
        let mut elems = self.attr.iter(val);
        let mut out: Vec<Z> = Vec::new();
        while elems.len() > 0
            invariant
                out@.len() + elems@.len() == items.len(),
                elems@ == items.skip(out@.len() as int),
                forall|j: int|
                    0 <= j < out@.len() ==> self.next.spec_traverse(items[j], #[trigger] out@[j]),
            decreases elems@.len(),
        {
            let ghost done = out@.len() as int;
            let e = elems.remove(0);
            assert(e == items[done]);
            let z = self.next.traverse(e);
            out.push(z);
            proof {
                assert(elems@ =~= items.skip(done + 1));
            }
        }
        out
    }
}

impl<X, Z, A: Attr<X>, R> Path<X, Z, A, R> {
    /// Extends a path by another segment.
    ///
    /// This needs a retrieval that always succeeds.  The new attribute is
    /// applied first; its output must be what this path already expects.
    pub fn from<NX, NA: Attr<NX, Output = X>>(self, attr: NA) -> (p: Path<NX, Z, NA, Self>)
        ensures
            p.attr == attr,
            p.next == self,
    {
        Path { attr, next: self, phantom: core::marker::PhantomData }
    }

    /// Extends a path by another segment whose retrieval can fail.
    ///
    /// On failure the rest of the chain is never invoked.  Traversing the
    /// result needs this path's declared output to be the fallible result
    /// over `W`, which ties the chain to the success-wrapping end of a
    /// fallible traversal.
    pub fn try_from<NX, W, NA: InsecureAttr<NX, Output = X>>(self, attr: NA) -> (p: InsecurePath<
        NX,
        W,
        NA,
        Self,
    >) where Self: Traverse<X, Result<W, AccessError>>
        ensures
            p.attr == attr,
            p.next == self,
    {
        InsecurePath { attr, next: self, phantom: core::marker::PhantomData }
    }

    /// Extends a path by an iteration operation.
    ///
    /// The resulting path applies this path to every element the new
    /// attribute yields, producing one result per element.
    pub fn mapped<NX, NA: IterableAttr<NX, Item = X>>(self, attr: NA) -> (p: MapPath<NA, Self>)
        ensures
            p.attr == attr,
            p.next == self,
    {
        MapPath { attr, next: self }
    }
}

impl<X, Z, A: InsecureAttr<X>, R> InsecurePath<X, Z, A, R> {
    /// Extends a path that may fail by another segment that always succeeds.
    pub fn from<NX, NA: Attr<NX, Output = X>>(self, attr: NA) -> (p: Path<
        NX,
        Result<Z, AccessError>,
        NA,
        Self,
    >)
        ensures
            p.attr == attr,
            p.next == self,
    {
        Path { attr, next: self, phantom: core::marker::PhantomData }
    }

    /// Extends a path that may fail by another segment that may fail.
    ///
    /// A failure of either segment short-circuits the whole traversal; the
    /// result carries the first failure met.
    pub fn try_from<NX, NA: InsecureAttr<NX, Output = X>>(self, attr: NA) -> (p: InsecurePath<
        NX,
        Z,
        NA,
        Self,
    >)
        ensures
            p.attr == attr,
            p.next == self,
    {
        InsecurePath { attr, next: self, phantom: core::marker::PhantomData }
    }

    /// Extends a path that may fail by an iteration operation.
    ///
    /// Failures are then per element: each element of the fan-out carries
    /// its own success or failure, and a bad element never aborts its
    /// siblings.
    pub fn mapped<NX, NA: IterableAttr<NX, Item = X>>(self, attr: NA) -> (p: MapPath<NA, Self>)
        ensures
            p.attr == attr,
            p.next == self,
    {
        MapPath { attr, next: self }
    }
}

impl<A, R> MapPath<A, R> {
    /// Extends a mapped path by another segment that always succeeds.
    pub fn from<NX, Z, NA>(self, attr: NA) -> (p: Path<NX, Vec<Z>, NA, Self>) where
        NA: Attr<NX>,
        Self: Traverse<NA::Output, Vec<Z>>,

        ensures
            p.attr == attr,
            p.next == self,
    {
        Path { attr, next: self, phantom: core::marker::PhantomData }
    }
}

} // verus!
