//! Concrete record types with attribute implementations.
//!
//! These demonstrate how a container type exposes its fields to the path
//! machinery: one zero-sized marker per field, implementing the capability
//! traits that fit the field.  Reference-shaped implementations (over
//! `&Foo`) serve read-only paths; owned-shaped implementations (over `Foo`)
//! serve exclusive, writable paths.

use vstd::prelude::*;

use crate::mutable::AttrMut;
use crate::mutable::IndexableAttrMut;
use crate::mutable::MutablePath;
use crate::mutable::TraverseMut;
use crate::value::Value;
use crate::AccessError;
use crate::AccessKind;
use crate::Attr;
use crate::Identity;
use crate::IndexableAttr;
use crate::InsecureAttr;
use crate::IterableAttr;
use crate::Path;
use crate::Traverse;

verus! {

/// A record with a single text field.
pub struct Bla {
    /// The record's name.
    pub name: String,
}

/// A record with nested structure: text, a nested record, and two vectors.
pub struct Foo {
    /// A text field.
    pub bar: String,
    /// A nested record.
    pub batz: Bla,
    /// A vector of numbers.
    pub numbers: Vec<i32>,
    /// A vector of nested records.
    pub vector: Vec<Bla>,
}

/// A record wrapping a [`Foo`].
pub struct Top {
    /// The wrapped record.
    pub foo: Foo,
}

/// The accessor of [`Foo::bar`].
pub struct Bar;

/// The accessor of [`Foo::batz`].
pub struct Batz;

/// The accessor of [`Foo::numbers`].
pub struct Numbers;

/// The accessor of [`Foo::vector`].
pub struct Vector;

/// The accessor of [`Bla::name`].
pub struct Name;

/// The accessor of [`Top::foo`].
pub struct FooField;

impl<'a> Attr<&'a Foo> for Bar {
    type Output = &'a String;

    open spec fn spec_name(&self) -> Seq<char> {
        "bar"@
    }

    open spec fn spec_get(&self, i: &'a Foo) -> &'a String {
        &i.bar
    }

    fn name(&self) -> (r: &str) {
        "bar"
    }

    fn get(&self, i: &'a Foo) -> (r: &'a String) {
        &i.bar
    }
}

impl<'a> Attr<&'a Foo> for Batz {
    type Output = &'a Bla;

    open spec fn spec_name(&self) -> Seq<char> {
        "batz"@
    }

    open spec fn spec_get(&self, i: &'a Foo) -> &'a Bla {
        &i.batz
    }

    fn name(&self) -> (r: &str) {
        "batz"
    }

    fn get(&self, i: &'a Foo) -> (r: &'a Bla) {
        &i.batz
    }
}

impl<'a> Attr<&'a Foo> for Numbers {
    type Output = &'a Vec<i32>;

    open spec fn spec_name(&self) -> Seq<char> {
        "numbers"@
    }

    open spec fn spec_get(&self, i: &'a Foo) -> &'a Vec<i32> {
        &i.numbers
    }

    fn name(&self) -> (r: &str) {
        "numbers"
    }

    fn get(&self, i: &'a Foo) -> (r: &'a Vec<i32>) {
        &i.numbers
    }
}

impl<'a> Attr<&'a Foo> for Vector {
    type Output = &'a Vec<Bla>;

    open spec fn spec_name(&self) -> Seq<char> {
        "vector"@
    }

    open spec fn spec_get(&self, i: &'a Foo) -> &'a Vec<Bla> {
        &i.vector
    }

    fn name(&self) -> (r: &str) {
        "vector"
    }

    fn get(&self, i: &'a Foo) -> (r: &'a Vec<Bla>) {
        &i.vector
    }
}

impl<'a> Attr<&'a Bla> for Name {
    type Output = &'a String;

    open spec fn spec_name(&self) -> Seq<char> {
        "name"@
    }

    open spec fn spec_get(&self, i: &'a Bla) -> &'a String {
        &i.name
    }

    fn name(&self) -> (r: &str) {
        "name"
    }

    fn get(&self, i: &'a Bla) -> (r: &'a String) {
        &i.name
    }
}

impl<'a> Attr<&'a Top> for FooField {
    type Output = &'a Foo;

    open spec fn spec_name(&self) -> Seq<char> {
        "foo"@
    }

    open spec fn spec_get(&self, i: &'a Top) -> &'a Foo {
        &i.foo
    }

    fn name(&self) -> (r: &str) {
        "foo"
    }

    fn get(&self, i: &'a Top) -> (r: &'a Foo) {
        &i.foo
    }
}

impl<'a> IndexableAttr<&'a Foo> for Numbers {
    type Element = i32;

    open spec fn spec_elems(&self, i: &'a Foo) -> Seq<i32> {
        i.numbers@
    }

    fn at(&self, i: &'a Foo, idx: usize) -> (r: i32) {
        i.numbers[idx]
    }
}

impl<'a> IterableAttr<&'a Foo> for Numbers {
    type Item = i32;

    open spec fn spec_items(&self, i: &'a Foo) -> Seq<i32> {
        i.numbers@
    }

    fn iter(&self, i: &'a Foo) -> (r: Vec<i32>) {
        let n = i.numbers.len();
        let mut out: Vec<i32> = Vec::new();
        let mut j: usize = 0;
        while j < n
            invariant
                n == i.numbers@.len(),
                j <= n,
                out@ == i.numbers@.take(j as int),
            decreases n - j,
        {
            out.push(i.numbers[j]);
            proof {
                assert(out@ =~= i.numbers@.take(j as int + 1));
            }
            j = j + 1;
        }
        proof {
            assert(i.numbers@.take(n as int) =~= i.numbers@);
        }
        out
    }
}

impl<'a> IterableAttr<&'a Foo> for Vector {
    type Item = &'a Bla;

    open spec fn spec_items(&self, i: &'a Foo) -> Seq<&'a Bla> {
        Seq::new(i.vector@.len(), |j: int| &i.vector@[j])
    }

    fn iter(&self, i: &'a Foo) -> (r: Vec<&'a Bla>) {
        let n = i.vector.len();
        let mut out: Vec<&'a Bla> = Vec::new();
        let mut j: usize = 0;
        while j < n
            invariant
                n == i.vector@.len(),
                j <= n,
                out@.len() == j,
                forall|k: int| 0 <= k < j ==> #[trigger] out@[k] == &i.vector@[k],
            decreases n - j,
        {
            out.push(&i.vector[j]);
            j = j + 1;
        }
        proof {
            assert(out@ =~= Seq::new(i.vector@.len(), |k: int| &i.vector@[k]));
        }
        out
    }
}

impl Attr<Foo> for Bar {
    type Output = String;

    open spec fn spec_name(&self) -> Seq<char> {
        "bar"@
    }

    open spec fn spec_get(&self, i: Foo) -> String {
        i.bar
    }

    fn name(&self) -> (r: &str) {
        "bar"
    }

    fn get(&self, i: Foo) -> (r: String) {
        i.bar
    }
}

impl AttrMut<Foo> for Bar {
    open spec fn spec_set(&self, i: Foo, v: String) -> Foo {
        Foo { bar: v, ..i }
    }

    proof fn lemma_get_set(&self, i: Foo, v: String) {
    }

    proof fn lemma_set_noop(&self, i: Foo) {
    }

    fn get_mut<'c>(&self, i: &'c mut Foo) -> (r: &'c mut String) {
        &mut i.bar
    }
}

impl Attr<Foo> for Batz {
    type Output = Bla;

    open spec fn spec_name(&self) -> Seq<char> {
        "batz"@
    }

    open spec fn spec_get(&self, i: Foo) -> Bla {
        i.batz
    }

    fn name(&self) -> (r: &str) {
        "batz"
    }

    fn get(&self, i: Foo) -> (r: Bla) {
        i.batz
    }
}

impl AttrMut<Foo> for Batz {
    open spec fn spec_set(&self, i: Foo, v: Bla) -> Foo {
        Foo { batz: v, ..i }
    }

    proof fn lemma_get_set(&self, i: Foo, v: Bla) {
    }

    proof fn lemma_set_noop(&self, i: Foo) {
    }

    fn get_mut<'c>(&self, i: &'c mut Foo) -> (r: &'c mut Bla) {
        &mut i.batz
    }
}

impl Attr<Bla> for Name {
    type Output = String;

    open spec fn spec_name(&self) -> Seq<char> {
        "name"@
    }

    open spec fn spec_get(&self, i: Bla) -> String {
        i.name
    }

    fn name(&self) -> (r: &str) {
        "name"
    }

    fn get(&self, i: Bla) -> (r: String) {
        i.name
    }
}

impl AttrMut<Bla> for Name {
    open spec fn spec_set(&self, i: Bla, v: String) -> Bla {
        Bla { name: v }
    }

    proof fn lemma_get_set(&self, i: Bla, v: String) {
    }

    proof fn lemma_set_noop(&self, i: Bla) {
    }

    fn get_mut<'c>(&self, i: &'c mut Bla) -> (r: &'c mut String) {
        &mut i.name
    }
}

impl Attr<Foo> for Numbers {
    type Output = Vec<i32>;

    open spec fn spec_name(&self) -> Seq<char> {
        "numbers"@
    }

    open spec fn spec_get(&self, i: Foo) -> Vec<i32> {
        i.numbers
    }

    fn name(&self) -> (r: &str) {
        "numbers"
    }

    fn get(&self, i: Foo) -> (r: Vec<i32>) {
        i.numbers
    }
}

impl AttrMut<Foo> for Numbers {
    open spec fn spec_set(&self, i: Foo, v: Vec<i32>) -> Foo {
        Foo { numbers: v, ..i }
    }

    proof fn lemma_get_set(&self, i: Foo, v: Vec<i32>) {
    }

    proof fn lemma_set_noop(&self, i: Foo) {
    }

    fn get_mut<'c>(&self, i: &'c mut Foo) -> (r: &'c mut Vec<i32>) {
        &mut i.numbers
    }
}

impl IndexableAttr<Foo> for Numbers {
    type Element = i32;

    open spec fn spec_elems(&self, i: Foo) -> Seq<i32> {
        i.numbers@
    }

    fn at(&self, i: Foo, idx: usize) -> (r: i32) {
        i.numbers[idx]
    }
}

impl IndexableAttrMut<Foo> for Numbers {
    open spec fn spec_untouched_outside_elems(&self, i1: Foo, i2: Foo) -> bool {
        i2 == Foo { numbers: i2.numbers, ..i1 }
    }

    fn at_mut<'c>(&self, i: &'c mut Foo, idx: usize) -> (r: &'c mut i32) {
        &mut i.numbers[idx]
    }
}

/// As a fallible accessor, [`Name`] treats an empty name as absent.  Inside
/// a branching path this makes failures per element: a record with an empty
/// name fills its own slot of the fan-out with a failure and leaves its
/// siblings alone.
impl<'a> InsecureAttr<&'a Bla> for Name {
    type Output = &'a String;

    open spec fn spec_name(&self) -> Seq<char> {
        "name"@
    }

    open spec fn spec_get(&self, i: &'a Bla) -> Result<&'a String, AccessKind> {
        if i.name@.len() == 0 {
            Err(AccessKind::MissingField)
        } else {
            Ok(&i.name)
        }
    }

    fn name(&self) -> (r: &str) {
        "name"
    }

    fn get(&self, i: &'a Bla) -> (r: Result<&'a String, AccessError>) {
        if i.name.as_str().is_empty() {
            Err(AccessError { kind: AccessKind::MissingField, name: "name".to_owned() })
        } else {
            Ok(&i.name)
        }
    }
}

/// As a fallible accessor, [`Batz`] treats a nested record whose name is
/// empty as absent, following the convention of the fallible [`Name`].
impl<'a> InsecureAttr<&'a Foo> for Batz {
    type Output = &'a Bla;

    open spec fn spec_name(&self) -> Seq<char> {
        "batz"@
    }

    open spec fn spec_get(&self, i: &'a Foo) -> Result<&'a Bla, AccessKind> {
        if i.batz.name@.len() == 0 {
            Err(AccessKind::MissingField)
        } else {
            Ok(&i.batz)
        }
    }

    fn name(&self) -> (r: &str) {
        "batz"
    }

    fn get(&self, i: &'a Foo) -> (r: Result<&'a Bla, AccessError>) {
        if i.batz.name.as_str().is_empty() {
            Err(AccessError { kind: AccessKind::MissingField, name: "batz".to_owned() })
        } else {
            Ok(&i.batz)
        }
    }
}

/// A record embedding a dynamically-typed tree value.
pub struct Document {
    /// The embedded tree.
    pub inner: Value,
}

/// The accessor of [`Document::inner`].
pub struct Inner;

impl<'a> Attr<&'a Document> for Inner {
    type Output = &'a Value;

    open spec fn spec_name(&self) -> Seq<char> {
        "inner"@
    }

    open spec fn spec_get(&self, i: &'a Document) -> &'a Value {
        &i.inner
    }

    fn name(&self) -> (r: &str) {
        "inner"
    }

    fn get(&self, i: &'a Document) -> (r: &'a Value) {
        &i.inner
    }
}

/// Mutation visibility across independently built paths: after writing `v`
/// through the mutable path to the name of the nested record, the
/// read-only path to the same location retrieves exactly `v`.
pub proof fn lemma_mutation_visible<'a, 'b: 'a, 'c>(
    wp: MutablePath<'a, 'b, Foo, Bla, String, Batz, MutablePath<
        'a,
        'b,
        Bla,
        String,
        String,
        Name,
        Identity,
    >>,
    rp: Path<&'c Foo, &'c String, Batz, Path<&'c Bla, &'c String, Name, Identity>>,
    f: Foo,
    v: String,
    r: &'c String,
)
    ensures
        rp.spec_traverse(&wp.spec_write(f, v), r) <==> *r == v,
{
}

} // verus!
