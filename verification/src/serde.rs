//! A fallible attribute over a dynamically-typed tree value.
//!
//! This is the canonical way data whose shape is not known at compile time
//! enters the path machinery: by presenting itself as an ordinary fallible
//! attribute.  The attribute looks a named child up in a [`Value`] and
//! reports a failure — never an abort — when the value is not an object,
//! the name is absent, a non-array is indexed, or an index is out of range;
//! every failure names this attribute.  A [`Value`] mirroring a JSON
//! document is built by the embedding application, typically from
//! `serde_json`'s tree.

use vstd::prelude::*;

use crate::value::spec_element_of;
use crate::value::spec_field_of;
use crate::value::Value;
use crate::AccessError;
use crate::InsecureAttr;
use crate::InsecureIndexableAttr;
use crate::InsecureIterableAttr;

verus! {

/// A named, fallible accessor into a dynamically-typed tree value.
pub struct SerdeAttribute<'n> {
    /// The name this attribute looks up.
    pub name: &'n str,
}

impl<'n> SerdeAttribute<'n> {
    /// Creates an accessor that looks children up under `name`.
    pub fn new(name: &'n str) -> (r: SerdeAttribute<'n>)
        ensures
            r.name@ == name@,
    {
        SerdeAttribute { name }
    }

    /// A failure of this attribute, of the given kind.
    fn fail(&self, kind: crate::AccessKind) -> (r: AccessError)
        ensures
            r.kind == kind,
            r.name@ == self.name@,
    {
        AccessError { kind, name: self.name.to_owned() }
    }
}

impl<'a, 'n> InsecureAttr<&'a Value> for SerdeAttribute<'n> {
    type Output = &'a Value;

    open spec fn spec_name(&self) -> Seq<char> {
        self.name@
    }

    open spec fn spec_get(&self, i: &'a Value) -> Result<&'a Value, crate::AccessKind> {
        match spec_field_of(*i, self.name@) {
            Ok(v) => Ok(&v),
            Err(k) => Err(k),
        }
    }

    fn name(&self) -> (r: &str) {
        self.name
    }

    fn get(&self, i: &'a Value) -> (r: Result<&'a Value, AccessError>) {
        match i.field(self.name) {
            Ok(v) => Ok(v),
            Err(k) => Err(self.fail(k)),
        }
    }
}

impl<'a, 'n> InsecureIndexableAttr<&'a Value> for SerdeAttribute<'n> {
    type Element = &'a Value;

    open spec fn spec_at(&self, i: &'a Value, idx: int) -> Result<&'a Value, crate::AccessKind> {
        match spec_field_of(*i, self.name@) {
            Ok(v) => match spec_element_of(v, idx) {
                Ok(w) => Ok(&w),
                Err(k) => Err(k),
            },
            Err(k) => Err(k),
        }
    }

    fn at(&self, i: &'a Value, idx: usize) -> (r: Result<&'a Value, AccessError>) {
        match i.field(self.name) {
            Ok(v) => match v.element(idx) {
                Ok(w) => Ok(w),
                Err(k) => Err(self.fail(k)),
            },
            Err(k) => Err(self.fail(k)),
        }
    }
}

impl<'a, 'n> InsecureIterableAttr<&'a Value> for SerdeAttribute<'n> {
    type Item = &'a Value;

    open spec fn spec_items(&self, i: &'a Value) -> Result<Seq<&'a Value>, crate::AccessKind> {
        match spec_field_of(*i, self.name@) {
            Ok(v) => match v {
                Value::Array(elems) => Ok(Seq::new(elems@.len(), |j: int| &elems@[j])),
                _ => Err(crate::AccessKind::NotAnArray),
            },
            Err(k) => Err(k),
        }
    }

    fn iter(&self, i: &'a Value) -> (r: Result<Vec<&'a Value>, AccessError>) {
        match i.field(self.name) {
            Ok(v) => match v {
                Value::Array(elems) => {
                    let n = elems.len();
                    let mut out: Vec<&'a Value> = Vec::new();
                    let mut j: usize = 0;
                    while j < n
                        invariant
                            n == elems@.len(),
                            j <= n,
                            out@.len() == j,
                            forall|k: int| 0 <= k < j ==> #[trigger] out@[k] == &elems@[k],
                        decreases n - j,
                    {
                        out.push(&elems[j]);
                        j = j + 1;
                    }
                    proof {
                        assert(out@ =~= Seq::new(elems@.len(), |k: int| &elems@[k]));
                    }
                    Ok(out)
                },
                _ => Err(self.fail(crate::AccessKind::NotAnArray)),
            },
            Err(k) => Err(self.fail(k)),
        }
    }
}

} // verus!
