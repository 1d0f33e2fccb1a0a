//! A dynamic, JSON-like tree value.
//!
//! This is the kind of data whose shape is not known at compile time and
//! whose access can therefore fail; it enters the path machinery through
//! the fallible attribute in [`crate::serde`].  Named children of an object
//! are looked up front to back; the first entry under a name wins.  The
//! checked accessors ([`Value::field`], [`Value::element`]) report a
//! failure kind; the exclusive accessors ([`Value::field_mut`],
//! [`Value::element_mut`]) make the caller guarantee presence instead, as
//! the unchecked indexed attribute does.

use vstd::prelude::*;

use crate::AccessKind;

verus! {

/// A dynamically-typed tree value.
#[derive(Debug, PartialEq)]
pub enum Value {
    /// The absent value.
    Null,
    /// A boolean.
    Bool(bool),
    /// An unsigned integer.
    U64(u64),
    /// A signed integer.
    I64(i64),
    /// A text value.
    Str(String),
    /// A sequence of values.
    Array(Vec<Value>),
    /// Named children, looked up front to back by name.
    Object(Vec<(String, Value)>),
}

/// The first value under `name` in `entries`, front to back, or the exact
/// failure kind when no entry carries that name.
pub open spec fn spec_lookup(entries: Seq<(String, Value)>, name: Seq<char>) -> Result<
    Value,
    AccessKind,
>
    decreases entries.len(),
{
    if entries.len() == 0 {
        Err(AccessKind::MissingField)
    } else if entries[0].0@ == name {
        Ok(entries[0].1)
    } else {
        spec_lookup(entries.drop_first(), name)
    }
}

/// The position of the first entry under `name` in `entries`; meaningful
/// only where [`spec_lookup`] succeeds.
pub open spec fn spec_lookup_index(entries: Seq<(String, Value)>, name: Seq<char>) -> int
    decreases entries.len(),
{
    if entries.len() == 0 {
        0
    } else if entries[0].0@ == name {
        0
    } else {
        1 + spec_lookup_index(entries.drop_first(), name)
    }
}

/// Where a lookup succeeds, it returns the entry at [`spec_lookup_index`]:
/// that position is in range, carries the name, and no earlier entry does.
pub proof fn lemma_lookup_index(entries: Seq<(String, Value)>, name: Seq<char>)
    requires
        spec_lookup(entries, name) is Ok,
    ensures
        ({
            let k = spec_lookup_index(entries, name);
            &&& 0 <= k < entries.len()
            &&& entries[k].0@ == name
            &&& spec_lookup(entries, name) == Ok::<Value, AccessKind>(entries[k].1)
            &&& forall|m: int| 0 <= m < k ==> (#[trigger] entries[m]).0@ != name
        }),
    decreases entries.len(),
{
    if entries.len() == 0 {
    } else if entries[0].0@ == name {
    } else {
        lemma_lookup_index(entries.drop_first(), name);
        let rest = entries.drop_first();
        let k1 = spec_lookup_index(rest, name);
        assert(entries[k1 + 1] == rest[k1]);
        assert forall|m: int| 0 <= m < k1 + 1 implies (#[trigger] entries[m]).0@ != name by {
            if m > 0 {
                assert(entries[m] == rest[m - 1]);
            }
        }
    }
}

/// Dynamic mutation visibility: replacing the value of the entry that a
/// successful lookup found makes a later lookup of the same name yield the
/// replacement.
pub proof fn lemma_field_update_visible(
    entries: Seq<(String, Value)>,
    name: Seq<char>,
    v: Value,
)
    requires
        spec_lookup(entries, name) is Ok,
    ensures
        ({
            let k = spec_lookup_index(entries, name);
            spec_lookup(entries.update(k, (entries[k].0, v)), name) == Ok::<Value, AccessKind>(v)
        }),
    decreases entries.len(),
{
    lemma_lookup_index(entries, name);
    if entries.len() == 0 {
    } else if entries[0].0@ == name {
        assert(entries.update(0, (entries[0].0, v))[0] == (entries[0].0, v));
    } else {
        let k = spec_lookup_index(entries, name);
        lemma_field_update_visible(entries.drop_first(), name, v);
        let rest = entries.drop_first();
        let k1 = spec_lookup_index(rest, name);
        assert(rest[k1] == entries[k]);
        assert(entries.update(k, (entries[k].0, v)).drop_first() =~= rest.update(
            k1,
            (rest[k1].0, v),
        ));
        assert(entries.update(k, (entries[k].0, v))[0] == entries[0]);
    }
}

/// The named child of `v`: its lookup result when `v` is an object, and the
/// exact failure kind otherwise.
pub open spec fn spec_field_of(v: Value, name: Seq<char>) -> Result<Value, AccessKind> {
    match v {
        Value::Object(entries) => spec_lookup(entries@, name),
        _ => Err(AccessKind::NotAnObject),
    }
}

/// The element of `v` at `idx`: the array element when `v` is an array and
/// the index is within bounds, and the exact failure kind otherwise.
pub open spec fn spec_element_of(v: Value, idx: int) -> Result<Value, AccessKind> {
    match v {
        Value::Array(elems) => if 0 <= idx < elems@.len() {
            Ok(elems@[idx])
        } else {
            Err(AccessKind::IndexOutOfRange)
        },
        _ => Err(AccessKind::NotAnArray),
    }
}

/// Relies on `str`'s `==` (`core::cmp::PartialEq` for `str`): two string
/// slices compare equal exactly when their character sequences are equal.
#[verifier::external_body]
fn str_eq(a: &str, b: &str) -> (r: bool)
    ensures
        r == (a@ == b@),
{
    a == b
}

impl Value {
    /// Looks up the named child of this value, failing when the value is
    /// not an object or no child carries the name.
    pub fn field<'a>(&'a self, name: &str) -> (r: Result<&'a Value, AccessKind>)
        ensures
            match spec_field_of(*self, name@) {
                Ok(v) => r is Ok && *(r->Ok_0) == v,
                Err(k) => r == Err::<&'a Value, AccessKind>(k),
            },
    {
        match self {
            Value::Object(entries) => {
                let n = entries.len();
                let mut j: usize = 0;
                proof {
                    assert(entries@.skip(0) =~= entries@);
                }
                while j < n
                    invariant
                        n == entries@.len(),
                        j <= n,
                        *self == Value::Object(*entries),
                        spec_lookup(entries@, name@) == spec_lookup(
                            entries@.skip(j as int),
                            name@,
                        ),
                    decreases n - j,
                {
                    proof {
                        assert(entries@.skip(j as int).len() == n - j);
                        assert(entries@.skip(j as int)[0] == entries@[j as int]);
                    }
                    if str_eq(entries[j].0.as_str(), name) {
                        proof {
                            assert(spec_lookup(entries@.skip(j as int), name@)
                                == Ok::<Value, AccessKind>(entries@[j as int].1));
                        }
                        return Ok(&entries[j].1);
                    }
                    proof {
                        assert(entries@.skip(j as int).drop_first() =~= entries@.skip(
                            j as int + 1,
                        ));
                    }
                    j = j + 1;
                }
                proof {
                    assert(entries@.skip(n as int).len() == 0);
                }
                Err(AccessKind::MissingField)
            },
            _ => Err(AccessKind::NotAnObject),
        }
    }

    /// Looks up the element of this value at `idx`, failing when the value
    /// is not an array or the index is out of range.
    pub fn element<'a>(&'a self, idx: usize) -> (r: Result<&'a Value, AccessKind>)
        ensures
            match spec_element_of(*self, idx as int) {
                Ok(v) => r is Ok && *(r->Ok_0) == v,
                Err(k) => r == Err::<&'a Value, AccessKind>(k),
            },
    {
        match self {
            Value::Array(elems) => {
                if idx < elems.len() {
                    Ok(&elems[idx])
                } else {
                    Err(AccessKind::IndexOutOfRange)
                }
            },
            _ => Err(AccessKind::NotAnArray),
        }
    }

    /// The position of the first child under `name`; the entries are left
    /// untouched.
    fn field_index(&self, name: &str) -> (j: usize)
        requires
            spec_field_of(*self, name@) is Ok,
        ensures
            (*self) is Object,
            j == spec_lookup_index((*self)->Object_0@, name@),
            j < (*self)->Object_0@.len(),
    {
        match self {
            Value::Object(entries) => {
                proof {
                    lemma_lookup_index(entries@, name@);
                }
                let ghost k = spec_lookup_index(entries@, name@);
                let n = entries.len();
                let mut j: usize = 0;
                while j < n
                    invariant
                        n == entries@.len(),
                        *self == Value::Object(*entries),
                        k == spec_lookup_index(entries@, name@),
                        0 <= k < n,
                        entries@[k].0@ == name@,
                        forall|m: int| 0 <= m < k ==> (#[trigger] entries@[m]).0@ != name@,
                        j <= k,
                    decreases n - j,
                {
                    if str_eq(entries[j].0.as_str(), name) {
                        proof {
                            assert(j == k);
                        }
                        return j;
                    }
                    proof {
                        assert(j != k);
                    }
                    j = j + 1;
                }
                proof {
                    assert(false);
                }
                unreached()
            },
            _ => unreached(),
        }
    }

    /// Exclusive access to the first child under `name`; the presence that
    /// the checked form ([`Value::field`]) tests is here the caller's
    /// obligation.  The view reads that child, writing through it updates
    /// exactly that entry's value, and every other entry stays as it was.
    pub fn field_mut<'a>(&'a mut self, name: &str) -> (r: &'a mut Value)
        requires
            spec_field_of(*old(self), name@) is Ok,
        ensures
            *r == spec_field_of(*old(self), name@)->Ok_0,
            (*final(self)) is Object,
            ({
                let entries = (*old(self))->Object_0@;
                let k = spec_lookup_index(entries, name@);
                (*final(self))->Object_0@ == entries.update(k, (entries[k].0, *final(r)))
            }),
    {
        proof {
            lemma_lookup_index((*old(self))->Object_0@, name@);
        }
        let idx = self.field_index(name);
        match self {
            Value::Object(entries) => &mut entries[idx].1,
            _ => unreached(),
        }
    }

    /// Exclusive access to the element at `idx`; the bounds that the
    /// checked form ([`Value::element`]) tests are here the caller's
    /// obligation.  The view reads that element, writing through it updates
    /// exactly that element, and every other element stays as it was.
    pub fn element_mut<'a>(&'a mut self, idx: usize) -> (r: &'a mut Value)
        requires
            spec_element_of(*old(self), idx as int) is Ok,
        ensures
            *r == (*old(self))->Array_0@[idx as int],
            (*final(self)) is Array,
            (*final(self))->Array_0@ == (*old(self))->Array_0@.update(idx as int, *final(r)),
    {
        match self {
            Value::Array(elems) => &mut elems[idx],
            _ => unreached(),
        }
    }
}

} // verus!
