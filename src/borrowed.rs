use vstd::prelude::*;

use crate::decode::{Json, ValueBuilder};
use crate::value::{Number, ValueType};

verus! {

/// The string-keyed map of a borrowed object. Keys are unique; inserting an
/// existing key replaces its value.
#[verifier::external_body]
#[derive(Debug, PartialEq)]
pub struct BorrowedObject<'a> {
    map: halfbrown::HashMap<&'a str, BorrowedValue<'a>>,
}

/// What a borrowed object holds: each key's characters mapped to its value.
pub uninterp spec fn borrowed_entries(o: BorrowedObject) -> Map<Seq<char>, BorrowedValue>;

/// The contents of a borrowed object with no entries.
pub open spec fn empty_borrowed_entries<'a>() -> Map<Seq<char>, BorrowedValue<'a>> {
    Map::empty()
}

impl<'a> BorrowedObject<'a> {
    /// Relies on halfbrown::HashMap::with_capacity: a map with no entries,
    /// with room reserved for `n` of them.
    #[verifier::external_body]
    pub fn with_capacity(n: usize) -> (r: BorrowedObject<'a>)
        ensures
            borrowed_entries(r) == empty_borrowed_entries::<'a>(),
    {
        BorrowedObject { map: halfbrown::HashMap::with_capacity(n) }
    }

    /// Relies on halfbrown::HashMap::insert: the key now maps to `v`, and the
    /// value it held before, if any, is returned.
    #[verifier::external_body]
    pub fn insert(&mut self, k: &'a str, v: BorrowedValue<'a>) -> (r: Option<BorrowedValue<'a>>)
        ensures
            borrowed_entries(*final(self)) == borrowed_entries(*old(self)).insert(k@, v),
            r == (if borrowed_entries(*old(self)).contains_key(k@) {
                Some(borrowed_entries(*old(self))[k@])
            } else {
                None::<BorrowedValue<'a>>
            }),
    {
        self.map.insert(k, v)
    }

    /// Relies on halfbrown::HashMap::get: the value stored under the key.
    #[verifier::external_body]
    pub fn get(&self, k: &str) -> (r: Option<&BorrowedValue<'a>>)
        ensures
            r == (if borrowed_entries(*self).contains_key(k@) {
                Some(&borrowed_entries(*self)[k@])
            } else {
                None::<&BorrowedValue<'a>>
            }),
    {
        self.map.get(k)
    }

    /// Relies on halfbrown::HashMap::len: the number of entries.
    #[verifier::external_body]
    pub fn len(&self) -> (r: usize)
        ensures
            r == borrowed_entries(*self).dom().len(),
    {
        self.map.len()
    }
}

/// A JSON value whose strings are views into the token data it was read
/// from, and which lives no longer than that data.
///
/// Floats are held by their IEEE-754 bit pattern.
#[derive(Debug, PartialEq)]
pub enum BorrowedValue<'a> {
    Null,
    Bool(bool),
    I64(i64),
    F64(u64),
    String(&'a str),
    Array(Vec<BorrowedValue<'a>>),
    Object(BorrowedObject<'a>),
}

impl<'a> BorrowedValue<'a> {
    /// The kind of this value.
    pub fn value_type(&self) -> (r: ValueType)
        ensures
            r == (match *self {
                BorrowedValue::Null => ValueType::Null,
                BorrowedValue::Bool(_) => ValueType::Bool,
                BorrowedValue::I64(_) => ValueType::I64,
                BorrowedValue::F64(_) => ValueType::F64,
                BorrowedValue::String(_) => ValueType::String,
                BorrowedValue::Array(_) => ValueType::Array,
                BorrowedValue::Object(_) => ValueType::Object,
            }),
    {
        match self {
            BorrowedValue::Null => ValueType::Null,
            BorrowedValue::Bool(_) => ValueType::Bool,
            BorrowedValue::I64(_) => ValueType::I64,
            BorrowedValue::F64(_) => ValueType::F64,
            BorrowedValue::String(_) => ValueType::String,
            BorrowedValue::Array(_) => ValueType::Array,
            BorrowedValue::Object(_) => ValueType::Object,
        }
    }

    /// The value as a string slice.
    pub fn as_str(&self) -> (r: Option<&'a str>)
        ensures
            match *self {
                BorrowedValue::String(s) => r == Some(s),
                _ => r is None,
            },
    {
        match self {
            BorrowedValue::String(s) => Some(*s),
            _ => None,
        }
    }

    /// The value stored under `k`, when this is an object that holds the key.
    pub fn get(&self, k: &str) -> (r: Option<&BorrowedValue<'a>>)
        ensures
            r == (match *self {
                BorrowedValue::Object(o) => if borrowed_entries(o).contains_key(k@) {
                    Some(&borrowed_entries(o)[k@])
                } else {
                    None::<&BorrowedValue<'a>>
                },
                _ => None::<&BorrowedValue<'a>>,
            }),
    {
        match self {
            BorrowedValue::Object(o) => o.get(k),
            _ => None,
        }
    }

    /// The element at index `i`, when this is an array that long.
    pub fn get_idx(&self, i: usize) -> (r: Option<&BorrowedValue<'a>>)
        ensures
            r == (match *self {
                BorrowedValue::Array(a) => if i < a@.len() {
                    Some(&a@[i as int])
                } else {
                    None::<&BorrowedValue<'a>>
                },
                _ => None::<&BorrowedValue<'a>>,
            }),
    {
        match self {
            BorrowedValue::Array(a) => {
                if i < a.len() {
                    Some(&a[i])
                } else {
                    None
                }
            },
            _ => None,
        }
    }

    /// The value as an `i64`, when it is an integer.
    pub fn as_i64(&self) -> (r: Option<i64>)
        ensures
            r == (match *self {
                BorrowedValue::I64(i) => Some(i),
                _ => None::<i64>,
            }),
    {
        match self {
            BorrowedValue::I64(i) => Some(*i),
            _ => None,
        }
    }

    /// The value as a boolean.
    pub fn as_bool(&self) -> (r: Option<bool>)
        ensures
            r == (match *self {
                BorrowedValue::Bool(b) => Some(b),
                _ => None::<bool>,
            }),
    {
        match self {
            BorrowedValue::Bool(b) => Some(*b),
            _ => None,
        }
    }

    /// The number of elements of an array, or of entries of an object.
    pub fn len(&self) -> (r: Option<usize>)
        ensures
            r == (match *self {
                BorrowedValue::Array(a) => Some(a@.len() as usize),
                BorrowedValue::Object(o) => Some(borrowed_entries(o).dom().len() as usize),
                _ => None::<usize>,
            }),
    {
        match self {
            BorrowedValue::Array(a) => Some(a.len()),
            BorrowedValue::Object(o) => Some(o.len()),
            _ => None,
        }
    }
}


/// `v` is a borrowed value with the shape and contents of the document `j`.
pub open spec fn borrowed_models(v: BorrowedValue, j: Json) -> bool
    decreases j,
{
    match j {
        Json::Null => v == BorrowedValue::Null,
        Json::Bool(b) => v == BorrowedValue::Bool(b),
        Json::I64(i) => v == BorrowedValue::I64(i),
        Json::F64(b) => v == BorrowedValue::F64(b),
        Json::Str(s) => v is String && v->String_0@ == s,
        Json::Arr(items) => {
            &&& v is Array
            &&& v->Array_0@.len() == items.len()
            &&& forall|i: int|
                0 <= i < items.len() ==> borrowed_models(#[trigger] v->Array_0@[i], items[i])
        },
        Json::Obj(m) => {
            &&& v is Object
            &&& m.dom().finite()
            &&& borrowed_entries(v->Object_0).dom() == m.dom()
            &&& forall|k: Seq<char>| #[trigger]
                m.dom().contains(k) ==> borrowed_models(borrowed_entries(v->Object_0)[k], m[k])
        },
    }
}

impl<'a> ValueBuilder<'a> for BorrowedValue<'a> {
    type Obj = BorrowedObject<'a>;

    open spec fn represents(&self, j: Json) -> bool {
        borrowed_models(*self, j)
    }

    open spec fn obj_represents(o: &BorrowedObject<'a>, m: Map<Seq<char>, Json>) -> bool {
        &&& borrowed_entries(*o).dom() == m.dom()
        &&& forall|k: Seq<char>| #[trigger]
            m.dom().contains(k) ==> borrowed_models(borrowed_entries(*o)[k], m[k])
    }

    fn from_text(s: &'a String) -> (r: BorrowedValue<'a>) {
        BorrowedValue::String(s.as_str())
    }

    fn from_number(n: Number) -> (r: BorrowedValue<'a>) {
        match n {
            Number::I64(i) => BorrowedValue::I64(i),
            Number::F64(b) => BorrowedValue::F64(b),
        }
    }

    fn from_bool(b: bool) -> (r: BorrowedValue<'a>) {
        BorrowedValue::Bool(b)
    }

    fn from_null() -> (r: BorrowedValue<'a>) {
        BorrowedValue::Null
    }

    fn from_vec(items: Vec<BorrowedValue<'a>>, js: Ghost<Seq<Json>>) -> (r: BorrowedValue<'a>) {
        BorrowedValue::Array(items)
    }

    fn obj_with_capacity(n: usize) -> (r: BorrowedObject<'a>) {
        let o = BorrowedObject::with_capacity(n);
        assert(borrowed_entries(o).dom() =~= Map::<Seq<char>, Json>::empty().dom());
        o
    }

    fn obj_insert(
        o: &mut BorrowedObject<'a>,
        k: &'a String,
        v: BorrowedValue<'a>,
        m: Ghost<Map<Seq<char>, Json>>,
        j: Ghost<Json>,
    ) {
        o.insert(k.as_str(), v);
        assert(borrowed_entries(*o).dom() =~= m@.insert(k@, j@).dom());
    }

    fn from_obj(o: BorrowedObject<'a>, m: Ghost<Map<Seq<char>, Json>>) -> (r: BorrowedValue<'a>) {
        BorrowedValue::Object(o)
    }
}

} // verus!
