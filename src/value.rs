use vstd::prelude::*;

use crate::decode::{models, Json, ValueBuilder};

verus! {

/// An access error for a value used as the wrong kind of container.
#[derive(Debug, Clone, Copy, PartialEq, Eq, Structural)]
pub enum AccessError {
    /// The value was used as an object but is not one.
    NotAnObject,
    /// The value was used as an array but is not one.
    NotAnArray,
}

impl AccessError {
    /// A human-readable description of the error.
    pub fn message(&self) -> (r: String)
        ensures
            *self == AccessError::NotAnArray ==> r@ == "The value is not an array"@,
            *self == AccessError::NotAnObject ==> r@ == "The value is not an object"@,
    {
        match self {
            AccessError::NotAnArray => String::from_str("The value is not an array"),
            AccessError::NotAnObject => String::from_str("The value is not an object"),
        }
    }
}

/// The kinds of JSON values.
#[derive(Debug, Clone, Copy, PartialEq, Eq, Structural)]
pub enum ValueType {
    /// null
    Null,
    /// a boolean
    Bool,
    /// a signed integer
    I64,
    /// an unsigned integer
    U64,
    /// a float
    F64,
    /// a string
    String,
    /// an array
    Array,
    /// an object
    Object,
}

/// A number as the tokenizer hands it over: an exact signed integer, or a
/// 64-bit float given by its IEEE-754 bit pattern.
#[derive(Debug, Clone, Copy, PartialEq, Eq, Structural)]
pub enum Number {
    I64(i64),
    F64(u64),
}

/// The string-keyed map of an object. Keys are unique; inserting an existing
/// key replaces its value.
#[verifier::external_body]
#[derive(Debug, PartialEq)]
pub struct Object {
    map: halfbrown::HashMap<String, Value>,
}

/// What an object holds: each key's characters mapped to its value.
pub uninterp spec fn entries(o: Object) -> Map<Seq<char>, Value>;

/// The contents of an object with no entries.
pub open spec fn empty_entries() -> Map<Seq<char>, Value> {
    Map::empty()
}

impl Object {
    /// Relies on halfbrown::HashMap::new: a map with no entries.
    #[verifier::external_body]
    pub fn new() -> (r: Object)
        ensures
            entries(r) == empty_entries(),
    {
        Object { map: halfbrown::HashMap::new() }
    }

    /// Relies on halfbrown::HashMap::with_capacity: a map with no entries,
    /// with room reserved for `n` of them.
    #[verifier::external_body]
    pub fn with_capacity(n: usize) -> (r: Object)
        ensures
            entries(r) == empty_entries(),
    {
        Object { map: halfbrown::HashMap::with_capacity(n) }
    }

    /// Relies on halfbrown::HashMap::insert: the key now maps to `v`, and the
    /// value it held before, if any, is returned.
    #[verifier::external_body]
    pub fn insert(&mut self, k: String, v: Value) -> (r: Option<Value>)
        ensures
            entries(*final(self)) == entries(*old(self)).insert(k@, v),
            r == (if entries(*old(self)).contains_key(k@) {
                Some(entries(*old(self))[k@])
            } else {
                None::<Value>
            }),
    {
        self.map.insert(k, v)
    }

    /// Relies on halfbrown::HashMap::remove: the key is gone, and the value it
    /// held, if any, is returned.
    #[verifier::external_body]
    pub fn remove(&mut self, k: &str) -> (r: Option<Value>)
        ensures
            entries(*final(self)) == entries(*old(self)).remove(k@),
            r == (if entries(*old(self)).contains_key(k@) {
                Some(entries(*old(self))[k@])
            } else {
                None::<Value>
            }),
    {
        self.map.remove(k)
    }

    /// Relies on halfbrown::HashMap::get: the value stored under the key.
    #[verifier::external_body]
    pub fn get(&self, k: &str) -> (r: Option<&Value>)
        ensures
            r == (if entries(*self).contains_key(k@) {
                Some(&entries(*self)[k@])
            } else {
                None::<&Value>
            }),
    {
        self.map.get(k)
    }

    /// Relies on halfbrown::HashMap::get_mut: a mutable reference to the value
    /// stored under the key, through which the entry is updated in place.
    #[verifier::external_body]
    pub fn get_mut(&mut self, k: &str) -> (r: Option<&mut Value>)
        ensures
            entries(*old(self)).contains_key(k@) ==> r is Some && *r->Some_0 == entries(
                *old(self),
            )[k@] && entries(*final(self)) == entries(*old(self)).insert(k@, *final(r->Some_0)),
            !entries(*old(self)).contains_key(k@) ==> r is None && entries(*final(self))
                == entries(*old(self)),
    {
        self.map.get_mut(k)
    }

    /// Relies on halfbrown::HashMap::len: the number of entries.
    #[verifier::external_body]
    pub fn len(&self) -> (r: usize)
        ensures
            r == entries(*self).dom().len(),
    {
        self.map.len()
    }

    /// Relies on halfbrown::HashMap::iter: each key once, in the map's own order.
    #[verifier::external_body]
    pub fn keys(&self) -> (r: Vec<String>)
        ensures
            r@.len() == entries(*self).dom().len(),
            forall|i: int| 0 <= i < r@.len() ==> entries(*self).contains_key(#[trigger] r@[i]@),
            forall|k: Seq<char>| #[trigger] entries(*self).contains_key(k) ==>
                exists|i: int| 0 <= i < r@.len() && r@[i]@ == k,
            forall|i: int, j: int| 0 <= i < j < r@.len() ==> r@[i]@ != r@[j]@,
    {
        self.map.iter().map(|(k, _)| k.clone()).collect()
    }
}

/// A JSON value that owns all of its data.
///
/// Floats are held by their IEEE-754 bit pattern, so two floats are equal
/// exactly when their bits are.
#[derive(Debug, PartialEq)]
pub enum Value {
    Null,
    Bool(bool),
    I64(i64),
    F64(u64),
    String(String),
    Array(Vec<Value>),
    Object(Object),
}

/// The value that `as_u64` reads from a value: a non-negative integer.
pub open spec fn u64_of(v: Value) -> Option<u64> {
    match v {
        Value::I64(i) => if i >= 0 { Some(i as u64) } else { None },
        _ => None,
    }
}

/// The value that `as_i64` reads from a value.
pub open spec fn i64_of(v: Value) -> Option<i64> {
    match v {
        Value::I64(i) => Some(i),
        _ => None,
    }
}

impl Value {
    /// An empty array.
    pub fn array() -> (r: Value)
        ensures
            r is Array,
            r->Array_0@.len() == 0,
    {
        Value::Array(Vec::new())
    }

    /// An empty object.
    pub fn object() -> (r: Value)
        ensures
            r is Object,
            entries(r->Object_0) == empty_entries(),
    {
        Value::Object(Object::new())
    }

    /// The null value.
    pub fn null() -> (r: Value)
        ensures
            r == Value::Null,
    {
        Value::Null
    }

    /// The value stored under `k`, when this is an object that holds the key.
    pub fn get(&self, k: &str) -> (r: Option<&Value>)
        ensures
            r == (match *self {
                Value::Object(o) => if entries(o).contains_key(k@) {
                    Some(&entries(o)[k@])
                } else {
                    None::<&Value>
                },
                _ => None::<&Value>,
            }),
    {
        match self {
            Value::Object(o) => o.get(k),
            _ => None,
        }
    }

    /// Inserts into this value as an object, returning the value the key held
    /// before; fails with `NotAnObject` on any other value, which is left as
    /// it was.
    pub fn insert(&mut self, k: String, v: Value) -> (r: Result<Option<Value>, AccessError>)
        ensures
            match *old(self) {
                Value::Object(o) => {
                    &&& (*final(self)) is Object
                    &&& entries((*final(self))->Object_0) == entries(o).insert(k@, v)
                    &&& r == Ok::<Option<Value>, AccessError>(
                        if entries(o).contains_key(k@) {
                            Some(entries(o)[k@])
                        } else {
                            None::<Value>
                        },
                    )
                },
                _ => *final(self) == *old(self) && r == Err::<Option<Value>, AccessError>(
                    AccessError::NotAnObject,
                ),
            },
    {
        match self {
            Value::Object(o) => Ok(o.insert(k, v)),
            _ => Err(AccessError::NotAnObject),
        }
    }

    /// Removes `k` from this value as an object, returning the value it held;
    /// fails with `NotAnObject` on any other value, which is left as it was.
    pub fn remove(&mut self, k: &str) -> (r: Result<Option<Value>, AccessError>)
        ensures
            match *old(self) {
                Value::Object(o) => {
                    &&& (*final(self)) is Object
                    &&& entries((*final(self))->Object_0) == entries(o).remove(k@)
                    &&& r == Ok::<Option<Value>, AccessError>(
                        if entries(o).contains_key(k@) {
                            Some(entries(o)[k@])
                        } else {
                            None::<Value>
                        },
                    )
                },
                _ => *final(self) == *old(self) && r == Err::<Option<Value>, AccessError>(
                    AccessError::NotAnObject,
                ),
            },
    {
        match self {
            Value::Object(o) => Ok(o.remove(k)),
            _ => Err(AccessError::NotAnObject),
        }
    }

    /// Appends to this value as an array; fails with `NotAnArray` on any other
    /// value, which is left as it was.
    pub fn push(&mut self, v: Value) -> (r: Result<(), AccessError>)
        ensures
            match *old(self) {
                Value::Array(a) => {
                    &&& (*final(self)) is Array
                    &&& (*final(self))->Array_0@ == a@.push(v)
                    &&& r is Ok
                },
                _ => *final(self) == *old(self) && r == Err::<(), AccessError>(
                    AccessError::NotAnArray,
                ),
            },
    {
        match self {
            Value::Array(a) => {
                a.push(v);
                Ok(())
            },
            _ => Err(AccessError::NotAnArray),
        }
    }

    /// Takes the last element off this value as an array; fails with
    /// `NotAnArray` on any other value, which is left as it was.
    pub fn pop(&mut self) -> (r: Result<Option<Value>, AccessError>)
        ensures
            match *old(self) {
                Value::Array(a) => {
                    &&& (*final(self)) is Array
                    &&& if a@.len() == 0 {
                        (*final(self))->Array_0@ == a@ && r == Ok::<Option<Value>, AccessError>(
                            None,
                        )
                    } else {
                        (*final(self))->Array_0@ == a@.drop_last() && r == Ok::<
                            Option<Value>,
                            AccessError,
                        >(Some(a@.last()))
                    }
                },
                _ => *final(self) == *old(self) && r == Err::<Option<Value>, AccessError>(
                    AccessError::NotAnArray,
                ),
            },
    {
        match self {
            Value::Array(a) => Ok(a.pop()),
            _ => Err(AccessError::NotAnArray),
        }
    }

    /// The element at index `i`, when this is an array that long.
    pub fn get_idx(&self, i: usize) -> (r: Option<&Value>)
        ensures
            r == (match *self {
                Value::Array(a) => if i < a@.len() {
                    Some(&a@[i as int])
                } else {
                    None::<&Value>
                },
                _ => None::<&Value>,
            }),
    {
        match self {
            Value::Array(a) => {
                if i < a.len() {
                    Some(&a[i])
                } else {
                    None
                }
            },
            _ => None,
        }
    }

    /// A mutable reference to the value stored under `k`, when this is an
    /// object that holds the key; whatever is written through it is stored
    /// under that key.
    pub fn get_mut(&mut self, k: &str) -> (r: Option<&mut Value>)
        ensures
            match *old(self) {
                Value::Object(o) => if entries(o).contains_key(k@) {
                    &&& r is Some
                    &&& *r->Some_0 == entries(o)[k@]
                    &&& (*final(self)) is Object
                    &&& entries((*final(self))->Object_0) == entries(o).insert(k@, *final(r->Some_0))
                } else {
                    &&& r is None
                    &&& (*final(self)) is Object
                    &&& entries((*final(self))->Object_0) == entries(o)
                },
                _ => r is None && *final(self) == *old(self),
            },
    {
        match self {
            Value::Object(o) => o.get_mut(k),
            _ => None,
        }
    }

    /// A mutable reference to the element at index `i`, when this is an
    /// array that long; whatever is written through it lands at that index.
    pub fn get_idx_mut(&mut self, i: usize) -> (r: Option<&mut Value>)
        ensures
            match *old(self) {
                Value::Array(a) => if i < a@.len() {
                    &&& r is Some
                    &&& *r->Some_0 == a@[i as int]
                    &&& (*final(self)) is Array
                    &&& (*final(self))->Array_0@ == a@.update(i as int, *final(r->Some_0))
                } else {
                    r is None && *final(self) == *old(self)
                },
                _ => r is None && *final(self) == *old(self),
            },
    {
        match self {
            Value::Array(a) => {
                if i < a.len() {
                    Some(&mut a[i])
                } else {
                    None
                }
            },
            _ => None,
        }
    }

    /// The kind of this value.
    pub fn value_type(&self) -> (r: ValueType)
        ensures
            r == (match *self {
                Value::Null => ValueType::Null,
                Value::Bool(_) => ValueType::Bool,
                Value::I64(_) => ValueType::I64,
                Value::F64(_) => ValueType::F64,
                Value::String(_) => ValueType::String,
                Value::Array(_) => ValueType::Array,
                Value::Object(_) => ValueType::Object,
            }),
    {
        match self {
            Value::Null => ValueType::Null,
            Value::Bool(_) => ValueType::Bool,
            Value::I64(_) => ValueType::I64,
            Value::F64(_) => ValueType::F64,
            Value::String(_) => ValueType::String,
            Value::Array(_) => ValueType::Array,
            Value::Object(_) => ValueType::Object,
        }
    }

    /// Whether this is null.
    pub fn is_null(&self) -> (r: bool)
        ensures
            r == (*self is Null),
    {
        match self {
            Value::Null => true,
            _ => false,
        }
    }

    /// The value as a boolean.
    pub fn as_bool(&self) -> (r: Option<bool>)
        ensures
            r == (match *self {
                Value::Bool(b) => Some(b),
                _ => None::<bool>,
            }),
    {
        match self {
            Value::Bool(b) => Some(*b),
            _ => None,
        }
    }

    /// Whether this is a boolean.
    pub fn is_bool(&self) -> (r: bool)
        ensures
            r == (*self is Bool),
    {
        self.as_bool().is_some()
    }

    /// The value as an `i64`, when it is an integer.
    pub fn as_i64(&self) -> (r: Option<i64>)
        ensures
            r == i64_of(*self),
    {
        match self {
            Value::I64(i) => Some(*i),
            _ => None,
        }
    }

    /// Whether this is an integer.
    pub fn is_i64(&self) -> (r: bool)
        ensures
            r == (*self is I64),
    {
        self.as_i64().is_some()
    }

    /// The value as an `i128`, when it is an integer.
    pub fn as_i128(&self) -> (r: Option<i128>)
        ensures
            r == (match i64_of(*self) {
                Some(i) => Some(i as i128),
                None => None::<i128>,
            }),
    {
        match self.as_i64() {
            Some(i) => Some(i as i128),
            None => None,
        }
    }

    /// Whether this is an integer.
    pub fn is_i128(&self) -> (r: bool)
        ensures
            r == (*self is I64),
    {
        self.as_i128().is_some()
    }

    /// The value as an `i32`, when it is an integer in `i32`'s range.
    pub fn as_i32(&self) -> (r: Option<i32>)
        ensures
            r == (match i64_of(*self) {
                Some(i) => if -2147483648 <= i <= 2147483647 { Some(i as i32) } else { None::<i32> },
                None => None::<i32>,
            }),
    {
        match self.as_i64() {
            Some(i) => if -2147483648 <= i && i <= 2147483647 { Some(i as i32) } else { None },
            None => None,
        }
    }

    /// Whether `as_i32` gives a value.
    pub fn is_i32(&self) -> (r: bool)
        ensures
            r == (match i64_of(*self) {
                Some(i) => -2147483648 <= i <= 2147483647,
                None => false,
            }),
    {
        self.as_i32().is_some()
    }

    /// The value as an `i16`, when it is an integer in `i16`'s range.
    pub fn as_i16(&self) -> (r: Option<i16>)
        ensures
            r == (match i64_of(*self) {
                Some(i) => if -32768 <= i <= 32767 { Some(i as i16) } else { None::<i16> },
                None => None::<i16>,
            }),
    {
        match self.as_i64() {
            Some(i) => if -32768 <= i && i <= 32767 { Some(i as i16) } else { None },
            None => None,
        }
    }

    /// Whether `as_i16` gives a value.
    pub fn is_i16(&self) -> (r: bool)
        ensures
            r == (match i64_of(*self) {
                Some(i) => -32768 <= i <= 32767,
                None => false,
            }),
    {
        self.as_i16().is_some()
    }

    /// The value as an `i8`, when it is an integer in `i8`'s range.
    pub fn as_i8(&self) -> (r: Option<i8>)
        ensures
            r == (match i64_of(*self) {
                Some(i) => if -128 <= i <= 127 { Some(i as i8) } else { None::<i8> },
                None => None::<i8>,
            }),
    {
        match self.as_i64() {
            Some(i) => if -128 <= i && i <= 127 { Some(i as i8) } else { None },
            None => None,
        }
    }

    /// Whether `as_i8` gives a value.
    pub fn is_i8(&self) -> (r: bool)
        ensures
            r == (match i64_of(*self) {
                Some(i) => -128 <= i <= 127,
                None => false,
            }),
    {
        self.as_i8().is_some()
    }

    /// The value as a `u64`, when it is a non-negative integer.
    pub fn as_u64(&self) -> (r: Option<u64>)
        ensures
            r == u64_of(*self),
    {
        match self {
            Value::I64(i) => if *i >= 0 { Some(*i as u64) } else { None },
            _ => None,
        }
    }

    /// Whether this is a non-negative integer.
    pub fn is_u64(&self) -> (r: bool)
        ensures
            r == (u64_of(*self) is Some),
    {
        self.as_u64().is_some()
    }

    /// The value as a `u128`, when it is a non-negative integer.
    pub fn as_u128(&self) -> (r: Option<u128>)
        ensures
            r == (match u64_of(*self) {
                Some(u) => Some(u as u128),
                None => None::<u128>,
            }),
    {
        match self.as_u64() {
            Some(u) => Some(u as u128),
            None => None,
        }
    }

    /// Whether this is a non-negative integer.
    pub fn is_u128(&self) -> (r: bool)
        ensures
            r == (u64_of(*self) is Some),
    {
        self.as_u128().is_some()
    }

    /// The value as a `usize`, when it is a non-negative integer that fits.
    pub fn as_usize(&self) -> (r: Option<usize>)
        ensures
            r == (match u64_of(*self) {
                Some(u) => if u <= usize::MAX { Some(u as usize) } else { None::<usize> },
                None => None::<usize>,
            }),
    {
        match self.as_u64() {
            Some(u) => if u <= usize::MAX as u64 { Some(u as usize) } else { None },
            None => None,
        }
    }

    /// Whether `as_usize` gives a value.
    pub fn is_usize(&self) -> (r: bool)
        ensures
            r == (match u64_of(*self) {
                Some(u) => u <= usize::MAX,
                None => false,
            }),
    {
        self.as_usize().is_some()
    }

    /// The value as a `u32`, when it is a non-negative integer in `u32`'s range.
    pub fn as_u32(&self) -> (r: Option<u32>)
        ensures
            r == (match u64_of(*self) {
                Some(u) => if u <= 4294967295 { Some(u as u32) } else { None::<u32> },
                None => None::<u32>,
            }),
    {
        match self.as_u64() {
            Some(u) => if u <= 4294967295 { Some(u as u32) } else { None },
            None => None,
        }
    }

    /// Whether `as_u32` gives a value.
    pub fn is_u32(&self) -> (r: bool)
        ensures
            r == (match u64_of(*self) {
                Some(u) => u <= 4294967295,
                None => false,
            }),
    {
        self.as_u32().is_some()
    }

    /// The value as a `u16`, when it is a non-negative integer in `u16`'s range.
    pub fn as_u16(&self) -> (r: Option<u16>)
        ensures
            r == (match u64_of(*self) {
                Some(u) => if u <= 65535 { Some(u as u16) } else { None::<u16> },
                None => None::<u16>,
            }),
    {
        match self.as_u64() {
            Some(u) => if u <= 65535 { Some(u as u16) } else { None },
            None => None,
        }
    }

    /// Whether `as_u16` gives a value.
    pub fn is_u16(&self) -> (r: bool)
        ensures
            r == (match u64_of(*self) {
                Some(u) => u <= 65535,
                None => false,
            }),
    {
        self.as_u16().is_some()
    }

    /// The value as a `u8`, when it is a non-negative integer in `u8`'s range.
    pub fn as_u8(&self) -> (r: Option<u8>)
        ensures
            r == (match u64_of(*self) {
                Some(u) => if u <= 255 { Some(u as u8) } else { None::<u8> },
                None => None::<u8>,
            }),
    {
        match self.as_u64() {
            Some(u) => if u <= 255 { Some(u as u8) } else { None },
            None => None,
        }
    }

    /// Whether `as_u8` gives a value.
    pub fn is_u8(&self) -> (r: bool)
        ensures
            r == (match u64_of(*self) {
                Some(u) => u <= 255,
                None => false,
            }),
    {
        self.as_u8().is_some()
    }

    /// The IEEE-754 bits of the value, when it is a float; integers are refused.
    pub fn as_f64_bits(&self) -> (r: Option<u64>)
        ensures
            r == (match *self {
                Value::F64(b) => Some(b),
                _ => None::<u64>,
            }),
    {
        match self {
            Value::F64(b) => Some(*b),
            _ => None,
        }
    }

    /// Whether this is a float.
    pub fn is_f64(&self) -> (r: bool)
        ensures
            r == (*self is F64),
    {
        self.as_f64_bits().is_some()
    }

    /// Whether this is a number, so that it can be read as a float.
    pub fn is_f64_castable(&self) -> (r: bool)
        ensures
            r == (*self is F64 || *self is I64),
    {
        match self {
            Value::F64(_) | Value::I64(_) => true,
            _ => false,
        }
    }

    /// The value as a string slice.
    pub fn as_str(&self) -> (r: Option<&str>)
        ensures
            match *self {
                Value::String(s) => r is Some && r->0@ == s@,
                _ => r is None,
            },
    {
        match self {
            Value::String(s) => Some(s.as_str()),
            _ => None,
        }
    }

    /// Whether this is a string.
    pub fn is_str(&self) -> (r: bool)
        ensures
            r == (*self is String),
    {
        self.as_str().is_some()
    }

    /// The value as an array.
    pub fn as_array(&self) -> (r: Option<&Vec<Value>>)
        ensures
            r == (match *self {
                Value::Array(a) => Some(&a),
                _ => None::<&Vec<Value>>,
            }),
    {
        match self {
            Value::Array(a) => Some(a),
            _ => None,
        }
    }

    /// Whether this is an array.
    pub fn is_array(&self) -> (r: bool)
        ensures
            r == (*self is Array),
    {
        self.as_array().is_some()
    }

    /// The value as an object.
    pub fn as_object(&self) -> (r: Option<&Object>)
        ensures
            r == (match *self {
                Value::Object(o) => Some(&o),
                _ => None::<&Object>,
            }),
    {
        match self {
            Value::Object(o) => Some(o),
            _ => None,
        }
    }

    /// Whether this is an object.
    pub fn is_object(&self) -> (r: bool)
        ensures
            r == (*self is Object),
    {
        self.as_object().is_some()
    }
}


impl<'a> ValueBuilder<'a> for Value {
    type Obj = Object;

    open spec fn represents(&self, j: Json) -> bool {
        models(*self, j)
    }

    open spec fn obj_represents(o: &Object, m: Map<Seq<char>, Json>) -> bool {
        &&& entries(*o).dom() == m.dom()
        &&& forall|k: Seq<char>| #[trigger] m.dom().contains(k) ==> models(entries(*o)[k], m[k])
    }

    fn from_text(s: &'a String) -> (r: Value) {
        Value::String(s.clone())
    }

    fn from_number(n: Number) -> (r: Value) {
        match n {
            Number::I64(i) => Value::I64(i),
            Number::F64(b) => Value::F64(b),
        }
    }

    fn from_bool(b: bool) -> (r: Value) {
        Value::Bool(b)
    }

    fn from_null() -> (r: Value) {
        Value::Null
    }

    fn from_vec(items: Vec<Value>, js: Ghost<Seq<Json>>) -> (r: Value) {
        Value::Array(items)
    }

    fn obj_with_capacity(n: usize) -> (r: Object) {
        let o = Object::with_capacity(n);
        assert(entries(o).dom() =~= Map::<Seq<char>, Json>::empty().dom());
        o
    }

    fn obj_insert(
        o: &mut Object,
        k: &'a String,
        v: Value,
        m: Ghost<Map<Seq<char>, Json>>,
        j: Ghost<Json>,
    ) {
        o.insert(k.clone(), v);
        assert(entries(*o).dom() =~= m@.insert(k@, j@).dom());
    }

    fn from_obj(o: Object, m: Ghost<Map<Seq<char>, Json>>) -> (r: Value) {
        Value::Object(o)
    }
}


/// An `i8`, widened exactly to an integer value.
impl From<i8> for Value {
    fn from(v: i8) -> (r: Value) {
        Value::I64(v as i64)
    }
}

impl vstd::std_specs::convert::FromSpecImpl<i8> for Value {
    open spec fn obeys_from_spec() -> bool {
        true
    }

    open spec fn from_spec(v: i8) -> Value {
        Value::I64(v as i64)
    }
}

/// An `i16`, widened exactly to an integer value.
impl From<i16> for Value {
    fn from(v: i16) -> (r: Value) {
        Value::I64(v as i64)
    }
}

impl vstd::std_specs::convert::FromSpecImpl<i16> for Value {
    open spec fn obeys_from_spec() -> bool {
        true
    }

    open spec fn from_spec(v: i16) -> Value {
        Value::I64(v as i64)
    }
}

/// An `i32`, widened exactly to an integer value.
impl From<i32> for Value {
    fn from(v: i32) -> (r: Value) {
        Value::I64(v as i64)
    }
}

impl vstd::std_specs::convert::FromSpecImpl<i32> for Value {
    open spec fn obeys_from_spec() -> bool {
        true
    }

    open spec fn from_spec(v: i32) -> Value {
        Value::I64(v as i64)
    }
}

/// An integer value.
impl From<i64> for Value {
    fn from(v: i64) -> (r: Value) {
        Value::I64(v)
    }
}

impl vstd::std_specs::convert::FromSpecImpl<i64> for Value {
    open spec fn obeys_from_spec() -> bool {
        true
    }

    open spec fn from_spec(v: i64) -> Value {
        Value::I64(v)
    }
}

/// A `u8`, widened exactly to an integer value.
impl From<u8> for Value {
    fn from(v: u8) -> (r: Value) {
        Value::I64(v as i64)
    }
}

impl vstd::std_specs::convert::FromSpecImpl<u8> for Value {
    open spec fn obeys_from_spec() -> bool {
        true
    }

    open spec fn from_spec(v: u8) -> Value {
        Value::I64(v as i64)
    }
}

/// A `u16`, widened exactly to an integer value.
impl From<u16> for Value {
    fn from(v: u16) -> (r: Value) {
        Value::I64(v as i64)
    }
}

impl vstd::std_specs::convert::FromSpecImpl<u16> for Value {
    open spec fn obeys_from_spec() -> bool {
        true
    }

    open spec fn from_spec(v: u16) -> Value {
        Value::I64(v as i64)
    }
}

/// A `u32`, widened exactly to an integer value.
impl From<u32> for Value {
    fn from(v: u32) -> (r: Value) {
        Value::I64(v as i64)
    }
}

impl vstd::std_specs::convert::FromSpecImpl<u32> for Value {
    open spec fn obeys_from_spec() -> bool {
        true
    }

    open spec fn from_spec(v: u32) -> Value {
        Value::I64(v as i64)
    }
}

/// A `u64`, stored by its bits as an `i64`: from 2^63 up it comes out negative.
impl From<u64> for Value {
    fn from(v: u64) -> (r: Value) {
        if v <= 0x7fff_ffff_ffff_ffff {
            Value::I64(v as i64)
        } else {
            Value::I64(-((0xffff_ffff_ffff_ffff - v) as i64) - 1)
        }
    }
}

impl vstd::std_specs::convert::FromSpecImpl<u64> for Value {
    open spec fn obeys_from_spec() -> bool {
        true
    }

    open spec fn from_spec(v: u64) -> Value {
        Value::I64(crate::encode::u64_bits_as_i64(v))
    }
}

/// A string value.
impl From<String> for Value {
    fn from(v: String) -> (r: Value) {
        Value::String(v)
    }
}

impl vstd::std_specs::convert::FromSpecImpl<String> for Value {
    open spec fn obeys_from_spec() -> bool {
        true
    }

    open spec fn from_spec(v: String) -> Value {
        Value::String(v)
    }
}

/// A boolean value.
impl From<bool> for Value {
    fn from(v: bool) -> (r: Value) {
        Value::Bool(v)
    }
}

impl vstd::std_specs::convert::FromSpecImpl<bool> for Value {
    open spec fn obeys_from_spec() -> bool {
        true
    }

    open spec fn from_spec(v: bool) -> Value {
        Value::Bool(v)
    }
}

/// The unit value is null.
impl From<()> for Value {
    fn from(v: ()) -> (r: Value) {
        Value::Null
    }
}

impl vstd::std_specs::convert::FromSpecImpl<()> for Value {
    open spec fn obeys_from_spec() -> bool {
        true
    }

    open spec fn from_spec(v: ()) -> Value {
        Value::Null
    }
}


/// A value equals an `i8` exactly when `as_i8` reads that number from it.
impl PartialEq<i8> for Value {
    fn eq(&self, other: &i8) -> (r: bool) {
        match self.as_i8() {
            Some(x) => x == *other,
            None => false,
        }
    }
}

impl vstd::std_specs::cmp::PartialEqSpecImpl<i8> for Value {
    open spec fn obeys_eq_spec() -> bool {
        true
    }

    open spec fn eq_spec(&self, other: &i8) -> bool {
        match i64_of(*self) {
            Some(i) => i == *other as i64,
            None => false,
        }
    }
}

/// A value equals an `i16` exactly when `as_i16` reads that number from it.
impl PartialEq<i16> for Value {
    fn eq(&self, other: &i16) -> (r: bool) {
        match self.as_i16() {
            Some(x) => x == *other,
            None => false,
        }
    }
}

impl vstd::std_specs::cmp::PartialEqSpecImpl<i16> for Value {
    open spec fn obeys_eq_spec() -> bool {
        true
    }

    open spec fn eq_spec(&self, other: &i16) -> bool {
        match i64_of(*self) {
            Some(i) => i == *other as i64,
            None => false,
        }
    }
}

/// A value equals an `i32` exactly when `as_i32` reads that number from it.
impl PartialEq<i32> for Value {
    fn eq(&self, other: &i32) -> (r: bool) {
        match self.as_i32() {
            Some(x) => x == *other,
            None => false,
        }
    }
}

impl vstd::std_specs::cmp::PartialEqSpecImpl<i32> for Value {
    open spec fn obeys_eq_spec() -> bool {
        true
    }

    open spec fn eq_spec(&self, other: &i32) -> bool {
        match i64_of(*self) {
            Some(i) => i == *other as i64,
            None => false,
        }
    }
}

/// A value equals an `i64` exactly when `as_i64` reads that number from it.
impl PartialEq<i64> for Value {
    fn eq(&self, other: &i64) -> (r: bool) {
        match self.as_i64() {
            Some(x) => x == *other,
            None => false,
        }
    }
}

impl vstd::std_specs::cmp::PartialEqSpecImpl<i64> for Value {
    open spec fn obeys_eq_spec() -> bool {
        true
    }

    open spec fn eq_spec(&self, other: &i64) -> bool {
        i64_of(*self) == Some(*other)
    }
}

/// A value equals an `i128` exactly when `as_i128` reads that number from it.
impl PartialEq<i128> for Value {
    fn eq(&self, other: &i128) -> (r: bool) {
        match self.as_i128() {
            Some(x) => x == *other,
            None => false,
        }
    }
}

impl vstd::std_specs::cmp::PartialEqSpecImpl<i128> for Value {
    open spec fn obeys_eq_spec() -> bool {
        true
    }

    open spec fn eq_spec(&self, other: &i128) -> bool {
        match i64_of(*self) {
            Some(i) => i as i128 == *other,
            None => false,
        }
    }
}

/// A value equals a `u8` exactly when `as_u8` reads that number from it.
impl PartialEq<u8> for Value {
    fn eq(&self, other: &u8) -> (r: bool) {
        match self.as_u8() {
            Some(x) => x == *other,
            None => false,
        }
    }
}

impl vstd::std_specs::cmp::PartialEqSpecImpl<u8> for Value {
    open spec fn obeys_eq_spec() -> bool {
        true
    }

    open spec fn eq_spec(&self, other: &u8) -> bool {
        match u64_of(*self) {
            Some(u) => u == *other as u64,
            None => false,
        }
    }
}

/// A value equals a `u16` exactly when `as_u16` reads that number from it.
impl PartialEq<u16> for Value {
    fn eq(&self, other: &u16) -> (r: bool) {
        match self.as_u16() {
            Some(x) => x == *other,
            None => false,
        }
    }
}

impl vstd::std_specs::cmp::PartialEqSpecImpl<u16> for Value {
    open spec fn obeys_eq_spec() -> bool {
        true
    }

    open spec fn eq_spec(&self, other: &u16) -> bool {
        match u64_of(*self) {
            Some(u) => u == *other as u64,
            None => false,
        }
    }
}

/// A value equals a `u32` exactly when `as_u32` reads that number from it.
impl PartialEq<u32> for Value {
    fn eq(&self, other: &u32) -> (r: bool) {
        match self.as_u32() {
            Some(x) => x == *other,
            None => false,
        }
    }
}

impl vstd::std_specs::cmp::PartialEqSpecImpl<u32> for Value {
    open spec fn obeys_eq_spec() -> bool {
        true
    }

    open spec fn eq_spec(&self, other: &u32) -> bool {
        match u64_of(*self) {
            Some(u) => u == *other as u64,
            None => false,
        }
    }
}

/// A value equals a `u64` exactly when `as_u64` reads that number from it.
impl PartialEq<u64> for Value {
    fn eq(&self, other: &u64) -> (r: bool) {
        match self.as_u64() {
            Some(x) => x == *other,
            None => false,
        }
    }
}

impl vstd::std_specs::cmp::PartialEqSpecImpl<u64> for Value {
    open spec fn obeys_eq_spec() -> bool {
        true
    }

    open spec fn eq_spec(&self, other: &u64) -> bool {
        u64_of(*self) == Some(*other)
    }
}

/// A value equals a `u128` exactly when `as_u128` reads that number from it.
impl PartialEq<u128> for Value {
    fn eq(&self, other: &u128) -> (r: bool) {
        match self.as_u128() {
            Some(x) => x == *other,
            None => false,
        }
    }
}

impl vstd::std_specs::cmp::PartialEqSpecImpl<u128> for Value {
    open spec fn obeys_eq_spec() -> bool {
        true
    }

    open spec fn eq_spec(&self, other: &u128) -> bool {
        match u64_of(*self) {
            Some(u) => u as u128 == *other,
            None => false,
        }
    }
}

/// A value equals a boolean exactly when it is that boolean.
impl PartialEq<bool> for Value {
    fn eq(&self, other: &bool) -> (r: bool) {
        match self.as_bool() {
            Some(b) => b == *other,
            None => false,
        }
    }
}

impl vstd::std_specs::cmp::PartialEqSpecImpl<bool> for Value {
    open spec fn obeys_eq_spec() -> bool {
        true
    }

    open spec fn eq_spec(&self, other: &bool) -> bool {
        *self == Value::Bool(*other)
    }
}

/// A value equals the unit value exactly when it is null.
impl PartialEq<()> for Value {
    fn eq(&self, other: &()) -> (r: bool) {
        self.is_null()
    }
}

impl vstd::std_specs::cmp::PartialEqSpecImpl<()> for Value {
    open spec fn obeys_eq_spec() -> bool {
        true
    }

    open spec fn eq_spec(&self, other: &()) -> bool {
        *self is Null
    }
}

} // verus!
