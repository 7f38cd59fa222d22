use vstd::prelude::*;

use crate::error::{Error, ErrorType};
use crate::value::{entries, empty_entries, u64_of, Object, Value};

verus! {

/// Relies on std's String::push: the character is appended at the end.
#[verifier::external_body]
fn push_char(s: &mut String, c: char)
    ensures
        final(s)@ == old(s)@.push(c),
{
    s.push(c)
}

/// The `i64` with the same 64 bits as `u`: values from 2^63 up wrap to
/// negative numbers.
pub open spec fn u64_bits_as_i64(u: u64) -> i64 {
    if u < 0x8000_0000_0000_0000 {
        u as i64
    } else {
        (u - 0x1_0000_0000_0000_0000) as i64
    }
}

/// The object `{ name: v }`.
pub open spec fn single_entry(o: Object, name: Seq<char>, v: Value) -> bool {
    entries(o) == empty_entries().insert(name, v)
}

/// The array of integers that a byte string encodes to.
pub open spec fn bytes_as_values(b: Seq<u8>) -> Seq<Value> {
    Seq::new(b.len(), |i: int| Value::I64(b[i] as i64))
}

/// Builds an owned value from a structured input, one shape at a time.
///
/// A container's children are encoded first and handed over as values.
#[derive(Clone, Copy)]
pub struct Serializer {}

impl Default for Serializer {
    fn default() -> (r: Serializer)
        ensures
            r == (Serializer {}),
    {
        Serializer {}
    }
}

impl Serializer {
    /// A boolean becomes `Bool`.
    pub fn serialize_bool(self, value: bool) -> (r: Result<Value, Error>)
        ensures
            r == Ok::<Value, Error>(Value::Bool(value)),
    {
        Ok(Value::Bool(value))
    }

    /// Widened to `i64`.
    pub fn serialize_i8(self, value: i8) -> (r: Result<Value, Error>)
        ensures
            r == Ok::<Value, Error>(Value::I64(value as i64)),
    {
        self.serialize_i64(value as i64)
    }

    /// Widened to `i64`.
    pub fn serialize_i16(self, value: i16) -> (r: Result<Value, Error>)
        ensures
            r == Ok::<Value, Error>(Value::I64(value as i64)),
    {
        self.serialize_i64(value as i64)
    }

    /// Widened to `i64`.
    pub fn serialize_i32(self, value: i32) -> (r: Result<Value, Error>)
        ensures
            r == Ok::<Value, Error>(Value::I64(value as i64)),
    {
        self.serialize_i64(value as i64)
    }

    /// An integer becomes `I64`.
    pub fn serialize_i64(self, value: i64) -> (r: Result<Value, Error>)
        ensures
            r == Ok::<Value, Error>(Value::I64(value)),
    {
        Ok(Value::I64(value))
    }

    /// Widened to `u64`, then stored as `i64`.
    pub fn serialize_u8(self, value: u8) -> (r: Result<Value, Error>)
        ensures
            r == Ok::<Value, Error>(Value::I64(value as i64)),
    {
        self.serialize_u64(value as u64)
    }

    /// Widened to `u64`, then stored as `i64`.
    pub fn serialize_u16(self, value: u16) -> (r: Result<Value, Error>)
        ensures
            r == Ok::<Value, Error>(Value::I64(value as i64)),
    {
        self.serialize_u64(value as u64)
    }

    /// Widened to `u64`, then stored as `i64`.
    pub fn serialize_u32(self, value: u32) -> (r: Result<Value, Error>)
        ensures
            r == Ok::<Value, Error>(Value::I64(value as i64)),
    {
        self.serialize_u64(value as u64)
    }

    /// Stored by reinterpreting its bits as `i64`: values from 2^63 up come
    /// out negative.
    pub fn serialize_u64(self, value: u64) -> (r: Result<Value, Error>)
        ensures
            r == Ok::<Value, Error>(Value::I64(u64_bits_as_i64(value))),
    {
        let i: i64 = if value <= 0x7fff_ffff_ffff_ffff {
            value as i64
        } else {
            -((0xffff_ffff_ffff_ffff - value) as i64) - 1
        };
        Ok(Value::I64(i))
    }

    /// A float, given by its IEEE-754 bits, becomes `F64`.
    pub fn serialize_f64_bits(self, bits: u64) -> (r: Result<Value, Error>)
        ensures
            r == Ok::<Value, Error>(Value::F64(bits)),
    {
        Ok(Value::F64(bits))
    }

    /// A character becomes a one-character string.
    pub fn serialize_char(self, value: char) -> (r: Result<Value, Error>)
        ensures
            r is Ok,
            r->Ok_0 is String,
            r->Ok_0->String_0@ == seq![value],
    {
        let mut s = String::new();
        push_char(&mut s, value);
        assert(s@ =~= seq![value]);
        Ok(Value::String(s))
    }

    /// A string becomes `String`, copied.
    pub fn serialize_str(self, value: &str) -> (r: Result<Value, Error>)
        ensures
            r is Ok,
            r->Ok_0 is String,
            r->Ok_0->String_0@ == value@,
    {
        Ok(Value::String(value.to_owned()))
    }

    /// A byte string becomes an array of its bytes as integers.
    pub fn serialize_bytes(self, value: &[u8]) -> (r: Result<Value, Error>)
        ensures
            r is Ok,
            r->Ok_0 is Array,
            r->Ok_0->Array_0@ == bytes_as_values(value@),
    {
        let mut vec: Vec<Value> = Vec::with_capacity(value.len());
        let mut i: usize = 0;
        while i < value.len()
            invariant
                i <= value@.len(),
                vec@ == bytes_as_values(value@.subrange(0, i as int)),
            decreases value@.len() - i,
        {
            vec.push(Value::I64(value[i] as i64));
            i = i + 1;
            assert(vec@ =~= bytes_as_values(value@.subrange(0, i as int)));
        }
        assert(value@.subrange(0, value@.len() as int) =~= value@);
        Ok(Value::Array(vec))
    }

    /// The unit value becomes `Null`.
    pub fn serialize_unit(self) -> (r: Result<Value, Error>)
        ensures
            r == Ok::<Value, Error>(Value::Null),
    {
        Ok(Value::Null)
    }

    /// A unit struct becomes `Null`.
    pub fn serialize_unit_struct(self, _name: &str) -> (r: Result<Value, Error>)
        ensures
            r == Ok::<Value, Error>(Value::Null),
    {
        self.serialize_unit()
    }

    /// An alternative without payload becomes its name as a string.
    pub fn serialize_unit_variant(self, _name: &str, _variant_index: u32, variant: &str) -> (r:
        Result<Value, Error>)
        ensures
            r is Ok,
            r->Ok_0 is String,
            r->Ok_0->String_0@ == variant@,
    {
        self.serialize_str(variant)
    }

    /// A newtype wrapper is its payload's value.
    pub fn serialize_newtype_struct(self, _name: &str, value: Value) -> (r: Result<Value, Error>)
        ensures
            r == Ok::<Value, Error>(value),
    {
        Ok(value)
    }

    /// An alternative with one payload becomes `{ variant: payload }`.
    pub fn serialize_newtype_variant(
        self,
        _name: &str,
        _variant_index: u32,
        variant: &str,
        value: Value,
    ) -> (r: Result<Value, Error>)
        ensures
            r is Ok,
            r->Ok_0 is Object,
            single_entry(r->Ok_0->Object_0, variant@, value),
    {
        let mut values = Object::new();
        values.insert(variant.to_owned(), value);
        Ok(Value::Object(values))
    }

    /// An absent optional becomes `Null`.
    pub fn serialize_none(self) -> (r: Result<Value, Error>)
        ensures
            r == Ok::<Value, Error>(Value::Null),
    {
        self.serialize_unit()
    }

    /// A present optional is its payload's value.
    pub fn serialize_some(self, value: Value) -> (r: Result<Value, Error>)
        ensures
            r == Ok::<Value, Error>(value),
    {
        Ok(value)
    }

    /// Starts an array, with room for `len` elements when the length is known.
    pub fn serialize_seq(self, len: Option<usize>) -> (r: Result<SerializeVec, Error>)
        ensures
            r is Ok,
            r->Ok_0.vec@.len() == 0,
    {
        let n: usize = match len {
            Some(n) => n,
            None => 0,
        };
        Ok(SerializeVec { vec: Vec::with_capacity(n) })
    }

    /// Starts an array of `len` elements.
    pub fn serialize_tuple(self, len: usize) -> (r: Result<SerializeVec, Error>)
        ensures
            r is Ok,
            r->Ok_0.vec@.len() == 0,
    {
        self.serialize_seq(Some(len))
    }

    /// Starts an array of `len` elements.
    pub fn serialize_tuple_struct(self, _name: &str, len: usize) -> (r: Result<
        SerializeVec,
        Error,
    >)
        ensures
            r is Ok,
            r->Ok_0.vec@.len() == 0,
    {
        self.serialize_seq(Some(len))
    }

    /// Starts `{ variant: [...] }`, an alternative with positional payloads.
    pub fn serialize_tuple_variant(
        self,
        _name: &str,
        _variant_index: u32,
        variant: &str,
        len: usize,
    ) -> (r: Result<SerializeTupleVariant, Error>)
        ensures
            r is Ok,
            r->Ok_0.name@ == variant@,
            r->Ok_0.vec@.len() == 0,
    {
        Ok(SerializeTupleVariant { name: variant.to_owned(), vec: Vec::with_capacity(len) })
    }

    /// Starts an object.
    pub fn serialize_map(self, _len: Option<usize>) -> (r: Result<SerializeMap, Error>)
        ensures
            r is Ok,
            entries(r->Ok_0->map) == empty_entries(),
            r->Ok_0->next_key is None,
    {
        Ok(SerializeMap::Fields { map: Object::new(), next_key: None })
    }

    /// Starts an object for a record's fields.
    pub fn serialize_struct(self, _name: &str, len: usize) -> (r: Result<SerializeMap, Error>)
        ensures
            r is Ok,
            entries(r->Ok_0->map) == empty_entries(),
            r->Ok_0->next_key is None,
    {
        self.serialize_map(Some(len))
    }

    /// Starts `{ variant: {...} }`, an alternative with labeled fields.
    pub fn serialize_struct_variant(
        self,
        _name: &str,
        _variant_index: u32,
        variant: &str,
        _len: usize,
    ) -> (r: Result<SerializeStructVariant, Error>)
        ensures
            r is Ok,
            r->Ok_0.name@ == variant@,
            entries(r->Ok_0.map) == empty_entries(),
    {
        Ok(SerializeStructVariant { name: variant.to_owned(), map: Object::new() })
    }
}

/// An array being built, element by element.
pub struct SerializeVec {
    pub vec: Vec<Value>,
}

/// `{ name: [...] }` being built, payload by payload.
pub struct SerializeTupleVariant {
    pub name: String,
    pub vec: Vec<Value>,
}

/// An object being built: a key is given first, then its value.
pub enum SerializeMap {
    Fields { map: Object, next_key: Option<String> },
}

/// `{ name: {...} }` being built, field by field.
pub struct SerializeStructVariant {
    pub name: String,
    pub map: Object,
}

impl SerializeVec {
    /// Appends an encoded element.
    pub fn serialize_element(&mut self, value: Value) -> (r: Result<(), Error>)
        ensures
            r is Ok,
            final(self).vec@ == old(self).vec@.push(value),
    {
        self.vec.push(value);
        Ok(())
    }

    /// Appends an encoded field of a tuple struct.
    pub fn serialize_field(&mut self, value: Value) -> (r: Result<(), Error>)
        ensures
            r is Ok,
            final(self).vec@ == old(self).vec@.push(value),
    {
        self.serialize_element(value)
    }

    /// The finished array.
    pub fn end(self) -> (r: Result<Value, Error>)
        ensures
            r is Ok,
            r->Ok_0 is Array,
            r->Ok_0->Array_0@ == self.vec@,
    {
        Ok(Value::Array(self.vec))
    }
}

impl SerializeTupleVariant {
    /// Appends an encoded payload.
    pub fn serialize_field(&mut self, value: Value) -> (r: Result<(), Error>)
        ensures
            r is Ok,
            final(self).name == old(self).name,
            final(self).vec@ == old(self).vec@.push(value),
    {
        self.vec.push(value);
        Ok(())
    }

    /// The finished `{ name: [payloads...] }`.
    pub fn end(self) -> (r: Result<Value, Error>)
        ensures
            r is Ok,
            r->Ok_0 is Object,
            entries(r->Ok_0->Object_0).dom() == set![self.name@],
            entries(r->Ok_0->Object_0)[self.name@] is Array,
            entries(r->Ok_0->Object_0)[self.name@]->Array_0@ == self.vec@,
    {
        let mut object = Object::new();
        let ghost items = self.vec@;
        object.insert(self.name, Value::Array(self.vec));
        assert(entries(object).dom() =~= set![self.name@]);
        Ok(Value::Object(object))
    }
}

impl SerializeMap {
    /// Whether a key waits for its value.
    pub fn has_pending_key(&self) -> (r: bool)
        ensures
            r == (self->next_key is Some),
    {
        match self {
            SerializeMap::Fields { next_key, .. } => next_key.is_some(),
        }
    }

    /// Records the key, already through the key rules, for the next value.
    pub fn serialize_key(&mut self, key: String) -> (r: Result<(), Error>)
        ensures
            r is Ok,
            final(self)->map == old(self)->map,
            final(self)->next_key == Some(key),
    {
        match self {
            SerializeMap::Fields { next_key, .. } => {
                *next_key = Some(key);
                Ok(())
            },
        }
    }

    /// Stores the encoded value under the pending key. A value without a
    /// pending key is a misuse of the protocol, ruled out by `requires`.
    pub fn serialize_value(&mut self, value: Value) -> (r: Result<(), Error>)
        requires
            old(self)->next_key is Some,
        ensures
            r is Ok,
            final(self)->next_key is None,
            entries(final(self)->map) == entries(old(self)->map).insert(
                old(self)->next_key->Some_0@,
                value,
            ),
    {
        match self {
            SerializeMap::Fields { map, next_key } => {
                let key = next_key.take();
                match key {
                    Some(k) => {
                        map.insert(k, value);
                    },
                    None => {},
                }
                Ok(())
            },
        }
    }

    /// Stores a record field: the name is the key.
    pub fn serialize_field(&mut self, key: &str, value: Value) -> (r: Result<(), Error>)
        ensures
            r is Ok,
            final(self)->next_key is None,
            entries(final(self)->map) == entries(old(self)->map).insert(key@, value),
    {
        let k = MapKeySerializer {}.serialize_str(key);
        match k {
            Ok(k) => {
                self.serialize_key(k)?;
            },
            Err(e) => {
                return Err(e);
            },
        }
        self.serialize_value(value)
    }

    /// The finished object.
    pub fn end(self) -> (r: Result<Value, Error>)
        ensures
            r is Ok,
            r->Ok_0 is Object,
            r->Ok_0->Object_0 == self->map,
    {
        match self {
            SerializeMap::Fields { map, .. } => Ok(Value::Object(map)),
        }
    }
}

impl SerializeStructVariant {
    /// Stores an encoded field under its name.
    pub fn serialize_field(&mut self, key: &str, value: Value) -> (r: Result<(), Error>)
        ensures
            r is Ok,
            final(self).name == old(self).name,
            entries(final(self).map) == entries(old(self).map).insert(key@, value),
    {
        self.map.insert(key.to_owned(), value);
        Ok(())
    }

    /// The finished `{ name: {fields...} }`.
    pub fn end(self) -> (r: Result<Value, Error>)
        ensures
            r is Ok,
            r->Ok_0 is Object,
            single_entry(r->Ok_0->Object_0, self.name@, Value::Object(self.map)),
    {
        let mut object = Object::new();
        object.insert(self.name, Value::Object(self.map));
        Ok(Value::Object(object))
    }
}

/// A key that is not a string, with no position in any input.
pub open spec fn key_error() -> Error {
    Error { index: 0, character: 0, error: ErrorType::KeyMustBeAString }
}

/// The error for a map key whose shape has no lossless string form.
pub fn key_must_be_a_string() -> (r: Error)
    ensures
        r == key_error(),
{
    Error::generic(ErrorType::KeyMustBeAString)
}

/// The rules for object keys: only a string, or the name of an alternative
/// without payload, is a key.
#[derive(Clone, Copy)]
pub struct MapKeySerializer {}


impl MapKeySerializer {
    /// The name of an alternative without payload is the key.
    pub fn serialize_unit_variant(self, _name: &str, _variant_index: u32, variant: &str) -> (r:
        Result<String, Error>)
        ensures
            r is Ok,
            r->Ok_0@ == variant@,
    {
        Ok(variant.to_owned())
    }

    /// A newtype wrapper's key is its payload's key, given as `inner`.
    pub fn serialize_newtype_struct(self, _name: &str, inner: Result<String, Error>) -> (r: Result<
        String,
        Error,
    >)
        ensures
            r == inner,
    {
        inner
    }

    /// A string is the key, copied.
    pub fn serialize_str(self, value: &str) -> (r: Result<String, Error>)
        ensures
            r is Ok,
            r->Ok_0@ == value@,
    {
        Ok(value.to_owned())
    }

    /// A boolean is no key.
    pub fn serialize_bool(self, _value: bool) -> (r: Result<String, Error>)
        ensures
            r == Err::<String, Error>(key_error()),
    {
        Err(key_must_be_a_string())
    }

    /// An integer is no key.
    pub fn serialize_i8(self, _value: i8) -> (r: Result<String, Error>)
        ensures
            r == Err::<String, Error>(key_error()),
    {
        Err(key_must_be_a_string())
    }

    /// An integer is no key.
    pub fn serialize_i16(self, _value: i16) -> (r: Result<String, Error>)
        ensures
            r == Err::<String, Error>(key_error()),
    {
        Err(key_must_be_a_string())
    }

    /// An integer is no key.
    pub fn serialize_i32(self, _value: i32) -> (r: Result<String, Error>)
        ensures
            r == Err::<String, Error>(key_error()),
    {
        Err(key_must_be_a_string())
    }

    /// An integer is no key.
    pub fn serialize_i64(self, _value: i64) -> (r: Result<String, Error>)
        ensures
            r == Err::<String, Error>(key_error()),
    {
        Err(key_must_be_a_string())
    }

    /// An integer is no key.
    pub fn serialize_u8(self, _value: u8) -> (r: Result<String, Error>)
        ensures
            r == Err::<String, Error>(key_error()),
    {
        Err(key_must_be_a_string())
    }

    /// An integer is no key.
    pub fn serialize_u16(self, _value: u16) -> (r: Result<String, Error>)
        ensures
            r == Err::<String, Error>(key_error()),
    {
        Err(key_must_be_a_string())
    }

    /// An integer is no key.
    pub fn serialize_u32(self, _value: u32) -> (r: Result<String, Error>)
        ensures
            r == Err::<String, Error>(key_error()),
    {
        Err(key_must_be_a_string())
    }

    /// An integer is no key.
    pub fn serialize_u64(self, _value: u64) -> (r: Result<String, Error>)
        ensures
            r == Err::<String, Error>(key_error()),
    {
        Err(key_must_be_a_string())
    }

    /// A float is no key.
    pub fn serialize_f64_bits(self, _bits: u64) -> (r: Result<String, Error>)
        ensures
            r == Err::<String, Error>(key_error()),
    {
        Err(key_must_be_a_string())
    }

    /// A character is no key.
    pub fn serialize_char(self, _value: char) -> (r: Result<String, Error>)
        ensures
            r == Err::<String, Error>(key_error()),
    {
        Err(key_must_be_a_string())
    }

    /// A byte string is no key.
    pub fn serialize_bytes(self, _value: &[u8]) -> (r: Result<String, Error>)
        ensures
            r == Err::<String, Error>(key_error()),
    {
        Err(key_must_be_a_string())
    }

    /// The unit value is no key.
    pub fn serialize_unit(self) -> (r: Result<String, Error>)
        ensures
            r == Err::<String, Error>(key_error()),
    {
        Err(key_must_be_a_string())
    }

    /// A unit struct is no key.
    pub fn serialize_unit_struct(self, _name: &str) -> (r: Result<String, Error>)
        ensures
            r == Err::<String, Error>(key_error()),
    {
        Err(key_must_be_a_string())
    }

    /// An alternative with a payload is no key.
    pub fn serialize_newtype_variant(self, _name: &str, _variant_index: u32, _variant: &str) -> (r: Result<String, Error>)
        ensures
            r == Err::<String, Error>(key_error()),
    {
        Err(key_must_be_a_string())
    }

    /// An absent optional is no key.
    pub fn serialize_none(self) -> (r: Result<String, Error>)
        ensures
            r == Err::<String, Error>(key_error()),
    {
        Err(key_must_be_a_string())
    }

    /// A present optional is no key.
    pub fn serialize_some(self) -> (r: Result<String, Error>)
        ensures
            r == Err::<String, Error>(key_error()),
    {
        Err(key_must_be_a_string())
    }

    /// A sequence is no key.
    pub fn serialize_seq(self, _len: Option<usize>) -> (r: Result<String, Error>)
        ensures
            r == Err::<String, Error>(key_error()),
    {
        Err(key_must_be_a_string())
    }

    /// A tuple is no key.
    pub fn serialize_tuple(self, _len: usize) -> (r: Result<String, Error>)
        ensures
            r == Err::<String, Error>(key_error()),
    {
        Err(key_must_be_a_string())
    }

    /// A tuple struct is no key.
    pub fn serialize_tuple_struct(self, _name: &str, _len: usize) -> (r: Result<String, Error>)
        ensures
            r == Err::<String, Error>(key_error()),
    {
        Err(key_must_be_a_string())
    }

    /// An alternative with positional payloads is no key.
    pub fn serialize_tuple_variant(self, _name: &str, _variant_index: u32, _variant: &str, _len: usize) -> (r: Result<String, Error>)
        ensures
            r == Err::<String, Error>(key_error()),
    {
        Err(key_must_be_a_string())
    }

    /// A map is no key.
    pub fn serialize_map(self, _len: Option<usize>) -> (r: Result<String, Error>)
        ensures
            r == Err::<String, Error>(key_error()),
    {
        Err(key_must_be_a_string())
    }

    /// A record is no key.
    pub fn serialize_struct(self, _name: &str, _len: usize) -> (r: Result<String, Error>)
        ensures
            r == Err::<String, Error>(key_error()),
    {
        Err(key_must_be_a_string())
    }

    /// An alternative with labeled fields is no key.
    pub fn serialize_struct_variant(self, _name: &str, _variant_index: u32, _variant: &str, _len: usize) -> (r: Result<String, Error>)
        ensures
            r == Err::<String, Error>(key_error()),
    {
        Err(key_must_be_a_string())
    }
}


/// Reading an encoded `u64` back as a `u64` gives it again exactly when it is
/// below 2^63. From 2^63 up the stored integer is negative and reads as
/// nothing; `u64::MAX` is stored as -1.
pub proof fn lemma_u64_read_back(u: u64)
    ensures
        u < 0x8000_0000_0000_0000 ==> u64_of(Value::I64(u64_bits_as_i64(u))) == Some(u),
        u >= 0x8000_0000_0000_0000 ==> u64_of(Value::I64(u64_bits_as_i64(u))) is None,
        u == u64::MAX ==> u64_bits_as_i64(u) == -1,
{
}

} // verus!
