use vstd::prelude::*;

use crate::error::{Error, ErrorType};
use crate::borrowed::{borrowed_models, BorrowedValue};
use crate::value::{entries, Number, Value};

verus! {

/// What the tokenizer found at a structural byte, beyond the byte itself.
pub enum Lexeme {
    /// Nothing more: `n`, `t`, `f`, `]`, `}`, `:`, `,`, or any other byte.
    Bare,
    /// At `[` or `{`: how many elements the look-ahead counted.
    Count(usize),
    /// At `"`: the string's text with escapes resolved, or why it is invalid.
    Text(Result<String, ErrorType>),
    /// At `-` or a digit: the number as read at the top level of a document,
    /// and as read inside a container (the two differ in what may follow).
    Num { root: Result<Number, ErrorType>, nested: Result<Number, ErrorType> },
}

/// One structural token of the pre-scanned input.
pub struct Token {
    /// Byte offset of the token in the input.
    pub offset: usize,
    /// The structural byte that starts the token.
    pub byte: u8,
    /// What the tokenizer found there.
    pub lexeme: Lexeme,
}

/// The mathematical form of a JSON document.
pub enum Json {
    Null,
    Bool(bool),
    I64(i64),
    F64(u64),
    Str(Seq<char>),
    Arr(Seq<Json>),
    Obj(Map<Seq<char>, Json>),
}

/// `v` is a value with the shape and contents of the document `j`.
pub open spec fn models(v: Value, j: Json) -> bool
    decreases j,
{
    match j {
        Json::Null => v == Value::Null,
        Json::Bool(b) => v == Value::Bool(b),
        Json::I64(i) => v == Value::I64(i),
        Json::F64(b) => v == Value::F64(b),
        Json::Str(s) => v is String && v->String_0@ == s,
        Json::Arr(items) => {
            &&& v is Array
            &&& v->Array_0@.len() == items.len()
            &&& forall|i: int| 0 <= i < items.len() ==> models(#[trigger] v->Array_0@[i], items[i])
        },
        Json::Obj(m) => {
            &&& v is Object
            &&& m.dom().finite()
            &&& entries(v->Object_0).dom() == m.dom()
            &&& forall|k: Seq<char>| #[trigger] m.dom().contains(k) ==> models(
                entries(v->Object_0)[k],
                m[k],
            )
        },
    }
}

/// The object that a list of fields builds when each is inserted in turn:
/// a later field replaces an earlier one with the same key.
pub open spec fn to_map(fields: Seq<(Seq<char>, Json)>) -> Map<Seq<char>, Json>
    decreases fields.len(),
{
    if fields.len() == 0 {
        Map::empty()
    } else {
        to_map(fields.drop_last()).insert(fields.last().0, fields.last().1)
    }
}

/// How far `skip` moves from `p`: one token, unless the input has run out.
pub open spec fn skip_len(toks: Seq<Token>, p: int) -> nat {
    if 0 <= p < toks.len() {
        1
    } else {
        0
    }
}

/// `UnexpectedCharacter` at token `p`, or at the end of the input of length
/// `end` where no token is left.
pub open spec fn unexpected(toks: Seq<Token>, end: usize, p: int) -> Error {
    if 0 <= p < toks.len() {
        Error { index: toks[p].offset, character: toks[p].byte, error: ErrorType::UnexpectedCharacter }
    } else {
        Error { index: end, character: 0, error: ErrorType::UnexpectedCharacter }
    }
}

/// An error of kind `k` at token `t`.
pub open spec fn error_at(t: Token, k: ErrorType) -> Error {
    Error { index: t.offset, character: t.byte, error: k }
}

/// The element count that the look-ahead gave for a container token.
pub open spec fn count_of(t: Token) -> nat {
    match t.lexeme {
        Lexeme::Count(n) => n as nat,
        _ => 0,
    }
}

/// The text of a string token.
pub open spec fn string_of(t: Token) -> Result<Seq<char>, Error> {
    match t.lexeme {
        Lexeme::Text(Ok(s)) => Ok(s@),
        Lexeme::Text(Err(k)) => Err(error_at(t, k)),
        _ => Err(error_at(t, ErrorType::InvalidString)),
    }
}

/// The document of a number.
pub open spec fn number_json(n: Number) -> Json {
    match n {
        Number::I64(i) => Json::I64(i),
        Number::F64(b) => Json::F64(b),
    }
}

/// The number of a number token, read at the top level or nested.
pub open spec fn number_of(t: Token, root: bool) -> Result<Json, Error> {
    match t.lexeme {
        Lexeme::Num { root: r, nested: n } => match (if root { r } else { n }) {
            Ok(x) => Ok(number_json(x)),
            Err(k) => Err(error_at(t, k)),
        },
        _ => Err(error_at(t, ErrorType::InvalidNumber)),
    }
}

/// Whether `b` starts a number: `-` or an ASCII digit.
pub open spec fn starts_number(b: u8) -> bool {
    b == 45 || (48 <= b <= 57)
}

/// Whether `b` starts a value: `"`, a number, `n`, `t`, `f`, `[` or `{`.
pub open spec fn starts_value(b: u8) -> bool {
    b == 34 || starts_number(b) || b == 110 || b == 116 || b == 102 || b == 91 || b == 123
}

/// The document that starts at token `p`, with the number of tokens it
/// takes, or the first error met while reading it.
pub open spec fn value_spec(toks: Seq<Token>, end: usize, p: int, root: bool) -> Result<
    (Json, nat),
    Error,
>
    decreases toks.len() - p, 0int, 0nat,
{
    if p < 0 || p >= toks.len() {
        Err(unexpected(toks, end, p))
    } else {
        let t = toks[p];
        let b = t.byte;
        if b == 34 {
            match string_of(t) {
                Ok(s) => Ok((Json::Str(s), 1)),
                Err(e) => Err(e),
            }
        } else if starts_number(b) {
            match number_of(t, root) {
                Ok(j) => Ok((j, 1)),
                Err(e) => Err(e),
            }
        } else if b == 110 {
            Ok((Json::Null, 1))
        } else if b == 116 {
            Ok((Json::Bool(true), 1))
        } else if b == 102 {
            Ok((Json::Bool(false), 1))
        } else if b == 91 {
            match array_spec(toks, end, p + 1, count_of(t)) {
                Ok((j, u)) => Ok((j, 1 + u)),
                Err(e) => Err(e),
            }
        } else if b == 123 {
            match object_spec(toks, end, p + 1, count_of(t)) {
                Ok((j, u)) => Ok((j, 1 + u)),
                Err(e) => Err(e),
            }
        } else {
            Err(unexpected(toks, end, p))
        }
    }
}

/// An array of `n` elements whose first element starts at token `p`. With
/// no elements, only the closing token is skipped.
pub open spec fn array_spec(toks: Seq<Token>, end: usize, p: int, n: nat) -> Result<
    (Json, nat),
    Error,
>
    decreases toks.len() - p, 2int, 0nat,
{
    if n == 0 {
        Ok((Json::Arr(seq![]), skip_len(toks, p)))
    } else {
        match items_spec(toks, end, p, n) {
            Ok((s, u)) => Ok((Json::Arr(s), u)),
            Err(e) => Err(e),
        }
    }
}

/// `n` array elements from token `p` on, each followed by one skipped token.
pub open spec fn items_spec(toks: Seq<Token>, end: usize, p: int, n: nat) -> Result<
    (Seq<Json>, nat),
    Error,
>
    decreases toks.len() - p, 1int, n,
{
    if n == 0 {
        Ok((seq![], 0))
    } else if p < 0 || p > toks.len() {
        Err(unexpected(toks, end, p))
    } else {
        match value_spec(toks, end, p, false) {
            Ok((j, u)) => {
                let s = skip_len(toks, p + u);
                if p + u + s > toks.len() {
                    Err(unexpected(toks, end, p + u + s))
                } else {
                    match items_spec(toks, end, p + u + s, (n - 1) as nat) {
                        Ok((rest, u2)) => Ok((seq![j] + rest, u + s + u2)),
                        Err(e) => Err(e),
                    }
                }
            },
            Err(e) => Err(e),
        }
    }
}

/// An object of `n` fields whose first key is token `p`. With no fields,
/// only the closing token is skipped.
pub open spec fn object_spec(toks: Seq<Token>, end: usize, p: int, n: nat) -> Result<
    (Json, nat),
    Error,
>
    decreases toks.len() - p, 2int, 0nat,
{
    if n == 0 {
        Ok((Json::Obj(Map::empty()), skip_len(toks, p)))
    } else {
        match fields_spec(toks, end, p, n) {
            Ok((f, u)) => Ok((Json::Obj(to_map(f)), u)),
            Err(e) => Err(e),
        }
    }
}

/// The key token at `p` as a string, or `UnexpectedCharacter` at the end of
/// the input.
pub open spec fn key_spec(toks: Seq<Token>, end: usize, p: int) -> Result<Seq<char>, Error> {
    if 0 <= p < toks.len() {
        string_of(toks[p])
    } else {
        Err(unexpected(toks, end, p))
    }
}

/// `n` object fields from token `p` on: a key, a skipped separator, a value
/// and one more skipped token each.
pub open spec fn fields_spec(toks: Seq<Token>, end: usize, p: int, n: nat) -> Result<
    (Seq<(Seq<char>, Json)>, nat),
    Error,
>
    decreases toks.len() - p, 1int, n,
{
    if n == 0 {
        Ok((seq![], 0))
    } else if p < 0 || p >= toks.len() {
        Err(unexpected(toks, end, p))
    } else {
        match key_spec(toks, end, p) {
            Err(e) => Err(e),
            Ok(k) => {
                let s1 = skip_len(toks, p + 1);
                match value_spec(toks, end, p + 1 + s1, false) {
                    Ok((j, u)) => {
                        let s2 = skip_len(toks, p + 1 + s1 + u);
                        let q = p + 1 + s1 + u + s2;
                        if q > toks.len() {
                            Err(unexpected(toks, end, q))
                        } else {
                            match fields_spec(toks, end, q, (n - 1) as nat) {
                                Ok((rest, u2)) => Ok((seq![(k, j)] + rest, 1 + s1 + u + s2 + u2)),
                                Err(e) => Err(e),
                            }
                        }
                    },
                    Err(e) => Err(e),
                }
            },
        }
    }
}


/// The constructors that the decoder needs from a value representation, each
/// stated over the document that the built value represents.
pub trait ValueBuilder<'a>: Sized {
    /// The map that this representation's objects are built in.
    type Obj;

    /// `self` has the shape and contents of the document `j`.
    spec fn represents(&self, j: Json) -> bool;

    /// `o` holds exactly the keys of `m`, each with a value representing
    /// the document `m` gives for it.
    spec fn obj_represents(o: &Self::Obj, m: Map<Seq<char>, Json>) -> bool;

    /// A string value for the text `s`.
    fn from_text(s: &'a String) -> (r: Self)
        ensures
            r.represents(Json::Str(s@)),
    ;

    /// A number value.
    fn from_number(n: Number) -> (r: Self)
        ensures
            r.represents(number_json(n)),
    ;

    /// A boolean value.
    fn from_bool(b: bool) -> (r: Self)
        ensures
            r.represents(Json::Bool(b)),
    ;

    /// The null value.
    fn from_null() -> (r: Self)
        ensures
            r.represents(Json::Null),
    ;

    /// An array of the given elements, in order.
    fn from_vec(items: Vec<Self>, js: Ghost<Seq<Json>>) -> (r: Self)
        requires
            items@.len() == js@.len(),
            forall|i: int| 0 <= i < js@.len() ==> (#[trigger] items@[i]).represents(js@[i]),
        ensures
            r.represents(Json::Arr(js@)),
    ;

    /// An empty map with room for `n` entries.
    fn obj_with_capacity(n: usize) -> (r: Self::Obj)
        ensures
            Self::obj_represents(&r, Map::empty()),
    ;

    /// Puts `v` under `k`, replacing what the key held.
    fn obj_insert(o: &mut Self::Obj, k: &'a String, v: Self, m: Ghost<Map<Seq<char>, Json>>, j: Ghost<Json>)
        requires
            Self::obj_represents(old(o), m@),
            v.represents(j@),
            m@.dom().finite(),
        ensures
            Self::obj_represents(final(o), m@.insert(k@, j@)),
    ;

    /// An object of the entries of `o`.
    fn from_obj(o: Self::Obj, m: Ghost<Map<Seq<char>, Json>>) -> (r: Self)
        requires
            Self::obj_represents(&o, m@),
            m@.dom().finite(),
        ensures
            r.represents(Json::Obj(m@)),
    ;
}

/// A cursor over the tokens of one input, building values from them.
pub struct Deserializer<'a> {
    /// The structural tokens, in input order.
    pub tokens: &'a Vec<Token>,
    /// Index of the next token to read.
    pub pos: usize,
    /// Length of the input, the offset reported when the tokens run out.
    pub end: usize,
}

impl<'a> Deserializer<'a> {
    /// The cursor stands on a token, or just past the last one.
    pub open spec fn wf(&self) -> bool {
        self.pos <= self.tokens@.len()
    }

    /// A cursor at the first of `tokens`, over an input of `end` bytes.
    pub fn new(tokens: &'a Vec<Token>, end: usize) -> (r: Deserializer<'a>)
        ensures
            r.tokens@ == tokens@,
            r.pos == 0,
            r.end == end,
            r.wf(),
    {
        Deserializer { tokens, pos: 0, end }
    }

    /// Moves past the current token, unless the input has run out.
    pub fn skip(&mut self)
        requires
            old(self).wf(),
        ensures
            final(self).wf(),
            final(self).tokens@ == old(self).tokens@,
            final(self).end == old(self).end,
            final(self).pos == old(self).pos + skip_len(old(self).tokens@, old(self).pos as int),
    {
        if self.pos < self.tokens.len() {
            self.pos = self.pos + 1;
        }
    }

    /// How many elements the look-ahead counted for the container token at
    /// `p`.
    pub fn count_elements(&self, p: usize) -> (r: usize)
        requires
            p < self.tokens@.len(),
        ensures
            r == count_of(self.tokens@[p as int]),
    {
        match self.tokens[p].lexeme {
            Lexeme::Count(n) => n,
            _ => 0,
        }
    }

    /// The text of the string token at `p`, borrowed from the tokens.
    pub fn parse_str(&self, p: usize) -> (r: Result<&'a String, Error>)
        requires
            p < self.tokens@.len(),
        ensures
            match string_of(self.tokens@[p as int]) {
                Ok(s) => r is Ok && r->Ok_0@ == s,
                Err(e) => r == Err::<&String, Error>(e),
            },
    {
        let toks: &'a Vec<Token> = self.tokens;
        let t = &toks[p];
        match &t.lexeme {
            Lexeme::Text(Ok(s)) => Ok(s),
            Lexeme::Text(Err(k)) => Err(Error::at(t.offset, t.byte, *k)),
            _ => Err(Error::at(t.offset, t.byte, ErrorType::InvalidString)),
        }
    }

    /// The number token at `p`, read at the top level when `root` holds and
    /// as a nested value otherwise.
    pub fn parse_number(&self, p: usize, root: bool) -> (r: Result<Number, Error>)
        requires
            p < self.tokens@.len(),
        ensures
            match number_of(self.tokens@[p as int], root) {
                Ok(j) => r is Ok && number_json(r->Ok_0) == j,
                Err(e) => r == Err::<Number, Error>(e),
            },
    {
        let t = &self.tokens[p];
        match &t.lexeme {
            Lexeme::Num { root: r, nested: n } => {
                let x = if root {
                    *r
                } else {
                    *n
                };
                match x {
                    Ok(v) => Ok(v),
                    Err(k) => Err(Error::at(t.offset, t.byte, k)),
                }
            },
            _ => Err(Error::at(t.offset, t.byte, ErrorType::InvalidNumber)),
        }
    }

    /// Reads the value that starts at the cursor; `root` tells whether it is
    /// the whole document, which decides how a bare number is read.
    pub fn parse_value<V: ValueBuilder<'a>>(&mut self, root: bool) -> (r: Result<V, Error>)
        requires
            old(self).wf(),
        ensures
            final(self).wf(),
            final(self).tokens@ == old(self).tokens@,
            final(self).end == old(self).end,
            match value_spec(old(self).tokens@, old(self).end, old(self).pos as int, root) {
                Ok((j, u)) => r is Ok && r->Ok_0.represents(j) && final(self).pos == old(self).pos
                    + u,
                Err(e) => r == Err::<V, Error>(e),
            },
        decreases old(self).tokens@.len() - old(self).pos, 0int,
    {
        if self.pos >= self.tokens.len() {
            return Err(Error::at(self.end, 0, ErrorType::UnexpectedCharacter));
        }
        let p = self.pos;
        let b = self.tokens[p].byte;
        self.pos = p + 1;
        if b == 34 {
            match self.parse_str(p) {
                Ok(s) => Ok(V::from_text(s)),
                Err(e) => Err(e),
            }
        } else if b == 45 || (48 <= b && b <= 57) {
            match self.parse_number(p, root) {
                Ok(n) => Ok(V::from_number(n)),
                Err(e) => Err(e),
            }
        } else if b == 110 {
            Ok(V::from_null())
        } else if b == 116 {
            Ok(V::from_bool(true))
        } else if b == 102 {
            Ok(V::from_bool(false))
        } else if b == 91 {
            let n = self.count_elements(p);
            self.parse_array(n)
        } else if b == 123 {
            let n = self.count_elements(p);
            self.parse_map(n)
        } else {
            Err(Error::at(self.tokens[p].offset, b, ErrorType::UnexpectedCharacter))
        }
    }

    /// Reads an array of `n` elements whose opening token has been read. With
    /// `n` at zero, only the closing token is skipped and nothing is allocated.
    pub fn parse_array<V: ValueBuilder<'a>>(&mut self, n: usize) -> (r: Result<V, Error>)
        requires
            old(self).wf(),
        ensures
            final(self).wf(),
            final(self).tokens@ == old(self).tokens@,
            final(self).end == old(self).end,
            match array_spec(old(self).tokens@, old(self).end, old(self).pos as int, n as nat) {
                Ok((j, u)) => r is Ok && r->Ok_0.represents(j) && final(self).pos == old(self).pos
                    + u,
                Err(e) => r == Err::<V, Error>(e),
            },
        decreases old(self).tokens@.len() - old(self).pos, 2int,
    {
        let ghost toks = self.tokens@;
        let ghost end = self.end;
        let ghost p0 = self.pos as int;
        if n == 0 {
            self.skip();
            let ghost none: Seq<Json> = seq![];
            return Ok(V::from_vec(Vec::new(), Ghost(none)));
        }
        let mut res: Vec<V> = Vec::with_capacity(n);
        let ghost mut acc: Seq<Json> = seq![];
        let mut i: usize = 0;
        while i < n
            invariant
                self.wf(),
                toks == old(self).tokens@,
                end == old(self).end,
                p0 == old(self).pos,
                self.tokens@ == toks,
                self.end == end,
                p0 <= self.pos,
                0 < n,
                i <= n,
                res@.len() == acc.len() == i,
                forall|k: int| 0 <= k < acc.len() ==> (#[trigger] res@[k]).represents(acc[k]),
                items_spec(toks, end, p0, n as nat) == match items_spec(
                    toks,
                    end,
                    self.pos as int,
                    (n - i) as nat,
                ) {
                    Ok((rest, u)) => Ok((acc + rest, (self.pos - p0 + u) as nat)),
                    Err(e) => Err(e),
                },
            decreases n - i,
        {
            let ghost before = self.pos as int;
            let v: V = match self.parse_value(false) {
                Ok(v) => v,
                Err(e) => {
                    return Err(e);
                },
            };
            let ghost j = value_spec(toks, end, before, false)->Ok_0.0;
            self.skip();
            proof {
                let q = self.pos as int;
                match items_spec(toks, end, q, (n - i - 1) as nat) {
                    Ok((rest, u2)) => {
                        assert(acc + (seq![j] + rest) =~= acc.push(j) + rest);
                    },
                    Err(e) => {},
                }
                acc = acc.push(j);
            }
            res.push(v);
            i = i + 1;
        }
        assert(acc + seq![] =~= acc);
        Ok(V::from_vec(res, Ghost(acc)))
    }

    /// Reads the key token at the cursor and moves past it.
    pub fn parse_key(&mut self) -> (r: Result<&'a String, Error>)
        requires
            old(self).wf(),
        ensures
            final(self).wf(),
            final(self).tokens@ == old(self).tokens@,
            final(self).end == old(self).end,
            match key_spec(old(self).tokens@, old(self).end, old(self).pos as int) {
                Ok(k) => r is Ok && r->Ok_0@ == k && final(self).pos == old(self).pos + 1,
                Err(e) => r == Err::<&String, Error>(e),
            },
    {
        if self.pos >= self.tokens.len() {
            return Err(Error::at(self.end, 0, ErrorType::UnexpectedCharacter));
        }
        let p = self.pos;
        self.pos = p + 1;
        self.parse_str(p)
    }

    /// Reads an object of `n` fields whose opening token has been read. A key
    /// given twice keeps its last value. With `n` at zero, only the closing
    /// token is skipped.
    pub fn parse_map<V: ValueBuilder<'a>>(&mut self, n: usize) -> (r: Result<V, Error>)
        requires
            old(self).wf(),
        ensures
            final(self).wf(),
            final(self).tokens@ == old(self).tokens@,
            final(self).end == old(self).end,
            match object_spec(old(self).tokens@, old(self).end, old(self).pos as int, n as nat) {
                Ok((j, u)) => r is Ok && r->Ok_0.represents(j) && final(self).pos == old(self).pos
                    + u,
                Err(e) => r == Err::<V, Error>(e),
            },
        decreases old(self).tokens@.len() - old(self).pos, 2int,
    {
        let ghost toks = self.tokens@;
        let ghost end = self.end;
        let ghost p0 = self.pos as int;
        if n == 0 {
            self.skip();
            let o = V::obj_with_capacity(0);
            let ghost none: Map<Seq<char>, Json> = Map::empty();
            return Ok(V::from_obj(o, Ghost(none)));
        }
        let mut res = V::obj_with_capacity(n);
        let ghost mut acc: Seq<(Seq<char>, Json)> = seq![];
        let mut i: usize = 0;
        while i < n
            invariant
                self.wf(),
                toks == old(self).tokens@,
                end == old(self).end,
                p0 == old(self).pos,
                self.tokens@ == toks,
                self.end == end,
                p0 <= self.pos,
                0 < n,
                i <= n,
                to_map(acc).dom().finite(),
                V::obj_represents(&res, to_map(acc)),
                fields_spec(toks, end, p0, n as nat) == match fields_spec(
                    toks,
                    end,
                    self.pos as int,
                    (n - i) as nat,
                ) {
                    Ok((rest, u)) => Ok((acc + rest, (self.pos - p0 + u) as nat)),
                    Err(e) => Err(e),
                },
            decreases n - i,
        {
            let key = match self.parse_key() {
                Ok(k) => k,
                Err(e) => {
                    return Err(e);
                },
            };
            self.skip();
            let ghost before = self.pos as int;
            let v: V = match self.parse_value(false) {
                Ok(v) => v,
                Err(e) => {
                    return Err(e);
                },
            };
            let ghost j = value_spec(toks, end, before, false)->Ok_0.0;
            self.skip();
            let ghost kv = key@;
            let ghost m = to_map(acc);
            V::obj_insert(&mut res, key, v, Ghost(m), Ghost(j));
            proof {
                let q = self.pos as int;
                match fields_spec(toks, end, q, (n - i - 1) as nat) {
                    Ok((rest, u2)) => {
                        assert(acc + (seq![(kv, j)] + rest) =~= acc.push((kv, j)) + rest);
                    },
                    Err(e) => {},
                }
                let acc2 = acc.push((kv, j));
                assert(acc2.drop_last() =~= acc);
                assert(to_map(acc2) == to_map(acc).insert(kv, j));
                acc = acc2;
            }
            i = i + 1;
        }
        assert(acc + seq![] =~= acc);
        let ghost m = to_map(acc);
        Ok(V::from_obj(res, Ghost(m)))
    }
}

/// What decoding the tokens `toks` of an input of `end` bytes gives, in a
/// representation that `V` builds: a value representing the document, or
/// the first error met.
pub open spec fn decodes_as<'a, V: ValueBuilder<'a>>(toks: Seq<Token>, end: usize, r: Result<V, Error>) -> bool {
    match value_spec(toks, end, 0, true) {
        Ok((j, _)) => r is Ok && r->Ok_0.represents(j),
        Err(e) => r == Err::<V, Error>(e),
    }
}

/// Builds an owned value from the tokens of a whole document, over an input
/// of `end` bytes. The first error met ends the work; no partial value is
/// returned.
pub fn to_owned_value(tokens: &Vec<Token>, end: usize) -> (r: Result<Value, Error>)
    ensures
        decodes_as(tokens@, end, r),
        match value_spec(tokens@, end, 0, true) {
            Ok((j, _)) => r is Ok && models(r->Ok_0, j),
            Err(e) => r == Err::<Value, Error>(e),
        },
{
    let mut d = Deserializer::new(tokens, end);
    d.parse_value(true)
}

/// Builds a value whose strings borrow from `tokens`, from the tokens of a
/// whole document over an input of `end` bytes.
pub fn to_borrowed_value<'a>(tokens: &'a Vec<Token>, end: usize) -> (r: Result<BorrowedValue<'a>, Error>)
    ensures
        decodes_as(tokens@, end, r),
        match value_spec(tokens@, end, 0, true) {
            Ok((j, _)) => r is Ok && borrowed_models(r->Ok_0, j),
            Err(e) => r == Err::<BorrowedValue, Error>(e),
        },
{
    let mut d = Deserializer::new(tokens, end);
    d.parse_value(true)
}

/// An owned and a borrowed value represent one and the same document.
pub open spec fn same_tree(a: Value, b: BorrowedValue) -> bool {
    exists|j: Json| models(a, j) && borrowed_models(b, j)
}

/// Decoding the same tokens into the owned and into the borrowed
/// representation succeeds or fails alike, with the same error, and gives
/// values of the same document.
pub proof fn lemma_representations_agree(
    toks: Seq<Token>,
    end: usize,
    a: Result<Value, Error>,
    b: Result<BorrowedValue, Error>,
)
    requires
        decodes_as(toks, end, a),
        decodes_as(toks, end, b),
    ensures
        a is Ok <==> b is Ok,
        a is Err ==> a->Err_0 == b->Err_0,
        a is Ok ==> same_tree(a->Ok_0, b->Ok_0),
{
    if let Ok((j, _)) = value_spec(toks, end, 0, true) {
        assert(models(a->Ok_0, j) && borrowed_models(b->Ok_0, j));
    }
}

/// A byte that starts no value, met where a value is due, is reported as
/// `UnexpectedCharacter` at that token's own offset and byte.
pub proof fn lemma_unexpected_byte_is_located(toks: Seq<Token>, end: usize, p: int, root: bool)
    requires
        0 <= p < toks.len(),
        !starts_value(toks[p].byte),
    ensures
        value_spec(toks, end, p, root) == Err::<(Json, nat), Error>(
            Error {
                index: toks[p].offset,
                character: toks[p].byte,
                error: ErrorType::UnexpectedCharacter,
            },
        ),
{
}

/// An opening `[` whose look-ahead count is zero reads as an empty array,
/// taking the bracket and the token after it.
pub proof fn lemma_empty_array(toks: Seq<Token>, end: usize, p: int, root: bool)
    requires
        0 <= p,
        p + 1 < toks.len(),
        toks[p].byte == 91,
        count_of(toks[p]) == 0,
    ensures
        value_spec(toks, end, p, root) == Ok::<(Json, nat), Error>((Json::Arr(seq![]), 2)),
        forall|v: Value| models(v, Json::Arr(seq![])) ==> v is Array && v->Array_0@.len() == 0,
{
}

/// An opening `{` whose look-ahead count is zero reads as an object with no
/// entries, taking the brace and the token after it.
pub proof fn lemma_empty_object(toks: Seq<Token>, end: usize, p: int, root: bool)
    requires
        0 <= p,
        p + 1 < toks.len(),
        toks[p].byte == 123,
        count_of(toks[p]) == 0,
    ensures
        value_spec(toks, end, p, root) == Ok::<(Json, nat), Error>((Json::Obj(Map::empty()), 2)),
        forall|v: Value| models(v, Json::Obj(Map::empty())) ==> v is Object && entries(
            v->Object_0,
        ).dom() =~= Set::<Seq<char>>::empty(),
{
}

} // verus!
