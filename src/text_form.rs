use vstd::prelude::*;

use crate::decode::{
    count_of, decodes_as, fields_spec, items_spec, key_spec, models, number_of, skip_len,
    starts_number, string_of, to_map, value_spec, Json, Token,
};
use crate::error::Error;
use crate::value::Value;

verus! {

/// How many tokens the text form of a document takes, and how its parts are
/// laid out: for an array, the layout of each element; for an object, the
/// order in which its keys are written and the layout of each value.
pub struct Layout {
    pub len: nat,
    pub kids: Seq<Layout>,
    pub keys: Seq<Seq<char>>,
}

/// Where element `i` of an array starts, counted from its first element:
/// every element before it, each with the separator token after it.
pub open spec fn kid_start(kids: Seq<Layout>, i: int) -> nat
    decreases i,
{
    if i <= 0 || i > kids.len() {
        0
    } else {
        kid_start(kids, i - 1) + kids[i - 1].len + 1
    }
}

/// Where field `i` of an object starts, counted from its first key: every
/// field before it, each a key, a separator, a value and one more token.
pub open spec fn field_start(kids: Seq<Layout>, i: int) -> nat
    decreases i,
{
    if i <= 0 || i > kids.len() {
        0
    } else {
        field_start(kids, i - 1) + kids[i - 1].len + 3
    }
}

/// The fields of `m` in the order of `keys`.
pub open spec fn fields_in_order(keys: Seq<Seq<char>>, m: Map<Seq<char>, Json>) -> Seq<
    (Seq<char>, Json),
> {
    Seq::new(keys.len(), |i: int| (keys[i], m[keys[i]]))
}

/// Tokens from `p` on are the text form of the document `j`, laid out as
/// `lay` says: what a writer of `j` hands the tokenizer. A container token
/// carries its element count, each array element is followed by a separator
/// token, and an empty container by its closing token. An object's keys are
/// written once each, in the order the layout gives.
pub open spec fn is_text_form(toks: Seq<Token>, p: int, j: Json, lay: Layout) -> bool
    decreases j,
{
    &&& 0 <= p < toks.len()
    &&& match j {
        Json::Null => toks[p].byte == 110 && lay.len == 1,
        Json::Bool(b) => toks[p].byte == (if b {
            116u8
        } else {
            102u8
        }) && lay.len == 1,
        Json::I64(_) => {
            &&& starts_number(toks[p].byte)
            &&& number_of(toks[p], true) == Ok::<Json, Error>(j)
            &&& number_of(toks[p], false) == Ok::<Json, Error>(j)
            &&& lay.len == 1
        },
        Json::F64(_) => {
            &&& starts_number(toks[p].byte)
            &&& number_of(toks[p], true) == Ok::<Json, Error>(j)
            &&& number_of(toks[p], false) == Ok::<Json, Error>(j)
            &&& lay.len == 1
        },
        Json::Str(s) => toks[p].byte == 34 && string_of(toks[p]) == Ok::<Seq<char>, Error>(s)
            && lay.len == 1,
        Json::Arr(items) => {
            &&& toks[p].byte == 91
            &&& count_of(toks[p]) == items.len()
            &&& if items.len() == 0 {
                p + 1 < toks.len() && lay.len == 2
            } else {
                &&& lay.kids.len() == items.len()
                &&& lay.len == 1 + kid_start(lay.kids, items.len() as int)
                &&& forall|i: int|
                    0 <= i < items.len() ==> p + 1 + kid_start(lay.kids, i) + lay.kids[i].len
                        < toks.len() && is_text_form(
                        toks,
                        p + 1 + kid_start(lay.kids, i),
                        #[trigger] items[i],
                        lay.kids[i],
                    )
            }
        },
        Json::Obj(m) => {
            let keys = lay.keys;
            let kids = lay.kids;
            &&& toks[p].byte == 123
            &&& count_of(toks[p]) == keys.len()
            &&& m.dom().finite()
            &&& forall|k: Seq<char>| #[trigger]
                m.dom().contains(k) ==> exists|i: int| 0 <= i < keys.len() && keys[i] == k
            &&& if keys.len() == 0 {
                p + 1 < toks.len() && lay.len == 2
            } else {
                &&& kids.len() == keys.len()
                &&& lay.len == 1 + field_start(kids, keys.len() as int)
                &&& forall|i: int|
                    0 <= i < keys.len() ==> {
                        let q = p + 1 + field_start(kids, i);
                        &&& m.dom().contains(#[trigger] keys[i])
                        &&& q + 2 + kids[i].len < toks.len()
                        &&& string_of(toks[q]) == Ok::<Seq<char>, Error>(keys[i])
                        &&& is_text_form(toks, q + 2, m[keys[i]], kids[i])
                    }
            }
        },
    }
}

/// Decoding the text form of a document gives the document back, taking
/// exactly the tokens of that form.
pub proof fn lemma_text_form_decodes(
    toks: Seq<Token>,
    end: usize,
    p: int,
    j: Json,
    lay: Layout,
    root: bool,
)
    requires
        is_text_form(toks, p, j, lay),
    ensures
        value_spec(toks, end, p, root) == Ok::<(Json, nat), Error>((j, lay.len)),
    decreases j, 1nat, 0nat,
{
    if let Json::Arr(items) = j {
        if items.len() > 0 {
            let n = items.len() as int;
            assert(toks[p].byte == 91);
            assert(count_of(toks[p]) == n);
            lemma_items_decode(toks, end, p, j, lay, 0);
            assert(items.subrange(0, n) =~= items);
            assert(kid_start(lay.kids, 0) == 0);
            assert(items_spec(toks, end, p + 1, n as nat) == Ok::<(Seq<Json>, nat), Error>((items, kid_start(lay.kids, n))));
        } else {
            assert(items =~= Seq::<Json>::empty());
        }
    }
    if let Json::Obj(m) = j {
        let keys = lay.keys;
        let n = keys.len() as int;
        assert(toks[p].byte == 123);
        assert(count_of(toks[p]) == n);
        if n > 0 {
            lemma_fields_decode(toks, end, p, j, lay, 0);
            let fs = fields_in_order(keys, m);
            assert(fs.subrange(0, n) =~= fs);
            assert(field_start(lay.kids, 0) == 0);
            lemma_to_map_in_order(keys, m, n);
            assert(fs.subrange(0, n) =~= fs);
            assert forall|k: Seq<char>| m.dom().contains(k) implies to_map(fs).dom().contains(k) by {
                let i = choose|i: int| 0 <= i < keys.len() && keys[i] == k;
            }
            assert(to_map(fs) =~= m);
        } else {
            assert forall|k: Seq<char>| !m.dom().contains(k) by {
                if m.dom().contains(k) {
                    let i = choose|i: int| 0 <= i < keys.len() && keys[i] == k;
                }
            }
            assert(m =~= Map::<Seq<char>, Json>::empty());
        }
    }
}

/// The fields from `k` on of an object in text form read back.
proof fn lemma_fields_decode(toks: Seq<Token>, end: usize, p: int, j: Json, lay: Layout, k: int)
    requires
        j is Obj,
        lay.keys.len() > 0,
        is_text_form(toks, p, j, lay),
        0 <= k <= lay.keys.len(),
    ensures
        fields_spec(
            toks,
            end,
            p + 1 + field_start(lay.kids, k),
            (lay.keys.len() - k) as nat,
        ) == Ok::<(Seq<(Seq<char>, Json)>, nat), Error>(
            (
                fields_in_order(lay.keys, j->Obj_0).subrange(k, lay.keys.len() as int),
                (field_start(lay.kids, lay.keys.len() as int) - field_start(lay.kids, k)) as nat,
            ),
        ),
    decreases j, 0nat, lay.keys.len() - k,
{
    let m = j->Obj_0;
    let keys = lay.keys;
    let kids = lay.kids;
    let n = keys.len() as int;
    let fs = fields_in_order(keys, m);
    lemma_field_start_grows(kids, k, n);
    if k < n {
        let q = p + 1 + field_start(kids, k);
        assert(m.dom().contains(keys[k]));
        assert(q + 2 + kids[k].len < toks.len());
        assert(key_spec(toks, end, q) == Ok::<Seq<char>, Error>(keys[k]));
        assert(decreases_to!(j => j->Obj_0));
        assert(decreases_to!(m => m[keys[k]])) by {
            vstd::map::axiom_map_index_decreases_finite(m, keys[k]);
        }
        lemma_text_form_decodes(toks, end, q + 2, m[keys[k]], kids[k], false);
        assert(skip_len(toks, q + 1) == 1);
        assert(skip_len(toks, q + 2 + kids[k].len) == 1);
        assert(field_start(kids, k + 1) == field_start(kids, k) + kids[k].len + 3);
        lemma_fields_decode(toks, end, p, j, lay, k + 1);
        lemma_field_start_grows(kids, k + 1, n);
        assert(seq![(keys[k], m[keys[k]])] + fs.subrange(k + 1, n) =~= fs.subrange(k, n));
    } else {
        assert(fs.subrange(k, n) =~= Seq::<(Seq<char>, Json)>::empty());
    }
}

/// Inserting the first `i` fields of `m`, in the order of `keys`, gives an
/// object with exactly those keys, each with its value in `m`.
proof fn lemma_to_map_in_order(keys: Seq<Seq<char>>, m: Map<Seq<char>, Json>, i: int)
    requires
        0 <= i <= keys.len(),
    ensures
        forall|k: Seq<char>|
            #[trigger] to_map(fields_in_order(keys, m).subrange(0, i)).dom().contains(k) <==> exists|
                t: int,
            |
                0 <= t < i && keys[t] == k,
        forall|k: Seq<char>| #[trigger]
            to_map(fields_in_order(keys, m).subrange(0, i)).dom().contains(k) ==> to_map(
                fields_in_order(keys, m).subrange(0, i),
            )[k] == m[k],
    decreases i,
{
    let fs = fields_in_order(keys, m);
    if i > 0 {
        lemma_to_map_in_order(keys, m, i - 1);
        let cur = fs.subrange(0, i);
        let prev = fs.subrange(0, i - 1);
        assert(cur.drop_last() =~= prev);
        assert(cur.last() == (keys[i - 1], m[keys[i - 1]]));
        assert(to_map(cur) == to_map(prev).insert(keys[i - 1], m[keys[i - 1]]));
        assert forall|k: Seq<char>|
            #[trigger] to_map(cur).dom().contains(k) <==> exists|t: int|
                0 <= t < i && keys[t] == k by {
            if to_map(prev).dom().contains(k) {
                let t = choose|t: int| 0 <= t < i - 1 && keys[t] == k;
                assert(0 <= t < i && keys[t] == k);
            }
            if k == keys[i - 1] {
                assert(0 <= i - 1 < i && keys[i - 1] == k);
            }
            if exists|t: int| 0 <= t < i && keys[t] == k {
                let t = choose|t: int| 0 <= t < i && keys[t] == k;
                if t < i - 1 {
                    assert(exists|t2: int| 0 <= t2 < i - 1 && keys[t2] == k);
                    assert(to_map(prev).dom().contains(k));
                }
            }
        }
        assert forall|k: Seq<char>| #[trigger]
            to_map(cur).dom().contains(k) implies to_map(cur)[k] == m[k] by {
            if k != keys[i - 1] {
                assert(to_map(prev).dom().contains(k));
            }
        }
    } else {
        assert(fs.subrange(0, 0) =~= Seq::<(Seq<char>, Json)>::empty());
    }
}

/// Field starts only grow along an object.
proof fn lemma_field_start_grows(kids: Seq<Layout>, a: int, b: int)
    requires
        0 <= a <= b <= kids.len(),
    ensures
        field_start(kids, a) <= field_start(kids, b),
    decreases b - a,
{
    if a < b {
        lemma_field_start_grows(kids, a, b - 1);
    }
}

/// The elements from `k` on of an array in text form read back, each with
/// the separator after it.
proof fn lemma_items_decode(toks: Seq<Token>, end: usize, p: int, j: Json, lay: Layout, k: int)
    requires
        j is Arr,
        j->Arr_0.len() > 0,
        is_text_form(toks, p, j, lay),
        0 <= k <= j->Arr_0.len(),
    ensures
        items_spec(
            toks,
            end,
            p + 1 + kid_start(lay.kids, k),
            (j->Arr_0.len() - k) as nat,
        ) == Ok::<(Seq<Json>, nat), Error>(
            (
                j->Arr_0.subrange(k, j->Arr_0.len() as int),
                (kid_start(lay.kids, j->Arr_0.len() as int) - kid_start(lay.kids, k)) as nat,
            ),
        ),
    decreases j, 0nat, j->Arr_0.len() - k,
{
    let items = j->Arr_0;
    let n = items.len() as int;
    lemma_kid_start_grows(lay.kids, k, n);
    if k < n {
        let q = p + 1 + kid_start(lay.kids, k);
        assert(q + lay.kids[k].len < toks.len() && is_text_form(toks, q, items[k], lay.kids[k]));
        assert(decreases_to!(j => j->Arr_0));
        assert(decreases_to!(items => items[k])) by {
            vstd::seq::axiom_seq_index_decreases(items, k);
        }
        lemma_text_form_decodes(toks, end, q, items[k], lay.kids[k], false);
        assert(skip_len(toks, q + lay.kids[k].len) == 1);
        assert(kid_start(lay.kids, k + 1) == kid_start(lay.kids, k) + lay.kids[k].len + 1);
        lemma_items_decode(toks, end, p, j, lay, k + 1);
        lemma_kid_start_grows(lay.kids, k + 1, n);
        assert(seq![items[k]] + items.subrange(k + 1, n) =~= items.subrange(k, n));
    } else {
        assert(items.subrange(k, n) =~= Seq::<Json>::empty());
    }
}

/// Element starts only grow along an array.
proof fn lemma_kid_start_grows(kids: Seq<Layout>, a: int, b: int)
    requires
        0 <= a <= b <= kids.len(),
    ensures
        kid_start(kids, a) <= kid_start(kids, b),
    decreases b - a,
{
    if a < b {
        lemma_kid_start_grows(kids, a, b - 1);
    }
}


/// A value written out as text and read back is the same tree: when `v` is
/// a value of the document `j` and the tokens are a text form of `j`,
/// decoding them succeeds with a value of that same document.
pub proof fn lemma_round_trip(
    toks: Seq<Token>,
    end: usize,
    v: Value,
    j: Json,
    lay: Layout,
    r: Result<Value, Error>,
)
    requires
        models(v, j),
        is_text_form(toks, 0, j, lay),
        decodes_as(toks, end, r),
    ensures
        r is Ok,
        models(r->Ok_0, j),
{
    lemma_text_form_decodes(toks, end, 0, j, lay, true);
}

} // verus!
