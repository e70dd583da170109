//! The MessagePack value universe and its mathematical model.

use vstd::prelude::*;

verus! {

/// A MessagePack integer: any whole number from `i64::MIN` to `u64::MAX`.
#[derive(Debug, PartialEq)]
pub enum Integer {
    U64(u64),
    I64(i64),
}

/// A MessagePack value. Floating-point numbers are held by their IEEE 754
/// bit patterns, so that every value can be compared and copied exactly.
#[derive(Debug, PartialEq)]
pub enum Datum {
    Nil,
    Boolean(bool),
    Integer(Integer),
    F32(u32),
    F64(u64),
    String(String),
    Binary(Vec<u8>),
    Array(Vec<Datum>),
    Dict(Vec<(Datum, Datum)>),
    Ext(i8, Vec<u8>),
}

/// What a `Datum` denotes: integers are numbers regardless of the variant that
/// carries them, and collections are sequences.
pub ghost enum DatumModel {
    Nil,
    Boolean(bool),
    Integer(int),
    F32(u32),
    F64(u64),
    String(Seq<char>),
    Binary(Seq<u8>),
    Array(Seq<DatumModel>),
    Dict(Seq<(DatumModel, DatumModel)>),
    Ext(i8, Seq<u8>),
}

impl View for Integer {
    type V = int;

    open spec fn view(&self) -> int {
        match *self {
            Integer::U64(n) => n as int,
            Integer::I64(n) => n as int,
        }
    }
}

impl Clone for Integer {
    fn clone(&self) -> (r: Self)
        ensures
            r == *self,
    {
        match self {
            Integer::U64(n) => Integer::U64(*n),
            Integer::I64(n) => Integer::I64(*n),
        }
    }
}

/// The models of a sequence of values, element by element.
pub open spec fn models_of(items: Seq<Datum>) -> Seq<DatumModel>
    decreases items,
{
    Seq::new(items.len(), |i: int| if 0 <= i < items.len() { items[i]@ } else { DatumModel::Nil })
}

/// The models of a sequence of key-value pairs, pair by pair.
pub open spec fn pair_models_of(pairs: Seq<(Datum, Datum)>) -> Seq<(DatumModel, DatumModel)>
    decreases pairs,
{
    Seq::new(
        pairs.len(),
        |i: int| if 0 <= i < pairs.len() {
            (pairs[i].0@, pairs[i].1@)
        } else {
            (DatumModel::Nil, DatumModel::Nil)
        },
    )
}

impl View for Datum {
    type V = DatumModel;

    open spec fn view(&self) -> DatumModel
        decreases self,
    {
        match self {
            Datum::Nil => DatumModel::Nil,
            Datum::Boolean(b) => DatumModel::Boolean(*b),
            Datum::Integer(n) => DatumModel::Integer(n@),
            Datum::F32(bits) => DatumModel::F32(*bits),
            Datum::F64(bits) => DatumModel::F64(*bits),
            Datum::String(s) => DatumModel::String(s@),
            Datum::Binary(b) => DatumModel::Binary(b@),
            Datum::Array(items) => DatumModel::Array(models_of(items@)),
            Datum::Dict(pairs) => DatumModel::Dict(pair_models_of(pairs@)),
            Datum::Ext(tag, data) => DatumModel::Ext(*tag, data@),
        }
    }
}

/// Whether `b` is an exact copy of `a`: the same variant with the same
/// content, down to the variant that carries each integer. Byte strings and
/// collections are compared by what they hold.
pub open spec fn is_copy(a: Datum, b: Datum) -> bool
    decreases a,
{
    match a {
        Datum::Binary(bytes) => b is Binary && b->Binary_0@ == bytes@,
        Datum::Ext(tag, data) => b is Ext && b->Ext_0 == tag && b->Ext_1@ == data@,
        Datum::Array(items) => {
            &&& b is Array
            &&& b->Array_0@.len() == items@.len()
            &&& forall|i: int|
                0 <= i < items@.len() ==> is_copy(#[trigger] items@[i], b->Array_0@[i])
        },
        Datum::Dict(pairs) => {
            &&& b is Dict
            &&& b->Dict_0@.len() == pairs@.len()
            &&& forall|i: int|
                0 <= i < pairs@.len() ==> is_copy((#[trigger] pairs@[i]).0, b->Dict_0@[i].0)
                    && is_copy(pairs@[i].1, b->Dict_0@[i].1)
        },
        _ => b == a,
    }
}

/// Whether `b` holds an exact copy of each element of `a`, in the same order.
pub open spec fn copies(a: Seq<Datum>, b: Seq<Datum>) -> bool {
    &&& a.len() == b.len()
    &&& forall|i: int| 0 <= i < a.len() ==> is_copy(#[trigger] a[i], b[i])
}

/// Whether `b` holds an exact copy of each pair of `a`, in the same order.
pub open spec fn pair_copies(a: Seq<(Datum, Datum)>, b: Seq<(Datum, Datum)>) -> bool {
    &&& a.len() == b.len()
    &&& forall|i: int|
        0 <= i < a.len() ==> is_copy((#[trigger] a[i]).0, b[i].0) && is_copy(a[i].1, b[i].1)
}

/// A value is an exact copy of itself.
pub proof fn lemma_is_copy_of_itself(a: Datum)
    ensures
        is_copy(a, a),
    decreases a,
{
    match a {
        Datum::Array(items) => {
            assert forall|i: int| 0 <= i < items@.len() implies is_copy(
                #[trigger] items@[i],
                items@[i],
            ) by {
                lemma_is_copy_of_itself(items@[i]);
            }
        },
        Datum::Dict(pairs) => {
            assert forall|i: int| 0 <= i < pairs@.len() implies is_copy(
                (#[trigger] pairs@[i]).0,
                pairs@[i].0,
            ) && is_copy(pairs@[i].1, pairs@[i].1) by {
                lemma_is_copy_of_itself(pairs@[i].0);
                lemma_is_copy_of_itself(pairs@[i].1);
            }
        },
        _ => {},
    }
}

/// An exact copy denotes what the value it was made from denotes.
pub proof fn lemma_copy_denotes_the_same(a: Datum, b: Datum)
    requires
        is_copy(a, b),
    ensures
        a@ == b@,
    decreases a,
{
    match a {
        Datum::Array(items) => {
            let others = b->Array_0;
            assert forall|i: int| 0 <= i < items@.len() implies items@[i]@ == others@[i]@ by {
                assert(is_copy(items@[i], others@[i]));
                lemma_copy_denotes_the_same(items@[i], others@[i]);
            }
            assert(models_of(items@) =~= models_of(others@));
        },
        Datum::Dict(pairs) => {
            let others = b->Dict_0;
            assert forall|i: int| 0 <= i < pairs@.len() implies pairs@[i].0@ == others@[i].0@
                && pairs@[i].1@ == others@[i].1@ by {
                assert(is_copy(pairs@[i].0, others@[i].0) && is_copy(pairs@[i].1, others@[i].1));
                lemma_copy_denotes_the_same(pairs@[i].0, others@[i].0);
                lemma_copy_denotes_the_same(pairs@[i].1, others@[i].1);
            }
            assert(pair_models_of(pairs@) =~= pair_models_of(others@));
        },
        _ => {},
    }
}

/// Copies a list of values, element by element.
pub fn clone_items(items: &Vec<Datum>) -> (out: Vec<Datum>)
    ensures
        copies(items@, out@),
        models_of(out@) == models_of(items@),
    decreases items,
{
    let mut out: Vec<Datum> = Vec::new();
    let mut i: usize = 0;
    while i < items.len()
        invariant
            i <= items.len(),
            out@.len() == i,
            forall|j: int| 0 <= j < i ==> is_copy(#[trigger] items@[j], out@[j]),
            forall|j: int| 0 <= j < i ==> out@[j]@ == items@[j]@,
        decreases items.len() - i,
    {
        let item = items[i].clone();
        out.push(item);
        i += 1;
    }
    assert(models_of(out@) =~= models_of(items@));
    out
}

/// Copies a list of key-value pairs, pair by pair.
pub fn clone_pairs(pairs: &Vec<(Datum, Datum)>) -> (out: Vec<(Datum, Datum)>)
    ensures
        pair_copies(pairs@, out@),
        pair_models_of(out@) == pair_models_of(pairs@),
    decreases pairs,
{
    let mut out: Vec<(Datum, Datum)> = Vec::new();
    let mut i: usize = 0;
    while i < pairs.len()
        invariant
            i <= pairs.len(),
            out@.len() == i,
            forall|j: int|
                0 <= j < i ==> is_copy((#[trigger] pairs@[j]).0, out@[j].0) && is_copy(
                    pairs@[j].1,
                    out@[j].1,
                ),
            forall|j: int| 0 <= j < i ==> out@[j].0@ == pairs@[j].0@ && out@[j].1@ == pairs@[j].1@,
        decreases pairs.len() - i,
    {
        let key = pairs[i].0.clone();
        let item = pairs[i].1.clone();
        out.push((key, item));
        i += 1;
    }
    assert(pair_models_of(out@) =~= pair_models_of(pairs@));
    out
}

impl Clone for Datum {
    fn clone(&self) -> (r: Self)
        ensures
            is_copy(*self, r),
            r@ == self@,
        decreases self,
    {
        match self {
            Datum::Nil => Datum::Nil,
            Datum::Boolean(b) => Datum::Boolean(*b),
            Datum::Integer(n) => Datum::Integer(n.clone()),
            Datum::F32(bits) => Datum::F32(*bits),
            Datum::F64(bits) => Datum::F64(*bits),
            Datum::String(s) => Datum::String(s.clone()),
            Datum::Binary(b) => {
                let copy = b.clone();
                assert(copy@ =~= b@);
                Datum::Binary(copy)
            },
            Datum::Array(items) => Datum::Array(clone_items(items)),
            Datum::Dict(pairs) => Datum::Dict(clone_pairs(pairs)),
            Datum::Ext(tag, data) => {
                let copy = data.clone();
                assert(copy@ =~= data@);
                Datum::Ext(*tag, copy)
            },
        }
    }
}

} // verus!
