//! The null-aware boolean-mask filter and its mathematical model.
//!
//! The model is [`filter_seq`]: the sequence of a column's elements at
//! the positions a mask selects, in their original order, each element
//! kept whole — value and null status alike. Every concrete selector in
//! this module, and the public dispatcher [`filter`], is proved to
//! produce exactly that sequence.

use crate::array::{
    Array, BinaryArray, BooleanArray, PrimitiveArray, StringArray,
};
use crate::builder::{BinaryBuilder, PrimitiveBuilder, StringBuilder};
use crate::{supported, Error, LogicalType};
use vstd::prelude::*;

verus! {

/// Whether mask slot `i` selects its position. Only a present `true`
/// selects; a `false` slot and a null slot both leave the position out.
pub open spec fn selected(m: Seq<Option<bool>>, i: int) -> bool {
    m[i] == Some(true)
}

/// The elements of `s` at the positions `m` selects, in order, with
/// each element's null status carried along unchanged.
pub open spec fn filter_seq<T>(s: Seq<Option<T>>, m: Seq<Option<bool>>) -> Seq<Option<T>>
    decreases s.len(),
{
    if s.len() == 0 {
        Seq::empty()
    } else if selected(m, s.len() - 1) {
        filter_seq(s.drop_last(), m).push(s.last())
    } else {
        filter_seq(s.drop_last(), m)
    }
}

/// How many of the first `n` mask slots select their position.
pub open spec fn count_selected(m: Seq<Option<bool>>, n: int) -> int
    decreases n,
{
    if n <= 0 {
        0
    } else {
        count_selected(m, n - 1) + if selected(m, n - 1) {
            1int
        } else {
            0int
        }
    }
}

/// Length law: a filtered sequence holds exactly one element for each
/// selected position of the input, so its length is the number of mask
/// slots, among the input's indices, that select.
pub proof fn lemma_filter_seq_len<T>(s: Seq<Option<T>>, m: Seq<Option<bool>>)
    ensures
        filter_seq(s, m).len() == count_selected(m, s.len() as int),
    decreases s.len(),
{
    if s.len() > 0 {
        lemma_filter_seq_len(s.drop_last(), m);
    }
}

/// Counting selected slots over a longer prefix never counts fewer.
proof fn lemma_count_selected_mono(m: Seq<Option<bool>>, i: int, j: int)
    requires
        i <= j,
    ensures
        count_selected(m, i) <= count_selected(m, j),
    decreases j - i,
{
    if i < j {
        lemma_count_selected_mono(m, i, j - 1);
    }
}

/// Order law: the element a selected position `i` contributes lands at
/// output index `count_selected(m, i)` — the number of selected
/// positions before `i` — so the k-th output element is the input
/// element at the k-th selected index, unchanged. In particular its
/// null status is exactly that of the source element.
pub proof fn lemma_filter_seq_index<T>(s: Seq<Option<T>>, m: Seq<Option<bool>>, i: int)
    requires
        0 <= i < s.len(),
        selected(m, i),
    ensures
        0 <= count_selected(m, i) < filter_seq(s, m).len(),
        filter_seq(s, m)[count_selected(m, i)] == s[i],
    decreases s.len(),
{
    lemma_filter_seq_len(s, m);
    lemma_count_selected_mono(m, 0, i);
    lemma_count_selected_mono(m, i + 1, s.len() as int);
    if i == s.len() - 1 {
        lemma_filter_seq_len(s.drop_last(), m);
    } else {
        lemma_filter_seq_index(s.drop_last(), m, i);
    }
}

/// Null-preservation law: filtering never invents and never drops a
/// null — the output element contributed by selected position `i` is
/// null exactly when the source element at `i` is.
pub proof fn lemma_filter_seq_null_preserved<T>(s: Seq<Option<T>>, m: Seq<Option<bool>>, i: int)
    requires
        0 <= i < s.len(),
        selected(m, i),
    ensures
        0 <= count_selected(m, i) < filter_seq(s, m).len(),
        (filter_seq(s, m)[count_selected(m, i)] is None) == (s[i] is None),
{
    lemma_filter_seq_index(s, m, i);
}

/// Empty-selection law: a mask that selects no position — every slot
/// `false` or null — filters any sequence to the empty sequence.
pub proof fn lemma_filter_seq_none_selected<T>(s: Seq<Option<T>>, m: Seq<Option<bool>>)
    requires
        forall|i: int| 0 <= i < s.len() ==> !selected(m, i),
    ensures
        filter_seq(s, m).len() == 0,
    decreases s.len(),
{
    if s.len() > 0 {
        lemma_filter_seq_none_selected(s.drop_last(), m);
    }
}

/// Whether mask slot `i` selects, as executable code: a null mask slot
/// is treated as not selected, never as a fault.
fn mask_selects(mask: &BooleanArray, i: usize) -> (r: bool)
    requires
        i < mask@.len(),
    ensures
        r == selected(mask@, i as int),
{
    !mask.is_null(i) && mask.value(i)
}

/// Single forward pass over a fixed-width column: append the element of
/// every selected position — the value, or a null slot when the source
/// is null there — and finalize.
fn filter_primitive<T: Copy>(a: &PrimitiveArray<T>, mask: &BooleanArray) -> (r: PrimitiveArray<T>)
    requires
        a@.len() == mask@.len(),
    ensures
        r@ == filter_seq(a@, mask@),
{
    let n = a.len();
    let mut builder = PrimitiveBuilder::<T>::with_capacity(n);
    let mut i: usize = 0;
    while i < n
        invariant
            a@.len() == mask@.len(),
            n == a@.len(),
            i <= n,
            builder@ == filter_seq(a@.take(i as int), mask@),
        decreases n - i,
    {
        proof {
            assert(a@.take(i + 1).drop_last() =~= a@.take(i as int));
        }
        if mask_selects(mask, i) {
            if a.is_null(i) {
                builder.append_null();
            } else {
                builder.append_value(a.value(i));
            }
        }
        i = i + 1;
    }
    proof {
        assert(a@.take(n as int) =~= a@);
    }
    builder.finish()
}

/// Single forward pass over a text column, preserving null slots of
/// selected positions like every other type.
fn filter_string(a: &StringArray, mask: &BooleanArray) -> (r: StringArray)
    requires
        a@.len() == mask@.len(),
    ensures
        r@ == filter_seq(a@, mask@),
{
    let n = a.len();
    let mut builder = StringBuilder::with_capacity(n);
    let mut i: usize = 0;
    while i < n
        invariant
            a@.len() == mask@.len(),
            n == a@.len(),
            i <= n,
            builder@ == filter_seq(a@.take(i as int), mask@),
        decreases n - i,
    {
        proof {
            assert(a@.take(i + 1).drop_last() =~= a@.take(i as int));
        }
        if mask_selects(mask, i) {
            if a.is_null(i) {
                builder.append_null();
            } else {
                builder.append_value(a.value(i));
            }
        }
        i = i + 1;
    }
    proof {
        assert(a@.take(n as int) =~= a@);
    }
    builder.finish()
}

/// Single forward pass over a binary column, preserving null slots of
/// selected positions like every other type.
fn filter_binary(a: &BinaryArray, mask: &BooleanArray) -> (r: BinaryArray)
    requires
        a@.len() == mask@.len(),
    ensures
        r@ == filter_seq(a@, mask@),
{
    let n = a.len();
    let mut builder = BinaryBuilder::with_capacity(n);
    let mut i: usize = 0;
    while i < n
        invariant
            a@.len() == mask@.len(),
            n == a@.len(),
            i <= n,
            builder@ == filter_seq(a@.take(i as int), mask@),
        decreases n - i,
    {
        proof {
            assert(a@.take(i + 1).drop_last() =~= a@.take(i as int));
        }
        if mask_selects(mask, i) {
            if a.is_null(i) {
                builder.append_null();
            } else {
                builder.append_value(a.value(i));
            }
        }
        i = i + 1;
    }
    proof {
        assert(a@.take(n as int) =~= a@);
    }
    builder.finish()
}

/// The output stands to the input as [`filter_seq`] demands: same
/// concrete representation, and the output column is exactly the
/// mask-filtered sequence of the input column.
pub open spec fn filtered(input: Array, m: Seq<Option<bool>>, output: Array) -> bool {
    match (input, output) {
        (Array::UInt8(a), Array::UInt8(b)) => b@ == filter_seq(a@, m),
        (Array::UInt16(a), Array::UInt16(b)) => b@ == filter_seq(a@, m),
        (Array::UInt32(a), Array::UInt32(b)) => b@ == filter_seq(a@, m),
        (Array::UInt64(a), Array::UInt64(b)) => b@ == filter_seq(a@, m),
        (Array::Int8(a), Array::Int8(b)) => b@ == filter_seq(a@, m),
        (Array::Int16(a), Array::Int16(b)) => b@ == filter_seq(a@, m),
        (Array::Int32(a), Array::Int32(b)) => b@ == filter_seq(a@, m),
        (Array::Int64(a), Array::Int64(b)) => b@ == filter_seq(a@, m),
        (Array::Float32(a), Array::Float32(b)) => b@ == filter_seq(a@, m),
        (Array::Float64(a), Array::Float64(b)) => b@ == filter_seq(a@, m),
        (Array::Boolean(a), Array::Boolean(b)) => b@ == filter_seq(a@, m),
        (Array::Binary(a), Array::Binary(b)) => b@ == filter_seq(a@, m),
        (Array::Utf8(a), Array::Utf8(b)) => b@ == filter_seq(a@, m),
        _ => false,
    }
}

/// Filter a column by a boolean mask: the sole public entry point of
/// the kernel.
///
/// A column of a supported logical type whose length equals the mask's
/// is filtered to a fresh column of the same type holding, in order,
/// the elements of every selected position, null status preserved.
/// A column of an unsupported type is refused with
/// [`Error::UnsupportedType`] carrying that type; a supported column
/// whose length differs from the mask's is refused with
/// [`Error::LengthMismatch`]. The inputs are never mutated.
pub fn filter(array: &Array, mask: &BooleanArray) -> (r: Result<Array, Error>)
    ensures
        !supported(array.ty()) ==> r == Err::<Array, Error>(Error::UnsupportedType(array.ty())),
        supported(array.ty()) && array.spec_len() != mask@.len() ==> r == Err::<
            Array,
            Error,
        >(Error::LengthMismatch),
        supported(array.ty()) && array.spec_len() == mask@.len() ==> (r matches Ok(out)
            && out.ty() == array.ty() && filtered(*array, mask@, out)),
{
    if let Array::List(_) = array {
        return Err(Error::UnsupportedType(LogicalType::List));
    }
    if array.len() != mask.len() {
        return Err(Error::LengthMismatch);
    }
    match array {
        Array::UInt8(a) => Ok(Array::UInt8(filter_primitive(a, mask))),
        Array::UInt16(a) => Ok(Array::UInt16(filter_primitive(a, mask))),
        Array::UInt32(a) => Ok(Array::UInt32(filter_primitive(a, mask))),
        Array::UInt64(a) => Ok(Array::UInt64(filter_primitive(a, mask))),
        Array::Int8(a) => Ok(Array::Int8(filter_primitive(a, mask))),
        Array::Int16(a) => Ok(Array::Int16(filter_primitive(a, mask))),
        Array::Int32(a) => Ok(Array::Int32(filter_primitive(a, mask))),
        Array::Int64(a) => Ok(Array::Int64(filter_primitive(a, mask))),
        Array::Float32(a) => Ok(Array::Float32(filter_primitive(a, mask))),
        Array::Float64(a) => Ok(Array::Float64(filter_primitive(a, mask))),
        Array::Boolean(a) => Ok(Array::Boolean(filter_primitive(a, mask))),
        Array::Binary(a) => Ok(Array::Binary(filter_binary(a, mask))),
        Array::Utf8(a) => Ok(Array::Utf8(filter_string(a, mask))),
        Array::List(_) => Err(Error::UnsupportedType(LogicalType::List)),
    }
}

} // verus!
