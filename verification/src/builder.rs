//! Write-once accumulators that finalize into immutable arrays.
//!
//! A builder is owned by a single kernel invocation: it is created with
//! a capacity hint, grown slot-by-slot with `append_value` /
//! `append_null`, and consumed by `finish`, which hands the accumulated
//! slots over to a fresh array. The view of a builder is the sequence
//! of slots appended so far, in order.

use crate::array::{bytes_view, text_view, BinaryArray, PrimitiveArray, StringArray};
use vstd::prelude::*;

verus! {

/// Accumulator for a [`PrimitiveArray`].
pub struct PrimitiveBuilder<T> {
    data: Vec<Option<T>>,
}

impl<T> View for PrimitiveBuilder<T> {
    type V = Seq<Option<T>>;

    closed spec fn view(&self) -> Seq<Option<T>> {
        self.data@
    }
}

impl<T: Copy> PrimitiveBuilder<T> {
    /// A fresh, empty builder; `capacity` is a pre-sizing hint only and
    /// leaves no trace in the slots.
    pub fn with_capacity(capacity: usize) -> (b: Self)
        ensures
            b@ == Seq::<Option<T>>::empty(),
    {
        PrimitiveBuilder { data: Vec::with_capacity(capacity) }
    }

    /// Append one present value.
    pub fn append_value(&mut self, v: T)
        ensures
            final(self)@ == old(self)@.push(Some(v)),
    {
        self.data.push(Some(v));
    }

    /// Append one null slot.
    pub fn append_null(&mut self)
        ensures
            final(self)@ == old(self)@.push(None::<T>),
    {
        self.data.push(None);
    }

    /// Finalize into an immutable array holding exactly the appended slots.
    pub fn finish(self) -> (a: PrimitiveArray<T>)
        ensures
            a@ == self@,
    {
        PrimitiveArray::from_options(self.data)
    }
}

/// Accumulator for a [`StringArray`].
pub struct StringBuilder {
    data: Vec<Option<String>>,
}

impl View for StringBuilder {
    type V = Seq<Option<Seq<char>>>;

    closed spec fn view(&self) -> Seq<Option<Seq<char>>> {
        text_view(self.data@)
    }
}

impl StringBuilder {
    /// A fresh, empty builder; `capacity` is a pre-sizing hint only and
    /// leaves no trace in the slots.
    pub fn with_capacity(capacity: usize) -> (b: Self)
        ensures
            b@ == Seq::<Option<Seq<char>>>::empty(),
    {
        let data: Vec<Option<String>> = Vec::with_capacity(capacity);
        proof {
            assert(text_view(data@) =~= Seq::<Option<Seq<char>>>::empty());
        }
        StringBuilder { data }
    }

    /// Append one present text value, copied out of the borrowed slice.
    pub fn append_value(&mut self, v: &str)
        ensures
            final(self)@ == old(self)@.push(Some(v@)),
    {
        self.data.push(Some(v.to_owned()));
        proof {
            assert(text_view(self.data@) =~= text_view(old(self).data@).push(Some(v@)));
        }
    }

    /// Append one null slot.
    pub fn append_null(&mut self)
        ensures
            final(self)@ == old(self)@.push(None::<Seq<char>>),
    {
        self.data.push(None);
        proof {
            assert(text_view(self.data@) =~= text_view(old(self).data@).push(None::<Seq<char>>));
        }
    }

    /// Finalize into an immutable array holding exactly the appended slots.
    pub fn finish(self) -> (a: StringArray)
        ensures
            a@ == self@,
    {
        StringArray::from_options(self.data)
    }
}

/// Accumulator for a [`BinaryArray`].
pub struct BinaryBuilder {
    data: Vec<Option<Vec<u8>>>,
}

impl View for BinaryBuilder {
    type V = Seq<Option<Seq<u8>>>;

    closed spec fn view(&self) -> Seq<Option<Seq<u8>>> {
        bytes_view(self.data@)
    }
}

impl BinaryBuilder {
    /// A fresh, empty builder; `capacity` is a pre-sizing hint only and
    /// leaves no trace in the slots.
    pub fn with_capacity(capacity: usize) -> (b: Self)
        ensures
            b@ == Seq::<Option<Seq<u8>>>::empty(),
    {
        let data: Vec<Option<Vec<u8>>> = Vec::with_capacity(capacity);
        proof {
            assert(bytes_view(data@) =~= Seq::<Option<Seq<u8>>>::empty());
        }
        BinaryBuilder { data }
    }

    /// Append one present binary value, copied out of the borrowed vector.
    pub fn append_value(&mut self, v: &Vec<u8>)
        ensures
            final(self)@ == old(self)@.push(Some(v@)),
    {
        let copy = v.clone();
        proof {
            assert(copy@ =~= v@);
        }
        self.data.push(Some(copy));
        proof {
            assert(bytes_view(self.data@) =~= bytes_view(old(self).data@).push(Some(v@)));
        }
    }

    /// Append one null slot.
    pub fn append_null(&mut self)
        ensures
            final(self)@ == old(self)@.push(None::<Seq<u8>>),
    {
        self.data.push(None);
        proof {
            assert(bytes_view(self.data@) =~= bytes_view(old(self).data@).push(None::<Seq<u8>>));
        }
    }

    /// Finalize into an immutable array holding exactly the appended slots.
    pub fn finish(self) -> (a: BinaryArray)
        ensures
            a@ == self@,
    {
        BinaryArray::from_options(self.data)
    }
}

} // verus!
