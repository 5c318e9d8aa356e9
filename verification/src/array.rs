//! Immutable, typed, nullable sequences and the untyped handle over them.
//!
//! Every concrete array is a flat vector of optional elements: `None`
//! stands for a null slot, `Some(v)` for a present value. The view of an
//! array is the mathematical sequence of those options, so a null slot
//! and its neighbours are modelled exactly, with no separate validity
//! bitmap to keep in step.

use vstd::prelude::*;

verus! {

/// A fixed-width column: each slot is either null or a value of `T`.
///
/// `Float32Array` and `Float64Array` are instances of this type that
/// store IEEE-754 bit patterns (`u32` / `u64`): the kernels only move
/// elements, so the bits are carried through untouched.
pub struct PrimitiveArray<T> {
    data: Vec<Option<T>>,
}

impl<T> View for PrimitiveArray<T> {
    type V = Seq<Option<T>>;

    closed spec fn view(&self) -> Seq<Option<T>> {
        self.data@
    }
}

impl<T: Copy> PrimitiveArray<T> {
    /// Build a column with no nulls, one slot per given value.
    pub fn from_values(values: Vec<T>) -> (a: Self)
        ensures
            a@.len() == values@.len(),
            forall|i: int| 0 <= i < values@.len() ==> a@[i] == Some(values@[i]),
    {
        let n = values.len();
        let mut data: Vec<Option<T>> = Vec::with_capacity(n);
        let mut i: usize = 0;
        while i < n
            invariant
                n == values@.len(),
                i <= n,
                data@.len() == i,
                forall|j: int| 0 <= j < i ==> data@[j] == Some(values@[j]),
            decreases n - i,
        {
            data.push(Some(values[i]));
            i = i + 1;
        }
        PrimitiveArray { data }
    }

    /// Build a column slot-by-slot: `None` makes a null, `Some(v)` a value.
    pub fn from_options(slots: Vec<Option<T>>) -> (a: Self)
        ensures
            a@ == slots@,
    {
        PrimitiveArray { data: slots }
    }

    /// Number of slots, null or not.
    pub fn len(&self) -> (n: usize)
        ensures
            n == self@.len(),
    {
        self.data.len()
    }

    /// Whether the slot at `i` is null.
    pub fn is_null(&self, i: usize) -> (r: bool)
        requires
            i < self@.len(),
        ensures
            r == (self@[i as int] is None),
    {
        self.data[i].is_none()
    }

    /// The value at `i`; defined only for a non-null slot.
    pub fn value(&self, i: usize) -> (v: T)
        requires
            i < self@.len(),
            self@[i as int] is Some,
        ensures
            self@[i as int] == Some(v),
    {
        self.data[i].unwrap()
    }
}

/// Unsigned 8-bit column.
pub type UInt8Array = PrimitiveArray<u8>;

/// Unsigned 16-bit column.
pub type UInt16Array = PrimitiveArray<u16>;

/// Unsigned 32-bit column.
pub type UInt32Array = PrimitiveArray<u32>;

/// Unsigned 64-bit column.
pub type UInt64Array = PrimitiveArray<u64>;

/// Signed 8-bit column.
pub type Int8Array = PrimitiveArray<i8>;

/// Signed 16-bit column.
pub type Int16Array = PrimitiveArray<i16>;

/// Signed 32-bit column.
pub type Int32Array = PrimitiveArray<i32>;

/// Signed 64-bit column.
pub type Int64Array = PrimitiveArray<i64>;

/// Boolean column; also the mask type that selects positions.
pub type BooleanArray = PrimitiveArray<bool>;

/// 32-bit floating point column, elements held as IEEE-754 bit patterns.
pub type Float32Array = PrimitiveArray<u32>;

/// 64-bit floating point column, elements held as IEEE-754 bit patterns.
pub type Float64Array = PrimitiveArray<u64>;

/// The sequence of character sequences held by a vector of optional
/// strings, null slots kept as `None`.
pub open spec fn text_view(slots: Seq<Option<String>>) -> Seq<Option<Seq<char>>> {
    Seq::new(
        slots.len(),
        |i: int|
            match slots[i] {
                Some(s) => Some(s@),
                None => None,
            },
    )
}

/// A variable-length UTF-8 text column.
pub struct StringArray {
    data: Vec<Option<String>>,
}

impl View for StringArray {
    type V = Seq<Option<Seq<char>>>;

    closed spec fn view(&self) -> Seq<Option<Seq<char>>> {
        text_view(self.data@)
    }
}

impl StringArray {
    /// Build a text column with no nulls, one slot per given string.
    pub fn from_values(values: Vec<String>) -> (a: Self)
        ensures
            a@.len() == values@.len(),
            forall|i: int| 0 <= i < values@.len() ==> a@[i] == Some(values@[i]@),
    {
        let n = values.len();
        let mut data: Vec<Option<String>> = Vec::with_capacity(n);
        let mut i: usize = 0;
        while i < n
            invariant
                n == values@.len(),
                i <= n,
                data@.len() == i,
                forall|j: int| 0 <= j < i ==> data@[j] == Some(values@[j]),
            decreases n - i,
        {
            data.push(Some(values[i].clone()));
            i = i + 1;
        }
        StringArray { data }
    }

    /// Build a text column slot-by-slot: `None` makes a null.
    pub fn from_options(slots: Vec<Option<String>>) -> (a: Self)
        ensures
            a@ == text_view(slots@),
    {
        StringArray { data: slots }
    }

    /// Number of slots, null or not.
    pub fn len(&self) -> (n: usize)
        ensures
            n == self@.len(),
    {
        self.data.len()
    }

    /// Whether the slot at `i` is null.
    pub fn is_null(&self, i: usize) -> (r: bool)
        requires
            i < self@.len(),
        ensures
            r == (self@[i as int] is None),
    {
        self.data[i].is_none()
    }

    /// The text at `i`; defined only for a non-null slot.
    pub fn value(&self, i: usize) -> (v: &str)
        requires
            i < self@.len(),
            self@[i as int] is Some,
        ensures
            self@[i as int] == Some(v@),
    {
        self.data[i].as_ref().unwrap().as_str()
    }
}

/// The sequence of byte sequences held by a vector of optional byte
/// vectors, null slots kept as `None`.
pub open spec fn bytes_view(slots: Seq<Option<Vec<u8>>>) -> Seq<Option<Seq<u8>>> {
    Seq::new(
        slots.len(),
        |i: int|
            match slots[i] {
                Some(b) => Some(b@),
                None => None,
            },
    )
}

/// A variable-length binary column.
pub struct BinaryArray {
    data: Vec<Option<Vec<u8>>>,
}

impl View for BinaryArray {
    type V = Seq<Option<Seq<u8>>>;

    closed spec fn view(&self) -> Seq<Option<Seq<u8>>> {
        bytes_view(self.data@)
    }
}

impl BinaryArray {
    /// Build a binary column with no nulls, one slot per given value.
    pub fn from_values(values: Vec<Vec<u8>>) -> (a: Self)
        ensures
            a@.len() == values@.len(),
            forall|i: int| 0 <= i < values@.len() ==> a@[i] == Some(values@[i]@),
    {
        let n = values.len();
        let mut data: Vec<Option<Vec<u8>>> = Vec::with_capacity(n);
        let mut i: usize = 0;
        while i < n
            invariant
                n == values@.len(),
                i <= n,
                data@.len() == i,
                forall|j: int| 0 <= j < i ==> data@[j] is Some && (data@[j]->0)@ == values@[j]@,
            decreases n - i,
        {
            let b = values[i].clone();
            proof {
                assert(b@ =~= values@[i as int]@);
            }
            data.push(Some(b));
            i = i + 1;
        }
        BinaryArray { data }
    }

    /// Build a binary column slot-by-slot: `None` makes a null.
    pub fn from_options(slots: Vec<Option<Vec<u8>>>) -> (a: Self)
        ensures
            a@ == bytes_view(slots@),
    {
        BinaryArray { data: slots }
    }

    /// Number of slots, null or not.
    pub fn len(&self) -> (n: usize)
        ensures
            n == self@.len(),
    {
        self.data.len()
    }

    /// Whether the slot at `i` is null.
    pub fn is_null(&self, i: usize) -> (r: bool)
        requires
            i < self@.len(),
        ensures
            r == (self@[i as int] is None),
    {
        self.data[i].is_none()
    }

    /// The bytes at `i`; defined only for a non-null slot.
    pub fn value(&self, i: usize) -> (v: &Vec<u8>)
        requires
            i < self@.len(),
            self@[i as int] is Some,
        ensures
            self@[i as int] == Some(v@),
    {
        self.data[i].as_ref().unwrap()
    }
}

/// The sequence of element sequences held by a vector of optional
/// list values, null slots kept as `None`.
pub open spec fn list_view(slots: Seq<Option<Vec<i64>>>) -> Seq<Option<Seq<i64>>> {
    Seq::new(
        slots.len(),
        |i: int|
            match slots[i] {
                Some(v) => Some(v@),
                None => None,
            },
    )
}

/// A nested column: each slot is a list of 64-bit integers, or null.
/// Lists stand outside the filter kernel's supported set and exist so
/// that dispatch over an unsupported logical type can be exercised.
pub struct ListArray {
    data: Vec<Option<Vec<i64>>>,
}

impl View for ListArray {
    type V = Seq<Option<Seq<i64>>>;

    closed spec fn view(&self) -> Seq<Option<Seq<i64>>> {
        list_view(self.data@)
    }
}

impl ListArray {
    /// Build a list column slot-by-slot: `None` makes a null.
    pub fn from_options(slots: Vec<Option<Vec<i64>>>) -> (a: Self)
        ensures
            a@ == list_view(slots@),
    {
        ListArray { data: slots }
    }

    /// Number of slots, null or not.
    pub fn len(&self) -> (n: usize)
        ensures
            n == self@.len(),
    {
        self.data.len()
    }
}

/// An untyped handle over every concrete column this crate models: the
/// closed set of physical representations the filter kernel dispatches
/// over, plus the nested [`ListArray`] it must refuse.
pub enum Array {
    /// Unsigned 8-bit integers.
    UInt8(UInt8Array),
    /// Unsigned 16-bit integers.
    UInt16(UInt16Array),
    /// Unsigned 32-bit integers.
    UInt32(UInt32Array),
    /// Unsigned 64-bit integers.
    UInt64(UInt64Array),
    /// Signed 8-bit integers.
    Int8(Int8Array),
    /// Signed 16-bit integers.
    Int16(Int16Array),
    /// Signed 32-bit integers.
    Int32(Int32Array),
    /// Signed 64-bit integers.
    Int64(Int64Array),
    /// 32-bit floating point values, held as IEEE-754 bit patterns.
    Float32(Float32Array),
    /// 64-bit floating point values, held as IEEE-754 bit patterns.
    Float64(Float64Array),
    /// Booleans.
    Boolean(BooleanArray),
    /// Variable-length binary values.
    Binary(BinaryArray),
    /// Variable-length UTF-8 text.
    Utf8(StringArray),
    /// Nested lists; outside the supported set.
    List(ListArray),
}

impl Array {
    /// The logical type this handle carries.
    pub open spec fn ty(&self) -> crate::LogicalType {
        match self {
            Array::UInt8(_) => crate::LogicalType::UInt8,
            Array::UInt16(_) => crate::LogicalType::UInt16,
            Array::UInt32(_) => crate::LogicalType::UInt32,
            Array::UInt64(_) => crate::LogicalType::UInt64,
            Array::Int8(_) => crate::LogicalType::Int8,
            Array::Int16(_) => crate::LogicalType::Int16,
            Array::Int32(_) => crate::LogicalType::Int32,
            Array::Int64(_) => crate::LogicalType::Int64,
            Array::Float32(_) => crate::LogicalType::Float32,
            Array::Float64(_) => crate::LogicalType::Float64,
            Array::Boolean(_) => crate::LogicalType::Boolean,
            Array::Binary(_) => crate::LogicalType::Binary,
            Array::Utf8(_) => crate::LogicalType::Utf8,
            Array::List(_) => crate::LogicalType::List,
        }
    }

    /// The number of slots of the underlying column.
    pub open spec fn spec_len(&self) -> nat {
        match self {
            Array::UInt8(a) => a@.len(),
            Array::UInt16(a) => a@.len(),
            Array::UInt32(a) => a@.len(),
            Array::UInt64(a) => a@.len(),
            Array::Int8(a) => a@.len(),
            Array::Int16(a) => a@.len(),
            Array::Int32(a) => a@.len(),
            Array::Int64(a) => a@.len(),
            Array::Float32(a) => a@.len(),
            Array::Float64(a) => a@.len(),
            Array::Boolean(a) => a@.len(),
            Array::Binary(a) => a@.len(),
            Array::Utf8(a) => a@.len(),
            Array::List(a) => a@.len(),
        }
    }

    /// Report the logical type of the underlying column.
    pub fn logical_type(&self) -> (t: crate::LogicalType)
        ensures
            t == self.ty(),
    {
        match self {
            Array::UInt8(_) => crate::LogicalType::UInt8,
            Array::UInt16(_) => crate::LogicalType::UInt16,
            Array::UInt32(_) => crate::LogicalType::UInt32,
            Array::UInt64(_) => crate::LogicalType::UInt64,
            Array::Int8(_) => crate::LogicalType::Int8,
            Array::Int16(_) => crate::LogicalType::Int16,
            Array::Int32(_) => crate::LogicalType::Int32,
            Array::Int64(_) => crate::LogicalType::Int64,
            Array::Float32(_) => crate::LogicalType::Float32,
            Array::Float64(_) => crate::LogicalType::Float64,
            Array::Boolean(_) => crate::LogicalType::Boolean,
            Array::Binary(_) => crate::LogicalType::Binary,
            Array::Utf8(_) => crate::LogicalType::Utf8,
            Array::List(_) => crate::LogicalType::List,
        }
    }

    /// Number of slots, null or not.
    pub fn len(&self) -> (n: usize)
        ensures
            n == self.spec_len(),
    {
        match self {
            Array::UInt8(a) => a.len(),
            Array::UInt16(a) => a.len(),
            Array::UInt32(a) => a.len(),
            Array::UInt64(a) => a.len(),
            Array::Int8(a) => a.len(),
            Array::Int16(a) => a.len(),
            Array::Int32(a) => a.len(),
            Array::Int64(a) => a.len(),
            Array::Float32(a) => a.len(),
            Array::Float64(a) => a.len(),
            Array::Boolean(a) => a.len(),
            Array::Binary(a) => a.len(),
            Array::Utf8(a) => a.len(),
            Array::List(a) => a.len(),
        }
    }

    /// Checked downcast to a signed 32-bit column: `None` whenever the
    /// handle carries any other logical type.
    pub fn as_int32(&self) -> (r: Option<&Int32Array>)
        ensures
            match r {
                Some(a) => *self is Int32 && *self == Array::Int32(*a),
                None => !(*self is Int32),
            },
    {
        match self {
            Array::Int32(a) => Some(a),
            _ => None,
        }
    }

    /// Checked downcast to a boolean column: `None` whenever the handle
    /// carries any other logical type.
    pub fn as_boolean(&self) -> (r: Option<&BooleanArray>)
        ensures
            match r {
                Some(a) => *self is Boolean && *self == Array::Boolean(*a),
                None => !(*self is Boolean),
            },
    {
        match self {
            Array::Boolean(a) => Some(a),
            _ => None,
        }
    }

    /// Checked downcast to a binary column: `None` whenever the handle
    /// carries any other logical type.
    pub fn as_binary(&self) -> (r: Option<&BinaryArray>)
        ensures
            match r {
                Some(a) => *self is Binary && *self == Array::Binary(*a),
                None => !(*self is Binary),
            },
    {
        match self {
            Array::Binary(a) => Some(a),
            _ => None,
        }
    }

    /// Checked downcast to a text column: `None` whenever the handle
    /// carries any other logical type.
    pub fn as_utf8(&self) -> (r: Option<&StringArray>)
        ensures
            match r {
                Some(a) => *self is Utf8 && *self == Array::Utf8(*a),
                None => !(*self is Utf8),
            },
    {
        match self {
            Array::Utf8(a) => Some(a),
            _ => None,
        }
    }
}

} // verus!
