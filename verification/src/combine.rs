//! The elementwise predicate combinator that builds selection masks.
//!
//! Two equal-length columns are paired position-by-position; at each
//! index the caller's predicate sees the two slots as optional values —
//! `None` for a null slot — and its boolean verdict becomes the mask
//! element. The predicate therefore owns null semantics entirely, and
//! the resulting mask carries a present boolean at every position.

use crate::array::{BooleanArray, PrimitiveArray};
use crate::builder::PrimitiveBuilder;
use crate::Error;
use vstd::prelude::*;

verus! {

/// Pair `left` and `right` elementwise under `op`, yielding a boolean
/// selection mask.
///
/// Operands of differing lengths are refused with
/// [`Error::LengthMismatch`] before any element is touched. Otherwise
/// the mask has the common length, every one of its slots is a present
/// boolean, and each slot is a verdict `op` can return for the pair of
/// optional elements at that index.
pub fn bool_op<T: Copy, F: Fn(Option<T>, Option<T>) -> bool>(
    left: &PrimitiveArray<T>,
    right: &PrimitiveArray<T>,
    op: F,
) -> (r: Result<BooleanArray, Error>)
    requires
        forall|x: Option<T>, y: Option<T>| #[trigger] op.requires((x, y)),
    ensures
        left@.len() != right@.len() ==> r == Err::<BooleanArray, Error>(Error::LengthMismatch),
        left@.len() == right@.len() ==> (r matches Ok(mask) && mask@.len() == left@.len()
            && forall|i: int|
            0 <= i < mask@.len() ==> ((#[trigger] mask@[i]) matches Some(v) && op.ensures(
                (left@[i], right@[i]),
                v,
            ))),
{
    if left.len() != right.len() {
        return Err(Error::LengthMismatch);
    }
    let n = left.len();
    let mut builder = PrimitiveBuilder::<bool>::with_capacity(n);
    let mut i: usize = 0;
    while i < n
        invariant
            forall|x: Option<T>, y: Option<T>| #[trigger] op.requires((x, y)),
            left@.len() == right@.len(),
            n == left@.len(),
            i <= n,
            builder@.len() == i,
            forall|j: int|
                0 <= j < i ==> ((#[trigger] builder@[j]) matches Some(v) && op.ensures(
                    (left@[j], right@[j]),
                    v,
                )),
        decreases n - i,
    {
        let l = if left.is_null(i) {
            None
        } else {
            Some(left.value(i))
        };
        let r = if right.is_null(i) {
            None
        } else {
            Some(right.value(i))
        };
        builder.append_value(op(l, r));
        i = i + 1;
    }
    Ok(builder.finish())
}

} // verus!
