//! Row-alignment arithmetic for device copies.
//!
//! Device copy APIs require each row of a linear buffer to start at a byte
//! offset that is a multiple of the device's row alignment, which can make
//! the buffer's row stride larger than the logical row size.

use vstd::prelude::*;

verus! {

/// The smallest multiple of `align` that is at least `value`.
pub open spec fn round_up_spec(value: int, align: int) -> int
    recommends
        align > 0,
{
    if value % align == 0 {
        value
    } else {
        value + (align - value % align)
    }
}

/// Rounds `value` up to the next multiple of `align`, or returns `None`
/// when the rounded value does not fit in `usize`.
pub fn round_up(value: usize, align: usize) -> (r: Option<usize>)
    requires
        align > 0,
    ensures
        r matches Some(v) ==> v == round_up_spec(value as int, align as int),
        r is None <==> round_up_spec(value as int, align as int) > usize::MAX,
{
    let rem: usize = value % align;
    if rem == 0 {
        Some(value)
    } else {
        let pad: usize = align - rem;
        if value <= usize::MAX - pad {
            Some(value + pad)
        } else {
            None
        }
    }
}

/// Rounding up never moves past the next multiple: the result is a multiple
/// of `align`, at least `value`, and less than `value + align`.
pub proof fn lemma_round_up_properties(value: int, align: int)
    requires
        align > 0,
        value >= 0,
    ensures
        round_up_spec(value, align) >= value,
        round_up_spec(value, align) % align == 0,
        round_up_spec(value, align) < value + align,
{
    let r = value % align;
    assert(0 <= r < align);
    if r != 0 {
        assert((value + (align - r)) % align == 0) by (nonlinear_arith)
            requires
                align > 0,
                r == value % align,
                r != 0,
        ;
    }
}

} // verus!
