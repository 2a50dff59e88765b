//! Oblivious select primitives.
//!
//! Every scoring circuit routes each secret-dependent choice through one of
//! these functions. Because Rust evaluates both arguments before the call,
//! every branch of a tier cascade is computed whatever the secret condition
//! is, and the body below picks the result by masked arithmetic rather than
//! by a data-dependent jump.
use vstd::prelude::*;

verus! {

/// Picks `a` when `cond` holds and `b` otherwise, by masked arithmetic.
pub fn select_u64(cond: bool, a: u64, b: u64) -> (r: u64)
    ensures
        r == if cond {
            a
        } else {
            b
        },
{
    let mask: u64 = cond as u64;
    let keep: u64 = 1 - mask;
    proof {
        if cond {
            assert(mask == 1 && keep == 0);
        } else {
            assert(mask == 0 && keep == 1);
        }
    }
    mask * a + keep * b
}

/// Picks `a` when `cond` holds and `b` otherwise, by masked arithmetic.
pub fn select_u32(cond: bool, a: u32, b: u32) -> (r: u32)
    ensures
        r == if cond {
            a
        } else {
            b
        },
{
    let mask: u32 = cond as u32;
    let keep: u32 = 1 - mask;
    proof {
        if cond {
            assert(mask == 1 && keep == 0);
        } else {
            assert(mask == 0 && keep == 1);
        }
    }
    mask * a + keep * b
}

/// Picks `a` when `cond` holds and `b` otherwise, by masked arithmetic.
pub fn select_u16(cond: bool, a: u16, b: u16) -> (r: u16)
    ensures
        r == if cond {
            a
        } else {
            b
        },
{
    let mask: u16 = cond as u16;
    let keep: u16 = 1 - mask;
    proof {
        if cond {
            assert(mask == 1 && keep == 0);
        } else {
            assert(mask == 0 && keep == 1);
        }
    }
    mask * a + keep * b
}

/// Picks `a` when `cond` holds and `b` otherwise, by masked arithmetic.
pub fn select_u8(cond: bool, a: u8, b: u8) -> (r: u8)
    ensures
        r == if cond {
            a
        } else {
            b
        },
{
    let mask: u8 = cond as u8;
    let keep: u8 = 1 - mask;
    proof {
        if cond {
            assert(mask == 1 && keep == 0);
        } else {
            assert(mask == 0 && keep == 1);
        }
    }
    mask * a + keep * b
}

/// Picks `a` when `cond` holds and `b` otherwise, without a branch on `cond`.
pub fn select_bool(cond: bool, a: bool, b: bool) -> (r: bool)
    ensures
        r == if cond {
            a
        } else {
            b
        },
{
    (cond && a) || (!cond && b)
}

} // verus!
