//! A sample target inside a module.

use vstd::prelude::*;
use vstd::pervasive::unreached;

verus! {

/// The product of `a` and `b`, reduced modulo 2^64. With `crash_on_overflow`
/// the product has to fit, and comes back unreduced.
pub fn maybe_checked_mul(a: u64, b: u64, crash_on_overflow: bool) -> (product: u64)
    requires
        crash_on_overflow ==> a * b <= u64::MAX,
    ensures
        product == (a * b) % 0x1_0000_0000_0000_0000,
{
    if crash_on_overflow {
        match a.checked_mul(b) {
            Some(product) => product,
            None => unreached(),
        }
    } else {
        assert((a as nat * b as nat) == a * b) by (nonlinear_arith);
        a.wrapping_mul(b)
    }
}

} // verus!
