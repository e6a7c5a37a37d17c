//! Products of sizes.

use vstd::prelude::*;

verus! {

/// The product, or the largest size where that is smaller.
pub open spec fn saturating_product(a: usize, b: usize) -> usize {
    if a * b <= usize::MAX {
        (a * b) as usize
    } else {
        usize::MAX
    }
}

pub fn saturating_mul(a: usize, b: usize) -> (product: usize)
    ensures
        product == saturating_product(a, b),
{
    match a.checked_mul(b) {
        Some(product) => product,
        None => usize::MAX,
    }
}

/// Whether `len` is the product of two sizes; one that does not fit in a word is
/// no length.
pub fn is_product(len: usize, a: usize, b: usize) -> (equal: bool)
    ensures
        equal == (len == a * b),
{
    match a.checked_mul(b) {
        Some(product) => product == len,
        None => false,
    }
}

/// A product that fits in a word is itself, and any other is the largest word: it does not
/// matter which factor comes first, and a larger factor never makes less.
pub proof fn law_products_stop_at_the_largest_word(a: usize, b: usize, c: usize)
    ensures
        a * b <= usize::MAX ==> saturating_product(a, b) == a * b,
        a * b > usize::MAX ==> saturating_product(a, b) == usize::MAX,
        saturating_product(a, b) == saturating_product(b, a),
        a <= c ==> saturating_product(a, b) <= saturating_product(c, b),
        saturating_product(a, 1) == a,
        saturating_product(a, 0) == 0,
{
    assert(a * b == b * a && a * 1 == a && a * 0 == 0) by (nonlinear_arith);
    assert(a <= c ==> a * b <= c * b) by (nonlinear_arith);
    assert(a * b >= 0 && c * b >= 0) by (nonlinear_arith);
}

} // verus!
