//! Single-precision floats as IEEE-754 bit patterns: what can be told of a value
//! without doing arithmetic on it.

use vstd::prelude::*;

verus! {

/// The bit pattern without its sign bit.
pub open spec fn magnitude(bits: u32) -> int {
    bits as int % 0x8000_0000
}

/// Neither an infinity nor a NaN.
pub open spec fn finite(bits: u32) -> bool {
    magnitude(bits) < 0x7f80_0000
}

pub open spec fn not_a_number(bits: u32) -> bool {
    magnitude(bits) > 0x7f80_0000
}

/// Finite and greater than zero.
pub open spec fn finite_positive(bits: u32) -> bool {
    0 < bits < 0x7f80_0000
}

/// A number that orders as the value does, with equal numbers for both zeros.
/// It says nothing of a NaN.
pub open spec fn value_rank(bits: u32) -> int {
    if bits < 0x8000_0000 {
        bits as int
    } else {
        -magnitude(bits)
    }
}

/// A number that orders as the IEEE-754 total order does: from negative NaNs over
/// negative values, the two zeros and positive values to positive NaNs.
pub open spec fn total_rank(bits: u32) -> int {
    if bits < 0x8000_0000 {
        bits as int
    } else {
        -magnitude(bits) - 1
    }
}

pub fn is_finite(bits: u32) -> (yes: bool)
    ensures
        yes == finite(bits),
{
    bits % 0x8000_0000 < 0x7f80_0000
}

pub fn is_finite_positive(bits: u32) -> (yes: bool)
    ensures
        yes == finite_positive(bits),
{
    0 < bits && bits < 0x7f80_0000
}

pub fn is_not_a_number(bits: u32) -> (yes: bool)
    ensures
        yes == not_a_number(bits),
{
    bits % 0x8000_0000 > 0x7f80_0000
}

/// The place of `bits` in the order of values.
pub fn value_order(bits: u32) -> (rank: i64)
    ensures
        rank == value_rank(bits),
{
    if bits < 0x8000_0000 {
        bits as i64
    } else {
        -((bits % 0x8000_0000) as i64)
    }
}

/// The place of `bits` in the total order.
pub fn total_order(bits: u32) -> (rank: i64)
    ensures
        rank == total_rank(bits),
{
    if bits < 0x8000_0000 {
        bits as i64
    } else {
        -((bits % 0x8000_0000) as i64) - 1
    }
}

/// The first place at or behind `from` that holds an infinity or a NaN.
pub open spec fn first_nonfinite(data: Seq<u32>, from: int) -> Option<int>
    decreases data.len() - from,
{
    if from < 0 || from >= data.len() {
        None
    } else if !finite(data[from]) {
        Some(from)
    } else {
        first_nonfinite(data, from + 1)
    }
}

/// Looks for an infinity or a NaN.
pub fn find_nonfinite(data: &[u32]) -> (place: Option<usize>)
    ensures
        match place {
            Some(index) => first_nonfinite(data@, 0) == Some(index as int),
            None => first_nonfinite(data@, 0) is None,
        },
{
    let mut i: usize = 0;
    while i < data.len()
        invariant
            i <= data@.len(),
            first_nonfinite(data@, 0) == first_nonfinite(data@, i as int),
        decreases data@.len() - i,
    {
        if !is_finite(data[i]) {
            return Some(i);
        }
        i += 1;
    }
    None
}

/// The total order separates any two bit patterns, and refines the order of
/// values where neither is a NaN.
pub proof fn law_total_order_refines_values(a: u32, b: u32)
    ensures
        total_rank(a) == total_rank(b) <==> a == b,
        value_rank(a) < value_rank(b) ==> total_rank(a) < total_rank(b),
{
}

/// A search for the first non-finite value finds one exactly if there is one, and
/// nothing before it is one.
pub proof fn law_first_nonfinite(data: Seq<u32>, from: int)
    requires
        0 <= from,
    ensures
        match first_nonfinite(data, from) {
            Some(place) => {
                &&& from <= place < data.len()
                &&& !finite(data[place])
                &&& forall|k: int| from <= k < place ==> finite(#[trigger] data[k])
            },
            None => forall|k: int| from <= k < data.len() ==> finite(#[trigger] data[k]),
        },
    decreases data.len() - from,
{
    if from < data.len() && finite(data[from]) {
        law_first_nonfinite(data, from + 1);
    }
}

/// How bits order as values: without the sign bit the larger bits are the larger value,
/// with it the smaller one; a value without it is never below one with it; the two zeros
/// are equal, and no two other values are. Adding the sign bit turns the order round.
pub proof fn law_value_rank_orders_as_the_values_do(a: u32, b: u32)
    ensures
        a < 0x8000_0000 && b < 0x8000_0000 ==> (value_rank(a) < value_rank(b) <==> a < b),
        a >= 0x8000_0000 && b >= 0x8000_0000 ==> (value_rank(a) < value_rank(b) <==> a > b),
        a < 0x8000_0000 <= b ==> value_rank(a) >= value_rank(b),
        value_rank(a) == value_rank(b) <==> a == b || (a == 0 && b == 0x8000_0000) || (a
            == 0x8000_0000 && b == 0),
        a < 0x8000_0000 ==> value_rank((a + 0x8000_0000) as u32) == -value_rank(a),
{
}

/// Every value is finite, an infinity or a NaN, and only one of these: the infinities are
/// the two patterns whose exponent is full and whose fraction is empty.
pub proof fn law_a_pattern_is_finite_infinite_or_nan(bits: u32)
    ensures
        finite(bits) ==> !not_a_number(bits),
        !finite(bits) && !not_a_number(bits) <==> bits == 0x7f80_0000 || bits == 0xff80_0000,
        0x7f80_0000 < bits < 0x8000_0000 ==> not_a_number(bits),
        0xff80_0000 < bits ==> not_a_number(bits),
        finite_positive(bits) <==> finite(bits) && value_rank(bits) > 0,
{
}

/// The total order tells any two patterns apart: every negative one comes before every other
/// one, of two that are not negative the larger pattern comes later, and of two negative
/// ones it comes earlier.
pub proof fn law_total_rank_orders_every_pattern(a: u32, b: u32)
    ensures
        total_rank(a) == total_rank(b) <==> a == b,
        a >= 0x8000_0000 && b < 0x8000_0000 ==> total_rank(a) < total_rank(b),
        a < 0x8000_0000 && b < 0x8000_0000 ==> (total_rank(a) < total_rank(b) <==> a < b),
        a >= 0x8000_0000 && b >= 0x8000_0000 ==> (total_rank(a) < total_rank(b) <==> a > b),
{
}

} // verus!
