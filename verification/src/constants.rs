//! Binary size units and the scaling of a byte count to the largest unit
//! that keeps the value at or above one.

use vstd::prelude::*;

verus! {

/// Index of the largest unit there is a name for.
pub const LARGEST_UNIT: usize = 8;

/// `1024` to the power `unit`.
pub open spec fn unit_bytes(unit: nat) -> nat
    decreases unit,
{
    if unit == 0 {
        1
    } else {
        1024 * unit_bytes((unit - 1) as nat)
    }
}

/// The unit a byte count is reported in: the largest one, among those with
/// a name, that the count reaches. A count below 1024 stays in bytes.
pub open spec fn unit_index(size: nat) -> nat {
    unit_index_from(size, 0)
}

/// The largest unit at or above `unit` that `size` reaches, given that it
/// reaches `unit`.
pub open spec fn unit_index_from(size: nat, unit: nat) -> nat
    decreases LARGEST_UNIT - unit,
{
    if unit < LARGEST_UNIT && size >= unit_bytes(unit + 1) {
        unit_index_from(size, unit + 1)
    } else {
        unit
    }
}

/// The quotient `num / den` rounded to the nearest integer, a tie going to
/// the even neighbour.
pub open spec fn round_half_even(num: nat, den: nat) -> nat
    recommends
        den > 0,
{
    let q = num / den;
    let r = num % den;
    if 2 * r < den {
        q
    } else if 2 * r > den {
        q + 1
    } else if q % 2 == 0 {
        q
    } else {
        q + 1
    }
}

/// A byte count expressed in its unit, in hundredths of that unit.
pub open spec fn scaled_hundredths(size: nat) -> nat {
    round_half_even(size * 100, unit_bytes(unit_index(size)))
}

/// The name of a unit.
pub open spec fn unit_label(unit: nat) -> Seq<char> {
    if unit == 0 {
        "Bytes"@
    } else if unit == 1 {
        "KB"@
    } else if unit == 2 {
        "MB"@
    } else if unit == 3 {
        "GB"@
    } else if unit == 4 {
        "TB"@
    } else if unit == 5 {
        "PB"@
    } else if unit == 6 {
        "EB"@
    } else if unit == 7 {
        "ZB"@
    } else {
        "YB"@
    }
}

/// What `unit_index` picks: no unit beyond the largest, a unit that the
/// size reaches, and the next one out of reach unless there is none.
pub proof fn lemma_unit_index_bounds(size: nat)
    ensures
        unit_index(size) <= LARGEST_UNIT,
        unit_index(size) == 0 <==> size < 1024,
        unit_index(size) > 0 ==> unit_bytes(unit_index(size)) <= size,
        unit_index(size) < LARGEST_UNIT ==> size < unit_bytes(unit_index(size) + 1),
        size >= unit_bytes(LARGEST_UNIT as nat) ==> unit_index(size) == LARGEST_UNIT,
{
    reveal_with_fuel(unit_bytes, 2);
    lemma_unit_index_from(size, 0);
    if size >= unit_bytes(LARGEST_UNIT as nat) && unit_index(size) < LARGEST_UNIT {
        lemma_unit_bytes_grows(unit_index(size) + 1, LARGEST_UNIT as nat);
    }
    if unit_index(size) > 0 {
    }
}

/// What the search for the unit from `unit` on picks.
proof fn lemma_unit_index_from(size: nat, unit: nat)
    requires
        unit <= LARGEST_UNIT,
    ensures
        unit <= unit_index_from(size, unit) <= LARGEST_UNIT,
        unit_index_from(size, unit) > unit ==> unit_bytes(unit_index_from(size, unit)) <= size,
        unit_index_from(size, unit) < LARGEST_UNIT ==> size < unit_bytes(
            unit_index_from(size, unit) + 1,
        ),
    decreases LARGEST_UNIT - unit,
{
    if unit < LARGEST_UNIT && size >= unit_bytes(unit + 1) {
        lemma_unit_index_from(size, unit + 1);
    }
}

/// A larger unit holds at least as many bytes.
pub proof fn lemma_unit_bytes_grows(low: nat, high: nat)
    requires
        low <= high,
    ensures
        0 < unit_bytes(low) <= unit_bytes(high),
    decreases high,
{
    if high == 0 {
    } else if low == high {
        lemma_unit_bytes_grows(0, (high - 1) as nat);
    } else {
        lemma_unit_bytes_grows(low, (high - 1) as nat);
    }
}

/// The name of the unit with index `unit`.
pub fn unit_name(unit: usize) -> (name: &'static str)
    requires
        unit <= LARGEST_UNIT,
    ensures
        name@ == unit_label(unit as nat),
{
    if unit == 0 {
        "Bytes"
    } else if unit == 1 {
        "KB"
    } else if unit == 2 {
        "MB"
    } else if unit == 3 {
        "GB"
    } else if unit == 4 {
        "TB"
    } else if unit == 5 {
        "PB"
    } else if unit == 6 {
        "EB"
    } else if unit == 7 {
        "ZB"
    } else {
        "YB"
    }
}

/// Scales a byte count to its unit. Returns the value in hundredths of that
/// unit, rounded to the nearest hundredth with ties to even, and the index
/// of the unit.
pub fn format_size(size: u64) -> (scaled: (u64, usize))
    ensures
        scaled.1 == unit_index(size as nat),
        scaled.0 == scaled_hundredths(size as nat),
        scaled.1 <= LARGEST_UNIT,
        scaled.0 <= 102400,
{
    let mut unit: usize = 0;
    let mut den: u128 = 1;
    while unit < LARGEST_UNIT && size as u128 >= den * 1024
        invariant
            unit <= LARGEST_UNIT,
            den == unit_bytes(unit as nat),
            den > 0,
            unit > 0 ==> den <= size,
            den <= 0x1_0000_0000_0000_0000,
            unit_index_from(size as nat, unit as nat) == unit_index(size as nat),
        decreases LARGEST_UNIT - unit,
    {
        den = den * 1024;
        unit = unit + 1;
    }
    let num: u128 = size as u128 * 100;
    let q: u128 = num / den;
    let r: u128 = num % den;
    proof {
        assert(num < 102400 * den) by {
            if unit == LARGEST_UNIT {
                reveal_with_fuel(unit_bytes, 9);
            }
        }
        assert(q < 102400) by (nonlinear_arith)
            requires
                q == num / den,
                num < 102400 * den,
                den > 0,
        ;
    }
    let rounded: u128 = if 2 * r < den {
        q
    } else if 2 * r > den {
        q + 1
    } else if q % 2 == 0 {
        q
    } else {
        q + 1
    };
    (rounded as u64, unit)
}

} // verus!
