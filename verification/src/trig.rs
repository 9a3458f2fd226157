//! Sine and cosine on the angle grid the tree actually uses.
//!
//! Every orbit angle in the dataset is a multiple of 2.5 degrees: the
//! sixteen- and forty-entry angle tables hold whole degrees that are
//! multiples of five, and the uniform layouts divide the circle into 1,
//! 6 or 72 steps. An angle is therefore stored as a count of 2.5-degree
//! units, 0 to 143 for a full turn with 0 pointing straight up, and the
//! sine of a unit angle is an exact table value in millionths, derived
//! from a single quarter wave by symmetry.

use vstd::prelude::*;

verus! {

/// Scale of the table values: sine of a right angle.
pub const SIN_SCALE: i64 = 1_000_000;

/// Sine of `k` 2.5-degree units, for the first quarter turn, in
/// millionths, rounded to nearest.
pub open spec fn spec_sin_quarter(k: int) -> int {
    if k <= 0 {
        0
    } else if k == 1 {
        43619
    } else if k == 2 {
        87156
    } else if k == 3 {
        130526
    } else if k == 4 {
        173648
    } else if k == 5 {
        216440
    } else if k == 6 {
        258819
    } else if k == 7 {
        300706
    } else if k == 8 {
        342020
    } else if k == 9 {
        382683
    } else if k == 10 {
        422618
    } else if k == 11 {
        461749
    } else if k == 12 {
        500000
    } else if k == 13 {
        537300
    } else if k == 14 {
        573576
    } else if k == 15 {
        608761
    } else if k == 16 {
        642788
    } else if k == 17 {
        675590
    } else if k == 18 {
        707107
    } else if k == 19 {
        737277
    } else if k == 20 {
        766044
    } else if k == 21 {
        793353
    } else if k == 22 {
        819152
    } else if k == 23 {
        843391
    } else if k == 24 {
        866025
    } else if k == 25 {
        887011
    } else if k == 26 {
        906308
    } else if k == 27 {
        923880
    } else if k == 28 {
        939693
    } else if k == 29 {
        953717
    } else if k == 30 {
        965926
    } else if k == 31 {
        976296
    } else if k == 32 {
        984808
    } else if k == 33 {
        991445
    } else if k == 34 {
        996195
    } else if k == 35 {
        999048
    } else {
        1000000
    }
}

/// Sine of `u` 2.5-degree units anywhere on the circle, in millionths,
/// folded onto the first quarter by the usual symmetries.
pub open spec fn spec_sin_units(u: int) -> int
    recommends
        0 <= u < 144,
{
    if u <= 36 {
        spec_sin_quarter(u)
    } else if u <= 72 {
        spec_sin_quarter(72 - u)
    } else if u <= 108 {
        -spec_sin_quarter(u - 72)
    } else {
        -spec_sin_quarter(144 - u)
    }
}

/// Cosine of `u` 2.5-degree units: the sine a quarter turn ahead.
pub open spec fn spec_cos_units(u: int) -> int
    recommends
        0 <= u < 144,
{
    spec_sin_units((u + 36) % 144)
}

/// Sine of `units` 2.5-degree units, in millionths.
pub fn sin_units(units: u32) -> (s: i64)
    requires
        units < 144,
    ensures
        s == spec_sin_units(units as int),
        -SIN_SCALE <= s <= SIN_SCALE,
{
    let folded: u32 = if units <= 36 {
        units
    } else if units <= 72 {
        72 - units
    } else if units <= 108 {
        units - 72
    } else {
        144 - units
    };
    let magnitude = sin_quarter(folded);
    if units > 72 {
        -magnitude
    } else {
        magnitude
    }
}

/// Cosine of `units` 2.5-degree units, in millionths.
pub fn cos_units(units: u32) -> (c: i64)
    requires
        units < 144,
    ensures
        c == spec_cos_units(units as int),
        -SIN_SCALE <= c <= SIN_SCALE,
{
    sin_units((units + 36) % 144)
}

/// Quarter-wave sine table: sine of `k` 2.5-degree units in millionths.
fn sin_quarter(k: u32) -> (s: i64)
    requires
        k <= 36,
    ensures
        s == spec_sin_quarter(k as int),
{
    match k {
        0 => 0,
        1 => 43619,
        2 => 87156,
        3 => 130526,
        4 => 173648,
        5 => 216440,
        6 => 258819,
        7 => 300706,
        8 => 342020,
        9 => 382683,
        10 => 422618,
        11 => 461749,
        12 => 500000,
        13 => 537300,
        14 => 573576,
        15 => 608761,
        16 => 642788,
        17 => 675590,
        18 => 707107,
        19 => 737277,
        20 => 766044,
        21 => 793353,
        22 => 819152,
        23 => 843391,
        24 => 866025,
        25 => 887011,
        26 => 906308,
        27 => 923880,
        28 => 939693,
        29 => 953717,
        30 => 965926,
        31 => 976296,
        32 => 984808,
        33 => 991445,
        34 => 996195,
        35 => 999048,
        _ => 1000000,
    }
}

} // verus!
