//! Compass bucketing of a wave direction.

use vstd::prelude::*;
use vstd::arithmetic::div_mod::lemma_fundamental_div_mod;
use vstd::arithmetic::div_mod::lemma_fundamental_div_mod_converse;
use vstd::string::StringExecFns;

verus! {

/// The 8-point compass bucket of a degree value: 45-degree-wide bins
/// offset by 22.5 degrees, so that 0 plus or minus 22.5 is north.
pub open spec fn cardinal_index(degrees: int) -> int {
    ((2 * degrees + 45) / 90) % 8
}

/// The compass name of a bucket.
pub open spec fn cardinal_name(i: int) -> Seq<char> {
    if i == 0 {
        "N"@
    } else if i == 1 {
        "NE"@
    } else if i == 2 {
        "E"@
    } else if i == 3 {
        "SE"@
    } else if i == 4 {
        "S"@
    } else if i == 5 {
        "SW"@
    } else if i == 6 {
        "W"@
    } else {
        "NW"@
    }
}

/// Maps degrees to its 8-point cardinal direction.
pub fn convert_degrees_to_cardinal(degrees: i32) -> (r: String)
    ensures
        r@ == cardinal_name(cardinal_index(degrees as int)),
{
    let t: i64 = 2 * (degrees as i64) + 45;
    let idx: u64 = if t >= 0 {
        ((t as u64) / 90) % 8
    } else {
        let n: u64 = (-t) as u64;
        let k: u64 = (n + 89) / 90;
        let m: u64 = k % 8;
        proof {
            lemma_fundamental_div_mod(n as int + 89, 90);
            let rr = (n as int + 89) % 90;
            assert(t as int == (-(k as int)) * 90 + (89 - rr)) by {
                assert(n as int + 89 == 90 * (k as int) + rr);
            }
            lemma_fundamental_div_mod_converse(t as int, 90, -(k as int), 89 - rr);
            lemma_fundamental_div_mod(k as int, 8);
            let j = (k as int) / 8;
            if m == 0 {
                lemma_fundamental_div_mod_converse(-(k as int), 8, -j, 0);
            } else {
                assert(-(k as int) == (-j - 1) * 8 + (8 - m as int)) by {
                    assert(k as int == 8 * j + m as int);
                }
                lemma_fundamental_div_mod_converse(-(k as int), 8, -j - 1, 8 - m as int);
            }
        }
        if m == 0 {
            0
        } else {
            8 - m
        }
    };
    match idx {
        0 => String::from_str("N"),
        1 => String::from_str("NE"),
        2 => String::from_str("E"),
        3 => String::from_str("SE"),
        4 => String::from_str("S"),
        5 => String::from_str("SW"),
        6 => String::from_str("W"),
        _ => String::from_str("NW"),
    }
}

} // verus!
