//! Conversions from raw counters to the units the panels display.
//!
//! Byte counts become hundredths of a gibibyte or mebibyte, byte counters
//! become hundredths of a kilobit, and core loads are averaged — all in
//! exact integer arithmetic, rounding to the nearest displayed unit with
//! halves rounding up.

use vstd::prelude::*;
use vstd::arithmetic::div_mod::lemma_fundamental_div_mod;
use vstd::arithmetic::div_mod::lemma_mod_bound;

verus! {

/// `bytes` in hundredths of a gibibyte, rounded to nearest (halves up).
pub open spec fn gib_centi_spec(bytes: int) -> int {
    (100 * bytes + 536_870_912) / 1_073_741_824
}

/// `bytes` in hundredths of a gibibyte, rounded to nearest (halves up).
pub fn gib_centi(bytes: u64) -> (r: u64)
    ensures
        r == gib_centi_spec(bytes as int),
{
    let wide: u128 = (bytes as u128) * 100 + 536_870_912;
    proof {
        lemma_fundamental_div_mod(wide as int, 1_073_741_824);
        lemma_mod_bound(wide as int, 1_073_741_824);
    }
    (wide / 1_073_741_824) as u64
}

/// `bytes` in hundredths of a mebibyte, rounded to nearest (halves up).
pub open spec fn mib_centi_spec(bytes: int) -> int {
    (100 * bytes + 524_288) / 1_048_576
}

/// `bytes` in hundredths of a mebibyte, rounded to nearest (halves up).
pub fn mib_centi(bytes: u64) -> (r: u64)
    ensures
        r == mib_centi_spec(bytes as int),
{
    let wide: u128 = (bytes as u128) * 100 + 524_288;
    proof {
        lemma_fundamental_div_mod(wide as int, 1_048_576);
        lemma_mod_bound(wide as int, 1_048_576);
    }
    (wide / 1_048_576) as u64
}

/// `bytes` as a count of bits in hundredths of a kilobit: the exact value
/// of bytes × 8 / 1000 in hundredths is bytes × 4 / 5, rounded to nearest
/// (no halves exist: the remainder is never exactly half).
pub open spec fn kbit_centi_spec(bytes: int) -> int {
    (4 * bytes + 2) / 5
}

/// `bytes` as hundredths of a kilobit (see `kbit_centi_spec`).
pub fn kbit_centi(bytes: u64) -> (r: u64)
    ensures
        r == kbit_centi_spec(bytes as int),
{
    let wide: u128 = (bytes as u128) * 4 + 2;
    proof {
        lemma_fundamental_div_mod(wide as int, 5);
        lemma_mod_bound(wide as int, 5);
    }
    (wide / 5) as u64
}

/// The average of a sum of `n` values, rounded to nearest (halves up).
pub open spec fn avg_round_spec(sum: int, n: int) -> int
    recommends
        n >= 1,
{
    (2 * sum + n) / (2 * n)
}

/// The average of a sum of `n` core loads, each at most 10000 hundredths
/// of a percent, rounded to nearest (halves up).
pub fn avg_round(sum: u128, n: u64) -> (r: u64)
    requires
        n >= 1,
        sum <= 10_000 * n,
    ensures
        r == avg_round_spec(sum as int, n as int),
        r <= 10_000,
{
    let num: u128 = 2 * sum + (n as u128);
    let den: u128 = 2 * (n as u128);
    let q: u128 = num / den;
    proof {
        let nn = num as int;
        let dd = den as int;
        lemma_fundamental_div_mod(nn, dd);
        lemma_mod_bound(nn, dd);
        assert(nn / dd <= 10_000) by (nonlinear_arith)
            requires
                dd >= 2,
                nn <= dd * 10_000 + (dd - 1),
                nn == dd * (nn / dd) + nn % dd,
                0 <= nn % dd < dd,
        ;
    }
    q as u64
}

} // verus!
