//! Fixed-point loads.
//!
//! A load is an unsigned integer that counts millionths: `1_000_000` is one
//! runnable task per core, `200_000` is the load `0.2`.

use vstd::prelude::*;
use vstd::string::*;
use crate::decimal::{append_decimal, decimal_digits, digit_char, digit_str};

verus! {

/// Number of fixed-point units in the load `1.0`.
pub const LOAD_SCALE: u64 = 1_000_000;

/// Number of fixed-point units in one hundredth of a load.
pub const LOAD_HUNDREDTH: u64 = 10_000;

/// The load per core: `raw` divided by the number of cores, where a machine
/// that reports no core counts as one core.
pub open spec fn normalized_load(raw: nat, cores: nat) -> nat {
    if cores == 0 {
        raw
    } else {
        raw / cores
    }
}

/// Divides the raw load average by the core count.
pub fn normalize_load(raw: u64, cores: usize) -> (load: u64)
    ensures
        load == normalized_load(raw as nat, cores as nat),
        load <= raw,
{
    if cores == 0 {
        raw
    } else {
        let per_core = raw / (cores as u64);
        proof {
            vstd::arithmetic::div_mod::lemma_div_is_ordered_by_denominator(
                raw as int,
                1,
                cores as int,
            );
        }
        per_core
    }
}

/// The distance between two loads.
pub open spec fn load_distance(a: nat, b: nat) -> nat {
    if a >= b {
        (a - b) as nat
    } else {
        (b - a) as nat
    }
}

/// Computes the distance between two loads.
pub fn load_delta(a: u64, b: u64) -> (d: u64)
    ensures
        d == load_distance(a as nat, b as nat),
{
    if a >= b {
        a - b
    } else {
        b - a
    }
}

/// A load in hundredths, rounded to the nearest hundredth (halves go up).
pub open spec fn load_hundredths(load: nat) -> nat {
    load / 10_000 + if load % 10_000 >= 5_000 {
        1nat
    } else {
        0nat
    }
}

/// The text of a load with two decimals, such as `0.80` or `12.05`.
pub open spec fn load_text(load: nat) -> Seq<char> {
    let h = load_hundredths(load);
    decimal_digits(h / 100).push('.').push(digit_char(h / 10 % 10)).push(digit_char(h % 10))
}

/// Appends the text of `load`, with two decimals, to `out`.
pub fn append_load(out: &mut String, load: u64)
    ensures
        final(out)@ == old(out)@ + load_text(load as nat),
{
    let up: u64 = if load % LOAD_HUNDREDTH >= 5_000 {
        1
    } else {
        0
    };
    let h: u64 = load / LOAD_HUNDREDTH + up;
    append_decimal(out, h / 100);
    out.append(".");
    out.append(digit_str((h / 10 % 10) as u8));
    out.append(digit_str((h % 10) as u8));
    proof {
        reveal_strlit(".");
        assert("."@ =~= seq!['.']);
        assert(out@ =~= old(out)@ + load_text(load as nat));
    }
}

/// Law: on a machine with at least one core the normalized load is the raw
/// load divided by the core count, it is never negative, and it never exceeds
/// the raw load.
pub proof fn lemma_normalized_load_is_quotient(raw: nat, cores: nat)
    requires
        cores >= 1,
    ensures
        normalized_load(raw, cores) == raw / cores,
        normalized_load(raw, cores) >= 0,
        normalized_load(raw, cores) <= raw,
        normalized_load(raw, cores) * cores <= raw < (normalized_load(raw, cores) + 1) * cores,
{
    vstd::arithmetic::div_mod::lemma_div_is_ordered_by_denominator(raw as int, 1, cores as int);
    vstd::arithmetic::div_mod::lemma_fundamental_div_mod(raw as int, cores as int);
    vstd::arithmetic::div_mod::lemma_mod_bound(raw as int, cores as int);
    let q = (raw / cores) as int;
    let c = cores as int;
    assert(c * q == q * c) by (nonlinear_arith);
    assert((q + 1) * c == q * c + c) by (nonlinear_arith);
}

} // verus!
