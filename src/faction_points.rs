//! Faction-point accrual and the withdrawal-reset rule.
//!
//! `fp = balance × amount_multiplier(balance) × time_multiplier(age)`, in
//! fixed point at `SCALAR_7`, rounding down after each product:
//! - `amount_multiplier(b) = 1 + b / (b + AMOUNT_SCALAR)`: grows with the
//!   balance but stays below 2, so large balances gain less than linearly
//!   from it;
//! - `time_multiplier(t) = 1 + t / (t + TIME_SCALAR)`: non-decreasing in the
//!   time held and below 2 however long the hold.
use crate::errors::Error;
use crate::fixed_point::{fixed_div_floor, fixed_mul_floor, fits_i128, mul_div_floor, SCALAR_7};
use crate::types::{EpochPlayer, Player};
use vstd::arithmetic::div_mod::{
    lemma_div_denominator, lemma_div_is_ordered, lemma_div_multiples_vanish,
    lemma_multiply_divide_lt,
};
use vstd::arithmetic::mul::{lemma_mul_inequality, lemma_mul_strict_inequality};
use vstd::prelude::*;

verus! {

/// Balance at which the amount multiplier reaches 1.5: 1000 tokens.
pub const AMOUNT_SCALAR: i128 = 10_000_000_000;

/// Holding time at which the time multiplier reaches 1.5: 35 days, in seconds.
pub const TIME_SCALAR: u64 = 3_024_000;

/// One half at `SCALAR_7`: a balance at or below this share of the reference
/// counts as a large withdrawal.
pub const WITHDRAWAL_RESET_THRESHOLD: i128 = 5_000_000;

/// Largest balance for which every step of the point computation fits `i128`.
pub const MAX_FP_BALANCE: i128 = 1_000_000_000_000_000_000_000_000_000_000;

pub open spec fn spec_amount_multiplier(balance: int) -> int {
    SCALAR_7 + balance * SCALAR_7 / (balance + AMOUNT_SCALAR as int)
}

pub open spec fn spec_time_multiplier(age: int) -> int {
    SCALAR_7 + age * SCALAR_7 / (age + TIME_SCALAR as int)
}

/// Faction points of a balance held for `age` seconds; nothing for a balance
/// that is not positive.
pub open spec fn spec_faction_points(balance: int, age: int) -> int {
    if balance <= 0 {
        0
    } else {
        (balance * spec_amount_multiplier(balance) / SCALAR_7 as int) * spec_time_multiplier(age)
            / SCALAR_7 as int
    }
}

/// Whether `current` is at most half of a positive `reference` balance.
pub open spec fn spec_is_large_withdrawal(reference: int, current: int) -> bool {
    reference > 0 && 2 * current <= reference
}

/// `0 <= n * s / d < s` for `0 <= n < d`.
proof fn lemma_fraction_below_scale(n: int, d: int, s: int)
    requires
        0 <= n < d,
        s > 0,
    ensures
        0 <= n * s / d < s,
{
    lemma_mul_strict_inequality(n, d, s);
    assert(n * s < d * s) by (nonlinear_arith)
        requires
            n < d,
            s > 0,
    ;
    assert(0 <= n * s) by (nonlinear_arith)
        requires
            0 <= n,
            s > 0,
    ;
    lemma_multiply_divide_lt(n * s, d, s);
    lemma_div_is_ordered(0, n * s, d);
}

/// The amount multiplier of a balance, at `SCALAR_7`.
pub fn amount_multiplier(balance: i128) -> (r: Result<i128, Error>)
    requires
        balance >= 0,
    ensures
        r matches Ok(v) ==> v == spec_amount_multiplier(balance as int) && SCALAR_7 <= v < 2
            * SCALAR_7,
        r matches Err(e) ==> e == Error::OverflowError,
        balance <= MAX_FP_BALANCE ==> r is Ok,
{
    let denominator = match balance.checked_add(AMOUNT_SCALAR) {
        Some(d) => d,
        None => return Err(Error::OverflowError),
    };
    match fixed_div_floor(balance, denominator, SCALAR_7) {
        Some(fraction) => {
            proof {
                lemma_fraction_below_scale(balance as int, denominator as int, SCALAR_7 as int);
            }
            Ok(SCALAR_7 + fraction)
        },
        None => {
            proof {
                if balance <= MAX_FP_BALANCE {
                    assert(balance * SCALAR_7 <= MAX_FP_BALANCE * SCALAR_7) by (nonlinear_arith)
                        requires
                            0 <= balance <= MAX_FP_BALANCE,
                    ;
                }
            }
            Err(Error::OverflowError)
        },
    }
}

/// The time multiplier after `age` seconds, at `SCALAR_7`.
pub fn time_multiplier(age: u64) -> (r: i128)
    ensures
        r == spec_time_multiplier(age as int),
        SCALAR_7 <= r < 2 * SCALAR_7,
{
    let age_fp = age as i128;
    let denominator = age_fp + TIME_SCALAR as i128;
    proof {
        assert(age_fp * SCALAR_7 <= u64::MAX * SCALAR_7) by (nonlinear_arith)
            requires
                0 <= age_fp <= u64::MAX,
        ;
        lemma_fraction_below_scale(age_fp as int, denominator as int, SCALAR_7 as int);
    }
    match fixed_div_floor(age_fp, denominator, SCALAR_7) {
        Some(fraction) => SCALAR_7 + fraction,
        None => SCALAR_7,
    }
}

/// Faction points of `balance` held for `age` seconds. Every product is
/// checked: an overflow fails closed with `OverflowError`.
pub fn calculate_faction_points(balance: i128, age: u64) -> (r: Result<i128, Error>)
    ensures
        r matches Ok(v) ==> v == spec_faction_points(balance as int, age as int) && v >= 0,
        r matches Err(e) ==> e == Error::OverflowError,
        balance <= MAX_FP_BALANCE ==> r is Ok,
{
    if balance <= 0 {
        return Ok(0);
    }
    let am = match amount_multiplier(balance) {
        Ok(m) => m,
        Err(e) => return Err(e),
    };
    let tm = time_multiplier(age);
    proof {
        if balance <= MAX_FP_BALANCE {
            assert(balance * am <= MAX_FP_BALANCE * (2 * SCALAR_7)) by (nonlinear_arith)
                requires
                    0 < balance <= MAX_FP_BALANCE,
                    0 < am < 2 * SCALAR_7,
            ;
        }
        assert(balance * am >= 0) by (nonlinear_arith)
            requires
                0 < balance,
                0 < am,
        ;
    }
    let weighted = match fixed_mul_floor(balance, am, SCALAR_7) {
        Some(w) => w,
        None => return Err(Error::OverflowError),
    };
    proof {
        if balance <= MAX_FP_BALANCE {
            lemma_multiply_divide_lt(balance * am, SCALAR_7 as int, 2 * MAX_FP_BALANCE + 1);
            assert(weighted * tm <= (2 * MAX_FP_BALANCE) * (2 * SCALAR_7)) by (nonlinear_arith)
                requires
                    0 <= weighted <= 2 * MAX_FP_BALANCE,
                    0 < tm < 2 * SCALAR_7,
            ;
        }
        lemma_div_is_ordered(0, balance * am, SCALAR_7 as int);
        assert(weighted * tm >= 0) by (nonlinear_arith)
            requires
                0 <= weighted,
                0 < tm,
        ;
        lemma_div_is_ordered(0, weighted * tm, SCALAR_7 as int);
    }
    match fixed_mul_floor(weighted, tm, SCALAR_7) {
        Some(fp) => Ok(fp),
        None => Err(Error::OverflowError),
    }
}

/// Whether the vault balance `current` shows a large withdrawal against the
/// `reference` balance: at most half of it. The half is taken in fixed point,
/// which can overflow only for a reference far beyond `MAX_FP_BALANCE`.
pub fn is_large_withdrawal(reference: i128, current: i128) -> (r: Result<bool, Error>)
    ensures
        r matches Ok(b) ==> b == spec_is_large_withdrawal(reference as int, current as int),
        r matches Err(e) ==> e == Error::OverflowError,
        reference <= MAX_FP_BALANCE ==> r is Ok,
{
    if reference <= 0 {
        return Ok(false);
    }
    match fixed_mul_floor(reference, WITHDRAWAL_RESET_THRESHOLD, SCALAR_7) {
        Some(threshold) => {
            proof {
                lemma_div_denominator(
                    reference * WITHDRAWAL_RESET_THRESHOLD,
                    WITHDRAWAL_RESET_THRESHOLD as int,
                    2,
                );
                lemma_div_multiples_vanish(reference as int, WITHDRAWAL_RESET_THRESHOLD as int);
                assert(threshold == reference / 2);
            }
            Ok(current <= threshold)
        },
        None => {
            proof {
                if reference <= MAX_FP_BALANCE {
                    assert(reference * WITHDRAWAL_RESET_THRESHOLD <= MAX_FP_BALANCE
                        * WITHDRAWAL_RESET_THRESHOLD) by (nonlinear_arith)
                        requires
                            0 < reference <= MAX_FP_BALANCE,
                    ;
                }
            }
            Err(Error::OverflowError)
        },
    }
}

/// The time-multiplier anchor after evaluating `player` against `balance` at
/// `now`: reset to `now` on a large withdrawal, and set to `now` on the first
/// evaluation (an anchor of 0); otherwise kept.
pub open spec fn spec_refreshed_anchor(player: Player, balance: i128, now: u64) -> u64 {
    if spec_is_large_withdrawal(player.last_epoch_balance as int, balance as int)
        || player.time_multiplier_start == 0 {
        now
    } else {
        player.time_multiplier_start
    }
}

/// Seconds held since `anchor`; none when `now` is not past it.
pub open spec fn spec_age(anchor: u64, now: u64) -> int {
    if now > anchor {
        now - anchor
    } else {
        0
    }
}

/// The player record after its position was evaluated against `balance`.
pub open spec fn spec_evaluated_player(player: Player, balance: i128, now: u64) -> Player {
    Player {
        selected_faction: player.selected_faction,
        time_multiplier_start: spec_refreshed_anchor(player, balance, now),
        last_epoch_balance: balance,
    }
}

/// The epoch record a player gets on first touch of an epoch: faction locked
/// to the current selection, points computed from `balance`, nothing
/// contributed yet.
pub open spec fn spec_epoch_entry(player: Player, balance: i128, now: u64) -> EpochPlayer {
    EpochPlayer {
        epoch_faction: Some(player.selected_faction),
        epoch_balance_snapshot: balance,
        available_fp: spec_faction_points(
            balance as int,
            spec_age(spec_refreshed_anchor(player, balance, now), now),
        ) as i128,
        total_fp_contributed: 0,
    }
}

/// Evaluates a player on first touch of an epoch: applies the withdrawal-reset
/// check against the last recorded balance, records the new balance, and
/// builds the epoch record with the faction locked and the points computed.
pub fn materialize_epoch_player(player: Player, balance: i128, now: u64) -> (r: Result<
    (Player, EpochPlayer),
    Error,
>)
    ensures
        r matches Ok((p, ep)) ==> p == spec_evaluated_player(player, balance, now) && ep
            == spec_epoch_entry(player, balance, now) && ep.available_fp >= 0,
        r matches Err(e) ==> e == Error::OverflowError,
        player.last_epoch_balance <= MAX_FP_BALANCE && balance <= MAX_FP_BALANCE ==> r is Ok,
{
    let reset = match is_large_withdrawal(player.last_epoch_balance, balance) {
        Ok(b) => b,
        Err(e) => return Err(e),
    };
    let anchor = if reset || player.time_multiplier_start == 0 {
        now
    } else {
        player.time_multiplier_start
    };
    let age: u64 = if now > anchor {
        now - anchor
    } else {
        0
    };
    let fp = match calculate_faction_points(balance, age) {
        Ok(v) => v,
        Err(e) => return Err(e),
    };
    let evaluated = Player {
        selected_faction: player.selected_faction,
        time_multiplier_start: anchor,
        last_epoch_balance: balance,
    };
    let entry = EpochPlayer {
        epoch_faction: Some(player.selected_faction),
        epoch_balance_snapshot: balance,
        available_fp: fp,
        total_fp_contributed: 0,
    };
    Ok((evaluated, entry))
}

} // verus!
