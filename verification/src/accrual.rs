//! The accrual calculator: a pure function from a stream's timing
//! parameters and the current time to the amount the recipient has earned.

use vstd::arithmetic::mul::lemma_mul_inequality;
use vstd::arithmetic::mul::lemma_mul_nonnegative;
use vstd::prelude::*;

verus! {

/// Mathematical definition of accrual.
///
/// Before the cliff nothing is visible.  From the cliff on, the amount is
/// `elapsed * rate` capped at the deposit, where `elapsed` counts from
/// `start_time` (the cliff gates visibility, not the time basis) and is zero
/// when `now` precedes the start.  The end of the stream needs no case of
/// its own: the cap at the deposit bounds the result for all later times.
pub open spec fn spec_accrued(
    start_time: u64,
    cliff_time: u64,
    rate_per_second: i128,
    deposit_amount: i128,
    now: u64,
) -> int {
    if now < cliff_time {
        0
    } else {
        let elapsed: int = if now < start_time {
            0
        } else {
            now - start_time
        };
        let raw = elapsed * rate_per_second;
        if raw <= deposit_amount {
            raw
        } else {
            deposit_amount as int
        }
    }
}

/// Compute the accrued amount at `now`.
///
/// The multiplication is overflow-checked; an overflow means the raw amount
/// exceeds every representable deposit, so the result is capped at the
/// deposit rather than failing.  The subtraction cannot underflow: elapsed
/// time is zero whenever `now` precedes the start.
pub fn calculate_accrued_amount(
    start_time: u64,
    cliff_time: u64,
    end_time: u64,
    rate_per_second: i128,
    deposit_amount: i128,
    now: u64,
) -> (r: i128)
    requires
        rate_per_second > 0,
        deposit_amount > 0,
    ensures
        r == spec_accrued(start_time, cliff_time, rate_per_second, deposit_amount, now),
        0 <= r <= deposit_amount,
{
    if now < cliff_time {
        return 0;
    }
    let elapsed: u64 = if now < start_time {
        0
    } else {
        now - start_time
    };
    proof {
        lemma_mul_nonnegative(elapsed as int, rate_per_second as int);
    }
    match (elapsed as i128).checked_mul(rate_per_second) {
        Some(raw) => {
            if raw <= deposit_amount {
                raw
            } else {
                deposit_amount
            }
        },
        None => deposit_amount,
    }
}

/// Accrual never goes below zero nor above the deposit, for every valid
/// rate and deposit and every query time.
pub proof fn lemma_accrued_within_deposit(
    start_time: u64,
    cliff_time: u64,
    rate_per_second: i128,
    deposit_amount: i128,
    now: u64,
)
    requires
        rate_per_second > 0,
        deposit_amount >= 0,
    ensures
        0 <= spec_accrued(start_time, cliff_time, rate_per_second, deposit_amount, now)
            <= deposit_amount,
{
    if now >= cliff_time {
        let elapsed: int = if now < start_time {
            0
        } else {
            now - start_time
        };
        lemma_mul_nonnegative(elapsed, rate_per_second as int);
    }
}

/// Accrual never decreases as time advances.
pub proof fn lemma_accrued_monotone(
    start_time: u64,
    cliff_time: u64,
    rate_per_second: i128,
    deposit_amount: i128,
    t1: u64,
    t2: u64,
)
    requires
        rate_per_second > 0,
        deposit_amount >= 0,
        t1 <= t2,
    ensures
        spec_accrued(start_time, cliff_time, rate_per_second, deposit_amount, t1)
            <= spec_accrued(start_time, cliff_time, rate_per_second, deposit_amount, t2),
{
    lemma_accrued_within_deposit(start_time, cliff_time, rate_per_second, deposit_amount, t1);
    lemma_accrued_within_deposit(start_time, cliff_time, rate_per_second, deposit_amount, t2);
    if t1 >= cliff_time {
        let e1: int = if t1 < start_time {
            0
        } else {
            t1 - start_time
        };
        let e2: int = if t2 < start_time {
            0
        } else {
            t2 - start_time
        };
        lemma_mul_inequality(e1, e2, rate_per_second as int);
    }
}

} // verus!
