use vstd::prelude::*;
use crate::errors::ErrorCode;
use crate::state::{Pool, User, BASIS_POINTS};

verus! {

/// The part of a pool that a position of `amount` holds, in basis points,
/// rounded down. In an empty pool every share is zero. The share is a plain
/// integer: where a position holds more than the pool's total it is above
/// 10000, and it may be wider than 64 bits.
pub open spec fn share_bp(amount: u64, total_staked: u64) -> int {
    if total_staked > 0 {
        (amount * BASIS_POINTS) / (total_staked as int)
    } else {
        0
    }
}

/// What the pool emits in `elapsed` seconds.
pub open spec fn emitted(reward_per_second: u64, elapsed: u64) -> int {
    reward_per_second * elapsed
}

/// The emission weighted by the position's share, still scaled by the basis
/// points of the share.
pub open spec fn weighted(reward_per_second: u64, elapsed: u64, amount: u64, total_staked: u64) -> int {
    emitted(reward_per_second, elapsed) * share_bp(amount, total_staked)
}

/// The weighted emission times the position's multiplier, scaled by the basis
/// points of the share and of the multiplier.
pub open spec fn boosted(
    reward_per_second: u64,
    elapsed: u64,
    amount: u64,
    total_staked: u64,
    bonus_multiplier: u16,
) -> int {
    weighted(reward_per_second, elapsed, amount, total_staked) * bonus_multiplier
}

/// Each of the three products of the reward computation fits in 64 bits.
/// The share enters at its full width, so a share wider than 64 bits is in
/// order wherever nothing is emitted.
pub open spec fn reward_fits(
    reward_per_second: u64,
    elapsed: u64,
    amount: u64,
    total_staked: u64,
    bonus_multiplier: u16,
) -> bool {
    &&& emitted(reward_per_second, elapsed) <= u64::MAX
    &&& weighted(reward_per_second, elapsed, amount, total_staked) <= u64::MAX
    &&& boosted(reward_per_second, elapsed, amount, total_staked, bonus_multiplier) <= u64::MAX
}

/// The reward that a position of `amount` with `bonus_multiplier` earns over
/// `elapsed` seconds in a pool that holds `total_staked`: the emission, times
/// the share, times the multiplier, with both scalings by 10000 taken out
/// again, each division rounding down. `None` where a product does not fit.
pub open spec fn reward(
    reward_per_second: u64,
    elapsed: u64,
    amount: u64,
    total_staked: u64,
    bonus_multiplier: u16,
) -> Option<u64> {
    if reward_fits(reward_per_second, elapsed, amount, total_staked, bonus_multiplier) {
        Some(
            (boosted(reward_per_second, elapsed, amount, total_staked, bonus_multiplier)
                / (BASIS_POINTS as int) / (BASIS_POINTS as int)) as u64,
        )
    } else {
        None
    }
}

/// The reward that `user` has earned in `pool` since it last settled, as of
/// `now`. `None` where `now` lies before that moment or a product does not
/// fit.
pub open spec fn pending_reward(pool: Pool, user: User, now: i64) -> Option<u64> {
    if now < user.last_reward_claim_timestamp {
        None
    } else {
        reward(
            pool.reward_per_second,
            (now - user.last_reward_claim_timestamp) as u64,
            user.amount,
            pool.total_staked,
            user.bonus_multiplier,
        )
    }
}

/// Where nothing is emitted, because the rate is zero or no time has passed,
/// a position earns nothing, whatever its share.
pub proof fn lemma_no_emission_no_reward(
    reward_per_second: u64,
    elapsed: u64,
    amount: u64,
    total_staked: u64,
    bonus_multiplier: u16,
)
    requires
        reward_per_second == 0 || elapsed == 0,
    ensures
        reward(reward_per_second, elapsed, amount, total_staked, bonus_multiplier) == Some(0u64),
{
    let share = share_bp(amount, total_staked);
    assert(reward_per_second * elapsed == 0) by (nonlinear_arith)
        requires
            reward_per_second == 0 || elapsed == 0,
    ;
    assert(0 * share == 0) by (nonlinear_arith);
    assert(0 * bonus_multiplier == 0) by (nonlinear_arith);
}

/// At the moment a position settled nothing is pending for it, in whatever
/// state the pool is.
pub proof fn lemma_nothing_pending_when_settled(pool: Pool, user: User, now: i64)
    requires
        now == user.last_reward_claim_timestamp,
    ensures
        pending_reward(pool, user, now) == Some(0u64),
{
    lemma_no_emission_no_reward(
        pool.reward_per_second,
        0,
        user.amount,
        pool.total_staked,
        user.bonus_multiplier,
    );
}

/// A position without a share earns nothing: its reward is zero wherever the
/// emission itself fits in 64 bits, and undefined elsewhere.
pub proof fn lemma_no_share_no_reward(
    reward_per_second: u64,
    elapsed: u64,
    amount: u64,
    total_staked: u64,
    bonus_multiplier: u16,
)
    requires
        share_bp(amount, total_staked) == 0,
    ensures
        reward(reward_per_second, elapsed, amount, total_staked, bonus_multiplier) == (if emitted(
            reward_per_second,
            elapsed,
        ) <= u64::MAX {
            Some(0u64)
        } else {
            None
        }),
{
    let e = emitted(reward_per_second, elapsed);
    assert(e * 0 == 0) by (nonlinear_arith);
    assert(0 * bonus_multiplier == 0) by (nonlinear_arith);
}

/// Seconds from `since` to `now`. A clock that ran backwards is an error, not
/// a very long time.
pub fn elapsed_seconds(now: i64, since: i64) -> (r: Result<u64, ErrorCode>)
    ensures
        now >= since ==> r == Ok::<u64, ErrorCode>((now - since) as u64),
        now < since ==> r == Err::<u64, ErrorCode>(ErrorCode::MathOverflow),
{
    if now < since {
        Err(ErrorCode::MathOverflow)
    } else {
        let span: i128 = now as i128 - since as i128;
        Ok(span as u64)
    }
}

/// Computes `share_bp`, in twice the width of its operands, where it always
/// fits.
pub fn compute_share_bp(amount: u64, total_staked: u64) -> (share: u128)
    ensures
        share == share_bp(amount, total_staked),
{
    if total_staked > 0 {
        assert(amount * BASIS_POINTS == amount * 10000);
        let scaled: u128 = amount as u128 * BASIS_POINTS as u128;
        scaled / total_staked as u128
    } else {
        0
    }
}

/// Computes `reward`, checking each product against 64 bits. The emission
/// times the share is formed in 128 bits, since the share may be that wide.
pub fn compute_reward(
    reward_per_second: u64,
    elapsed: u64,
    amount: u64,
    total_staked: u64,
    bonus_multiplier: u16,
) -> (r: Result<u64, ErrorCode>)
    ensures
        match r {
            Ok(value) => reward(reward_per_second, elapsed, amount, total_staked, bonus_multiplier)
                == Some(value),
            Err(e) => e == ErrorCode::MathOverflow
                && reward(reward_per_second, elapsed, amount, total_staked, bonus_multiplier) is None,
        },
{
    let share: u128 = compute_share_bp(amount, total_staked);
    let emitted: u64 = match reward_per_second.checked_mul(elapsed) {
        Some(v) => v,
        None => { return Err(ErrorCode::MathOverflow); },
    };
    let wide: u128 = match (emitted as u128).checked_mul(share) {
        Some(v) => v,
        None => { return Err(ErrorCode::MathOverflow); },
    };
    if wide > u64::MAX as u128 {
        return Err(ErrorCode::MathOverflow);
    }
    let weighted: u64 = wide as u64;
    let boosted: u64 = match weighted.checked_mul(bonus_multiplier as u64) {
        Some(v) => v,
        None => { return Err(ErrorCode::MathOverflow); },
    };
    Ok(boosted / BASIS_POINTS / BASIS_POINTS)
}

/// Computes `pending_reward` for a position as of `now`.
pub fn compute_pending_reward(pool: &Pool, user: &User, now: i64) -> (r: Result<u64, ErrorCode>)
    ensures
        match r {
            Ok(value) => pending_reward(*pool, *user, now) == Some(value),
            Err(e) => e == ErrorCode::MathOverflow && pending_reward(*pool, *user, now) is None,
        },
{
    let elapsed: u64 = match elapsed_seconds(now, user.last_reward_claim_timestamp) {
        Ok(elapsed) => elapsed,
        Err(e) => { return Err(e); },
    };
    compute_reward(
        pool.reward_per_second,
        elapsed,
        user.amount,
        pool.total_staked,
        user.bonus_multiplier,
    )
}

} // verus!
