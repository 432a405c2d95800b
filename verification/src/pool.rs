use vstd::prelude::*;
use crate::errors::ErrorCode;
use crate::rewards::{elapsed_seconds, emitted};
use crate::state::Pool;

verus! {

/// The pool has something to account for at `now`: time has passed since its
/// last update and something is staked.
pub open spec fn accrues(pool: Pool, now: i64) -> bool {
    now > pool.last_update_timestamp && pool.total_staked > 0
}

/// What the pool emitted between its last update and `now`.
pub open spec fn accrued(pool: Pool, now: i64) -> int {
    if accrues(pool, now) {
        emitted(pool.reward_per_second, (now - pool.last_update_timestamp) as u64)
    } else {
        0
    }
}

/// What a pool emitted is never negative.
pub proof fn lemma_accrued_is_not_negative(pool: Pool, now: i64)
    ensures
        accrued(pool, now) >= 0,
{
    if accrues(pool, now) {
        let elapsed = (now - pool.last_update_timestamp) as u64;
        assert(pool.reward_per_second * elapsed >= 0) by (nonlinear_arith);
    }
}

/// Bringing the pool up to date at `now` is impossible: the clock ran
/// backwards, or the running total would leave 64 bits.
pub open spec fn catch_up_overflows(pool: Pool, now: i64) -> bool {
    ||| now < pool.last_update_timestamp
    ||| pool.total_reward_distributed + accrued(pool, now) > u64::MAX
}

/// The pool brought up to date at `now`: its running total grown by what it
/// emitted since the last update, and the update stamped `now`.
pub open spec fn pool_after_catch_up(pool: Pool, now: i64) -> Pool {
    Pool {
        total_reward_distributed: (pool.total_reward_distributed + accrued(pool, now)) as u64,
        last_update_timestamp: now,
        ..pool
    }
}

/// Brings the pool's running total up to date at `now`.
///
/// The total counts what the pool emitted while anything was staked; it does
/// not depend on what positions claim. The update is stamped even where
/// nothing was staked.
pub fn catch_up_rewards(pool: &mut Pool, now: i64) -> (r: Result<(), ErrorCode>)
    ensures
        match r {
            Ok(()) => {
                &&& !catch_up_overflows(*old(pool), now)
                &&& *final(pool) == pool_after_catch_up(*old(pool), now)
            },
            Err(e) => {
                &&& e == ErrorCode::MathOverflow
                &&& catch_up_overflows(*old(pool), now)
                &&& *final(pool) == *old(pool)
            },
        },
        final(pool).total_reward_distributed >= old(pool).total_reward_distributed,
{
    let elapsed: u64 = match elapsed_seconds(now, pool.last_update_timestamp) {
        Ok(elapsed) => elapsed,
        Err(e) => { return Err(e); },
    };
    let mut total: u64 = pool.total_reward_distributed;
    if elapsed > 0 && pool.total_staked > 0 {
        let emitted: u64 = match pool.reward_per_second.checked_mul(elapsed) {
            Some(v) => v,
            None => { return Err(ErrorCode::MathOverflow); },
        };
        total = match total.checked_add(emitted) {
            Some(v) => v,
            None => { return Err(ErrorCode::MathOverflow); },
        };
    }
    pool.total_reward_distributed = total;
    pool.last_update_timestamp = now;
    Ok(())
}

/// The pool with each parameter replaced for which a new value is given.
pub open spec fn pool_after_update(
    pool: Pool,
    new_reward_per_second: Option<u64>,
    new_lock_duration: Option<u64>,
    new_lock_bonus_bp: Option<u16>,
) -> Pool {
    Pool {
        reward_per_second: match new_reward_per_second {
            Some(rate) => rate,
            None => pool.reward_per_second,
        },
        lock_duration: match new_lock_duration {
            Some(duration) => duration,
            None => pool.lock_duration,
        },
        lock_bonus_bp: match new_lock_bonus_bp {
            Some(bonus) => bonus,
            None => pool.lock_bonus_bp,
        },
        ..pool
    }
}

/// Changes the pool's parameters: each value that is given replaces the
/// pool's, each that is absent leaves it. With none given the pool stays as
/// it is.
///
/// Positions are not touched: new terms hold for deposits that open a
/// position later. That the caller is the pool's authority is for the caller
/// of this function to establish.
pub fn update_pool(
    pool: &mut Pool,
    new_reward_per_second: Option<u64>,
    new_lock_duration: Option<u64>,
    new_lock_bonus_bp: Option<u16>,
)
    ensures
        *final(pool) == pool_after_update(
            *old(pool),
            new_reward_per_second,
            new_lock_duration,
            new_lock_bonus_bp,
        ),
        new_reward_per_second is None && new_lock_duration is None && new_lock_bonus_bp is None
            ==> *final(pool) == *old(pool),
{
    if let Some(rate) = new_reward_per_second {
        pool.reward_per_second = rate;
    }
    if let Some(duration) = new_lock_duration {
        pool.lock_duration = duration;
    }
    if let Some(bonus) = new_lock_bonus_bp {
        pool.lock_bonus_bp = bonus;
    }
}

} // verus!
