use vstd::prelude::*;
use crate::errors::ErrorCode;
use crate::pool::{catch_up_overflows, catch_up_rewards, pool_after_catch_up};
use crate::rewards::{
    compute_pending_reward, lemma_no_share_no_reward, lemma_nothing_pending_when_settled,
    pending_reward,
};
use crate::state::{Pool, User, BASE_MULTIPLIER, FLEXIBLE, LOCKED};

verus! {

/// The lock terms that `pool` offers at `now` cannot be written down: the
/// maturity leaves the range of a timestamp, or the multiplier 16 bits.
pub open spec fn lock_terms_overflow(pool: Pool, now: i64) -> bool {
    now + pool.lock_duration > i64::MAX || BASE_MULTIPLIER + pool.lock_bonus_bp > u16::MAX
}

/// Some step of a deposit of `amount` at `now` leaves the range of its field.
pub open spec fn stake_overflows(pool: Pool, user: User, amount: u64, lock_type: u8, now: i64) -> bool {
    ||| catch_up_overflows(pool, now)
    ||| user.amount + amount > u64::MAX
    ||| user.vacant() && lock_type == LOCKED && lock_terms_overflow(pool, now)
    ||| pool.total_staked + amount > u64::MAX
}

/// Why `stake` rejects a deposit of `amount` at `now`, if it does.
pub open spec fn stake_error(pool: Pool, user: User, amount: u64, lock_type: u8, now: i64) -> Option<
    ErrorCode,
> {
    if amount == 0 {
        Some(ErrorCode::InvalidAmount)
    } else if stake_overflows(pool, user, amount, lock_type, now) {
        Some(ErrorCode::MathOverflow)
    } else {
        None
    }
}

/// The position that a deposit with `lock_type` opens in `pool` at `now`,
/// before any amount is put in it: locked under the pool's terms for
/// `LOCKED`, flexible for every other value.
pub open spec fn opened_position(pool: Pool, lock_type: u8, now: i64) -> User {
    if lock_type == LOCKED {
        User {
            amount: 0,
            lock_type,
            lock_start_timestamp: now,
            lock_end_timestamp: (now + pool.lock_duration) as i64,
            bonus_multiplier: (BASE_MULTIPLIER + pool.lock_bonus_bp) as u16,
            last_reward_claim_timestamp: now,
        }
    } else {
        User {
            amount: 0,
            lock_type,
            lock_start_timestamp: 0,
            lock_end_timestamp: 0,
            bonus_multiplier: BASE_MULTIPLIER,
            last_reward_claim_timestamp: now,
        }
    }
}

/// The position after a deposit of `amount` at `now`. A deposit into a vacant
/// position opens it and sets its lock terms; a top-up keeps them, whatever
/// `lock_type` says. Either way the position counts as settled at `now`.
pub open spec fn user_after_stake(pool: Pool, user: User, amount: u64, lock_type: u8, now: i64) -> User {
    let terms = if user.vacant() {
        opened_position(pool, lock_type, now)
    } else {
        user
    };
    User { amount: (user.amount + amount) as u64, last_reward_claim_timestamp: now, ..terms }
}

/// The pool after a deposit of `amount` at `now`: brought up to date, then
/// its total grown by the amount.
pub open spec fn pool_after_stake(pool: Pool, amount: u64, now: i64) -> Pool {
    Pool { total_staked: (pool.total_staked + amount) as u64, ..pool_after_catch_up(pool, now) }
}

/// Deposits `amount` into the position at `now`.
///
/// The pool's running total is first brought up to date. A deposit into an
/// empty position fixes the position's lock terms from `lock_type` and the
/// pool's current parameters; a top-up ignores `lock_type`. The position
/// counts as settled at `now`, so whatever it had earned since it last
/// settled is dropped.
pub fn stake(pool: &mut Pool, user: &mut User, amount: u64, lock_type: u8, now: i64) -> (r: Result<
    (),
    ErrorCode,
>)
    ensures
        match r {
            Ok(()) => {
                &&& stake_error(*old(pool), *old(user), amount, lock_type, now) is None
                &&& *final(pool) == pool_after_stake(*old(pool), amount, now)
                &&& *final(user) == user_after_stake(*old(pool), *old(user), amount, lock_type, now)
            },
            Err(e) => {
                &&& stake_error(*old(pool), *old(user), amount, lock_type, now) == Some(e)
                &&& *final(pool) == *old(pool)
                &&& *final(user) == *old(user)
            },
        },
        !old(user).vacant() ==> final(user).same_lock_terms(*old(user)),
        old(user).wf() ==> final(user).wf(),
        final(pool).total_reward_distributed >= old(pool).total_reward_distributed,
{
    if amount == 0 {
        return Err(ErrorCode::InvalidAmount);
    }
    let mut next_pool: Pool = *pool;
    match catch_up_rewards(&mut next_pool, now) {
        Ok(()) => {},
        Err(e) => { return Err(e); },
    }
    let mut next_user: User = *user;
    if user.is_vacant() {
        next_user.lock_type = lock_type;
        if lock_type == LOCKED {
            let lock_end: i64 = match now.checked_add_unsigned(pool.lock_duration) {
                Some(v) => v,
                None => { return Err(ErrorCode::MathOverflow); },
            };
            let multiplier: u16 = match BASE_MULTIPLIER.checked_add(pool.lock_bonus_bp) {
                Some(v) => v,
                None => { return Err(ErrorCode::MathOverflow); },
            };
            next_user.lock_start_timestamp = now;
            next_user.lock_end_timestamp = lock_end;
            next_user.bonus_multiplier = multiplier;
        } else {
            next_user.lock_start_timestamp = 0;
            next_user.lock_end_timestamp = 0;
            next_user.bonus_multiplier = BASE_MULTIPLIER;
        }
    }
    next_user.amount = match user.amount.checked_add(amount) {
        Some(v) => v,
        None => { return Err(ErrorCode::MathOverflow); },
    };
    next_user.last_reward_claim_timestamp = now;
    next_pool.total_staked = match next_pool.total_staked.checked_add(amount) {
        Some(v) => v,
        None => { return Err(ErrorCode::MathOverflow); },
    };
    *pool = next_pool;
    *user = next_user;
    Ok(())
}

/// Why `unstake` rejects a withdrawal of `amount` at `now`, if it does.
pub open spec fn unstake_error(pool: Pool, user: User, amount: u64, now: i64) -> Option<ErrorCode> {
    if amount == 0 {
        Some(ErrorCode::InvalidAmount)
    } else if user.amount < amount {
        Some(ErrorCode::InsufficientStake)
    } else if user.in_lock_period(now) {
        Some(ErrorCode::StillInLockPeriod)
    } else if pending_reward(pool, user, now) is None || pool.total_staked < amount {
        Some(ErrorCode::MathOverflow)
    } else {
        None
    }
}

/// The position after a withdrawal of `amount` at `now`.
pub open spec fn user_after_unstake(user: User, amount: u64, now: i64) -> User {
    User { amount: (user.amount - amount) as u64, last_reward_claim_timestamp: now, ..user }
}

/// The pool after a withdrawal of `amount`.
pub open spec fn pool_after_unstake(pool: Pool, amount: u64) -> Pool {
    Pool { total_staked: (pool.total_staked - amount) as u64, ..pool }
}

/// Withdraws `amount` from the position at `now`.
///
/// The amount must be positive and covered by the position, and a locked
/// position must have matured. On success the amount leaves both the position
/// and the pool's total, the position counts as settled at `now`, and the
/// reward that was pending is returned. That reward is only reported: it is
/// added to no balance, and the pool's running total is not brought up to date.
pub fn unstake(pool: &mut Pool, user: &mut User, amount: u64, now: i64) -> (r: Result<u64, ErrorCode>)
    ensures
        match r {
            Ok(reported) => {
                &&& unstake_error(*old(pool), *old(user), amount, now) is None
                &&& pending_reward(*old(pool), *old(user), now) == Some(reported)
                &&& *final(pool) == pool_after_unstake(*old(pool), amount)
                &&& *final(user) == user_after_unstake(*old(user), amount, now)
            },
            Err(e) => {
                &&& unstake_error(*old(pool), *old(user), amount, now) == Some(e)
                &&& *final(pool) == *old(pool)
                &&& *final(user) == *old(user)
            },
        },
        final(user).same_lock_terms(*old(user)),
        old(user).wf() ==> final(user).wf(),
{
    if amount == 0 {
        return Err(ErrorCode::InvalidAmount);
    }
    if user.amount < amount {
        return Err(ErrorCode::InsufficientStake);
    }
    if user.is_in_lock_period(now) {
        return Err(ErrorCode::StillInLockPeriod);
    }
    let reported: u64 = match compute_pending_reward(pool, user, now) {
        Ok(reward) => reward,
        Err(e) => { return Err(e); },
    };
    let total_staked: u64 = match pool.total_staked.checked_sub(amount) {
        Some(v) => v,
        None => { return Err(ErrorCode::MathOverflow); },
    };
    user.amount = user.amount - amount;
    user.last_reward_claim_timestamp = now;
    pool.total_staked = total_staked;
    Ok(reported)
}

/// Why `claim_rewards` rejects a claim at `now`, if it does.
pub open spec fn claim_error(pool: Pool, user: User, now: i64) -> Option<ErrorCode> {
    match pending_reward(pool, user, now) {
        None => Some(ErrorCode::MathOverflow),
        Some(reward) => if reward == 0 {
            Some(ErrorCode::NoRewardsAvailable)
        } else if pool.total_reward_distributed + reward > u64::MAX {
            Some(ErrorCode::MathOverflow)
        } else {
            None
        },
    }
}

/// The position after a claim at `now`.
pub open spec fn user_after_claim(user: User, now: i64) -> User {
    User { last_reward_claim_timestamp: now, ..user }
}

/// The pool after a claim of `claimed`.
pub open spec fn pool_after_claim(pool: Pool, claimed: u64) -> Pool {
    Pool { total_reward_distributed: (pool.total_reward_distributed + claimed) as u64, ..pool }
}

/// Claims the reward that the position has earned since it last settled.
///
/// The reward must be positive. On success the position counts as settled at
/// `now`, the reward is added to the pool's running total, and it is
/// returned. This is bookkeeping only: nothing is paid out here.
pub fn claim_rewards(pool: &mut Pool, user: &mut User, now: i64) -> (r: Result<u64, ErrorCode>)
    ensures
        match r {
            Ok(claimed) => {
                &&& claim_error(*old(pool), *old(user), now) is None
                &&& pending_reward(*old(pool), *old(user), now) == Some(claimed)
                &&& claimed > 0
                &&& *final(pool) == pool_after_claim(*old(pool), claimed)
                &&& *final(user) == user_after_claim(*old(user), now)
            },
            Err(e) => {
                &&& claim_error(*old(pool), *old(user), now) == Some(e)
                &&& *final(pool) == *old(pool)
                &&& *final(user) == *old(user)
            },
        },
        old(pool).total_staked == 0 ==> r is Err,
        now == old(user).last_reward_claim_timestamp ==> r == Err::<u64, ErrorCode>(
            ErrorCode::NoRewardsAvailable,
        ),
        final(user).same_lock_terms(*old(user)),
        old(user).wf() ==> final(user).wf(),
        final(pool).total_reward_distributed >= old(pool).total_reward_distributed,
{
    proof {
        if now == user.last_reward_claim_timestamp {
            lemma_nothing_pending_when_settled(*pool, *user, now);
        }
    }
    let claimed: u64 = match compute_pending_reward(pool, user, now) {
        Ok(reward) => reward,
        Err(e) => { return Err(e); },
    };
    if claimed == 0 {
        return Err(ErrorCode::NoRewardsAvailable);
    }
    proof {
        if pool.total_staked == 0 {
            lemma_no_share_no_reward(
                pool.reward_per_second,
                (now - user.last_reward_claim_timestamp) as u64,
                user.amount,
                pool.total_staked,
                user.bonus_multiplier,
            );
        }
    }
    let total: u64 = match pool.total_reward_distributed.checked_add(claimed) {
        Some(v) => v,
        None => { return Err(ErrorCode::MathOverflow); },
    };
    user.last_reward_claim_timestamp = now;
    pool.total_reward_distributed = total;
    Ok(claimed)
}

/// A fresh position, created at `now`: empty, flexible, with the base
/// multiplier, and settled at `now`.
pub open spec fn new_user(now: i64) -> User {
    User {
        amount: 0,
        lock_type: FLEXIBLE,
        lock_start_timestamp: 0,
        lock_end_timestamp: 0,
        bonus_multiplier: BASE_MULTIPLIER,
        last_reward_claim_timestamp: now,
    }
}

/// Creates the position of an owner in a pool. It must exist before the
/// first deposit.
pub fn create_user_account(now: i64) -> (user: User)
    ensures
        user == new_user(now),
        user.wf(),
{
    User {
        amount: 0,
        lock_type: FLEXIBLE,
        lock_start_timestamp: 0,
        lock_end_timestamp: 0,
        bonus_multiplier: BASE_MULTIPLIER,
        last_reward_claim_timestamp: now,
    }
}

/// What `close_user_account` answers at `now`: the amount that the position
/// holds, or that the position is still locked.
pub open spec fn close_outcome(user: User, now: i64) -> Result<u64, ErrorCode> {
    if user.in_lock_period(now) {
        Err(ErrorCode::StillInLockPeriod)
    } else {
        Ok(user.amount)
    }
}

/// Decides whether the position may be closed at `now`, and reports the
/// amount it still holds.
///
/// A locked position cannot be closed before it matures. Closing moves
/// nothing: the amount that is reported stays in the pool's total, which this
/// function does not see. Removing the record is the caller's part.
pub fn close_user_account(user: &User, now: i64) -> (r: Result<u64, ErrorCode>)
    ensures
        r == close_outcome(*user, now),
{
    if user.is_in_lock_period(now) {
        Err(ErrorCode::StillInLockPeriod)
    } else {
        Ok(user.amount)
    }
}

} // verus!
