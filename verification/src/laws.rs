use vstd::prelude::*;
use crate::errors::ErrorCode;
use crate::pool::{
    catch_up_overflows, lemma_accrued_is_not_negative, pool_after_catch_up, pool_after_update,
};
use crate::rewards::{
    emitted, lemma_no_share_no_reward, lemma_nothing_pending_when_settled, pending_reward,
};
use crate::staking::{
    claim_error, close_outcome, new_user, pool_after_claim, pool_after_stake, pool_after_unstake,
    stake_error, unstake_error, user_after_claim, user_after_stake, user_after_unstake,
};
use crate::state::{Pool, User, BASE_MULTIPLIER, LOCKED};

verus! {

/// Round trip. A deposit that opens a flexible position, withdrawn again in
/// full at the same moment, goes through both ways: the withdrawal succeeds
/// and reports no reward, the pool's total is what it was before the deposit,
/// and the position is empty again.
pub proof fn lemma_stake_then_unstake_restores(
    pool: Pool,
    user: User,
    amount: u64,
    lock_type: u8,
    now: i64,
)
    requires
        user.vacant(),
        lock_type != LOCKED,
        stake_error(pool, user, amount, lock_type, now) is None,
    ensures
        ({
            let staked_pool = pool_after_stake(pool, amount, now);
            let staked_user = user_after_stake(pool, user, amount, lock_type, now);
            &&& unstake_error(staked_pool, staked_user, amount, now) is None
            &&& pending_reward(staked_pool, staked_user, now) == Some(0u64)
            &&& pool_after_unstake(staked_pool, amount).total_staked == pool.total_staked
            &&& user_after_unstake(staked_user, amount, now).amount == 0
        }),
{
    lemma_nothing_pending_when_settled(
        pool_after_stake(pool, amount, now),
        user_after_stake(pool, user, amount, lock_type, now),
        now,
    );
}

/// Round trip of a top-up. The same holds of a deposit into a flexible
/// position that already holds something: withdrawing the deposit at the
/// same moment puts the pool's total and the position's amount back to what
/// they were.
pub proof fn lemma_top_up_then_unstake_restores(
    pool: Pool,
    user: User,
    amount: u64,
    lock_type: u8,
    now: i64,
)
    requires
        !user.vacant(),
        user.lock_type != LOCKED,
        stake_error(pool, user, amount, lock_type, now) is None,
    ensures
        ({
            let staked_pool = pool_after_stake(pool, amount, now);
            let staked_user = user_after_stake(pool, user, amount, lock_type, now);
            &&& unstake_error(staked_pool, staked_user, amount, now) is None
            &&& pending_reward(staked_pool, staked_user, now) == Some(0u64)
            &&& pool_after_unstake(staked_pool, amount).total_staked == pool.total_staked
            &&& user_after_unstake(staked_user, amount, now).amount == user.amount
        }),
{
    lemma_nothing_pending_when_settled(
        pool_after_stake(pool, amount, now),
        user_after_stake(pool, user, amount, lock_type, now),
        now,
    );
}

/// Lock, before maturity. A position opened as locked at `opened_at`, in a
/// pool whose lock lasts `pool.lock_duration`, matures at `opened_at` plus
/// that duration. Before then a withdrawal of a positive amount that the
/// position covers is rejected with `StillInLockPeriod`, whatever state the
/// pool is in by then, and so is closing the position.
pub proof fn lemma_locked_before_maturity(
    pool: Pool,
    user: User,
    amount: u64,
    opened_at: i64,
    later_pool: Pool,
    withdrawn: u64,
    now: i64,
)
    requires
        user.vacant(),
        stake_error(pool, user, amount, LOCKED, opened_at) is None,
        0 < withdrawn <= amount,
        now < opened_at + pool.lock_duration,
    ensures
        ({
            let position = user_after_stake(pool, user, amount, LOCKED, opened_at);
            &&& position.locked_under(pool, opened_at)
            &&& unstake_error(later_pool, position, withdrawn, now) == Some(
                ErrorCode::StillInLockPeriod,
            )
            &&& close_outcome(position, now) == Err::<u64, ErrorCode>(ErrorCode::StillInLockPeriod)
        }),
{
}

/// Lock, from maturity on. At any time from `opened_at` plus the pool's lock
/// duration, a position opened as locked at `opened_at` can be closed, and a
/// withdrawal of a positive amount that it covers succeeds, given that the
/// reward pending at that time can be computed and that the pool's total
/// covers the amount.
pub proof fn lemma_unlocked_from_maturity(
    pool: Pool,
    user: User,
    amount: u64,
    opened_at: i64,
    later_pool: Pool,
    withdrawn: u64,
    now: i64,
)
    requires
        user.vacant(),
        stake_error(pool, user, amount, LOCKED, opened_at) is None,
        0 < withdrawn <= amount,
        now >= opened_at + pool.lock_duration,
        pending_reward(later_pool, user_after_stake(pool, user, amount, LOCKED, opened_at), now)
            is Some,
        later_pool.total_staked >= withdrawn,
    ensures
        ({
            let position = user_after_stake(pool, user, amount, LOCKED, opened_at);
            &&& unstake_error(later_pool, position, withdrawn, now) is None
            &&& close_outcome(position, now) == Ok::<u64, ErrorCode>(amount)
        }),
{
}

/// Empty pool. While nothing is staked in a pool, a claim on it fails with
/// `NoRewardsAvailable`: every share is zero, and so is every reward. This
/// holds at any time that is not before the position last settled and at
/// which the pool's emission since then fits in 64 bits.
pub proof fn lemma_empty_pool_has_no_rewards(pool: Pool, user: User, now: i64)
    requires
        pool.total_staked == 0,
        now >= user.last_reward_claim_timestamp,
        emitted(pool.reward_per_second, (now - user.last_reward_claim_timestamp) as u64)
            <= u64::MAX,
    ensures
        claim_error(pool, user, now) == Some(ErrorCode::NoRewardsAvailable),
{
    lemma_no_share_no_reward(
        pool.reward_per_second,
        (now - user.last_reward_claim_timestamp) as u64,
        user.amount,
        pool.total_staked,
        user.bonus_multiplier,
    );
}

/// No time, no claim. A claim at the very moment the position last settled
/// fails with `NoRewardsAvailable`, in whatever state pool and position are.
/// So no period is paid twice: right after a deposit, a withdrawal or a claim
/// at `now`, a claim at `now` finds nothing.
pub proof fn lemma_no_claim_over_no_time(pool: Pool, user: User, now: i64)
    requires
        now == user.last_reward_claim_timestamp,
    ensures
        claim_error(pool, user, now) == Some(ErrorCode::NoRewardsAvailable),
{
    lemma_nothing_pending_when_settled(pool, user, now);
}

/// Top-up. Of two deposits in a row into one position, the second leaves the
/// lock type, the lock's start and end, and the multiplier as the first left
/// them, whatever lock type it names and whatever state the pool is in by
/// then.
pub proof fn lemma_second_stake_keeps_lock_terms(
    pool: Pool,
    user: User,
    first_amount: u64,
    first_lock_type: u8,
    first_now: i64,
    later_pool: Pool,
    second_amount: u64,
    second_lock_type: u8,
    second_now: i64,
)
    requires
        stake_error(pool, user, first_amount, first_lock_type, first_now) is None,
    ensures
        ({
            let first = user_after_stake(pool, user, first_amount, first_lock_type, first_now);
            let second = user_after_stake(
                later_pool,
                first,
                second_amount,
                second_lock_type,
                second_now,
            );
            second.same_lock_terms(first)
        }),
{
}

/// Terms of a new position. A deposit that opens a position fixes its terms
/// from the pool as it is at that moment: a locked position matures one lock
/// duration after it was opened and carries the base multiplier plus the
/// pool's bonus; any other position carries no lock and the base multiplier.
/// Either way the multiplier lies between the base and the base plus the
/// pool's bonus.
pub proof fn lemma_opening_fixes_the_terms(
    pool: Pool,
    user: User,
    amount: u64,
    lock_type: u8,
    now: i64,
)
    requires
        user.vacant(),
        stake_error(pool, user, amount, lock_type, now) is None,
    ensures
        ({
            let position = user_after_stake(pool, user, amount, lock_type, now);
            &&& position.wf()
            &&& position.lock_type == lock_type
            &&& lock_type == LOCKED ==> position.locked_under(pool, now)
            &&& lock_type != LOCKED ==> !position.in_lock_period(now)
            &&& BASE_MULTIPLIER <= position.bonus_multiplier <= BASE_MULTIPLIER + pool.lock_bonus_bp
        }),
{
}

/// Well-formed positions. A position is well formed when it is created, and
/// every operation that succeeds on a well-formed position leaves it so.
pub proof fn lemma_positions_stay_well_formed(
    pool: Pool,
    user: User,
    amount: u64,
    lock_type: u8,
    now: i64,
)
    requires
        user.wf(),
    ensures
        new_user(now).wf(),
        stake_error(pool, user, amount, lock_type, now) is None ==> user_after_stake(
            pool,
            user,
            amount,
            lock_type,
            now,
        ).wf(),
        unstake_error(pool, user, amount, now) is None ==> user_after_unstake(user, amount, now).wf(),
        user_after_claim(user, now).wf(),
{
}

/// Running total. No operation that succeeds on a pool makes its running
/// total of rewards smaller: bringing it up to date, a deposit and a claim
/// can only add to it, and a withdrawal and a change of parameters leave it
/// alone.
pub proof fn lemma_running_total_never_shrinks(
    pool: Pool,
    amount: u64,
    claimed: u64,
    new_reward_per_second: Option<u64>,
    new_lock_duration: Option<u64>,
    new_lock_bonus_bp: Option<u16>,
    now: i64,
)
    ensures
        !catch_up_overflows(pool, now) ==> pool_after_catch_up(pool, now).total_reward_distributed
            >= pool.total_reward_distributed,
        !catch_up_overflows(pool, now) ==> pool_after_stake(pool, amount, now).total_reward_distributed
            >= pool.total_reward_distributed,
        pool.total_reward_distributed + claimed <= u64::MAX ==> pool_after_claim(
            pool,
            claimed,
        ).total_reward_distributed >= pool.total_reward_distributed,
        pool_after_unstake(pool, amount).total_reward_distributed == pool.total_reward_distributed,
        pool_after_update(
            pool,
            new_reward_per_second,
            new_lock_duration,
            new_lock_bonus_bp,
        ).total_reward_distributed == pool.total_reward_distributed,
{
    if !catch_up_overflows(pool, now) {
        lemma_accrued_is_not_negative(pool, now);
    }
}

} // verus!
