use vstd::prelude::*;
use crate::errors::ErrorCode;
use crate::state::{GlobalState, Pool};

verus! {

/// The registry as it is first set up: controlled by `authority`, with no
/// pool counted.
pub open spec fn new_global_state(authority: [u8; 32]) -> GlobalState {
    GlobalState { authority, pool_count: 0 }
}

/// Sets up the registry. It is meant to happen once; that it does is the
/// record store's part.
pub fn initialize(authority: [u8; 32]) -> (global_state: GlobalState)
    ensures
        global_state == new_global_state(authority),
{
    GlobalState { authority, pool_count: 0 }
}

/// A pool as it is created at `now`: configured as given, with nothing staked
/// and nothing accounted for, and up to date as of `now`.
pub open spec fn new_pool(
    pool_id: [u8; 32],
    stake_asset: [u8; 32],
    receipt_asset: [u8; 32],
    reward_asset: [u8; 32],
    reward_per_second: u64,
    lock_duration: u64,
    lock_bonus_bp: u16,
    authority: [u8; 32],
    now: i64,
) -> Pool {
    Pool {
        pool_id,
        stake_asset,
        receipt_asset,
        reward_asset,
        reward_per_second,
        lock_duration,
        lock_bonus_bp,
        total_staked: 0,
        total_reward_distributed: 0,
        last_update_timestamp: now,
        authority,
    }
}

/// Creates a pool at `now` and counts it in the registry.
///
/// Fails only where the count is at its maximum. That no pool with this
/// identifier exists yet is the record store's part.
pub fn create_pool(
    global_state: &mut GlobalState,
    pool_id: [u8; 32],
    stake_asset: [u8; 32],
    receipt_asset: [u8; 32],
    reward_asset: [u8; 32],
    reward_per_second: u64,
    lock_duration: u64,
    lock_bonus_bp: u16,
    authority: [u8; 32],
    now: i64,
) -> (r: Result<Pool, ErrorCode>)
    ensures
        r is Ok <==> old(global_state).pool_count < u64::MAX,
        final(global_state).authority == old(global_state).authority,
        match r {
            Ok(pool) => {
                &&& final(global_state).pool_count == old(global_state).pool_count + 1
                &&& pool == new_pool(
                    pool_id,
                    stake_asset,
                    receipt_asset,
                    reward_asset,
                    reward_per_second,
                    lock_duration,
                    lock_bonus_bp,
                    authority,
                    now,
                )
            },
            Err(e) => {
                &&& e == ErrorCode::MathOverflow
                &&& *final(global_state) == *old(global_state)
            },
        },
{
    let pool_count: u64 = match global_state.pool_count.checked_add(1) {
        Some(v) => v,
        None => { return Err(ErrorCode::MathOverflow); },
    };
    global_state.pool_count = pool_count;
    Ok(
        Pool {
            pool_id,
            stake_asset,
            receipt_asset,
            reward_asset,
            reward_per_second,
            lock_duration,
            lock_bonus_bp,
            total_staked: 0,
            total_reward_distributed: 0,
            last_update_timestamp: now,
            authority,
        },
    )
}

} // verus!
