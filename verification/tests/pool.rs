use wave_stake::{
    catch_up_rewards, create_pool, initialize, update_pool, ErrorCode, GlobalState, Pool,
};

fn sample_pool() -> Pool {
    Pool {
        pool_id: [7u8; 32],
        stake_asset: [1u8; 32],
        receipt_asset: [2u8; 32],
        reward_asset: [3u8; 32],
        reward_per_second: 100,
        lock_duration: 2_592_000,
        lock_bonus_bp: 5000,
        total_staked: 1000,
        total_reward_distributed: 7,
        last_update_timestamp: 1000,
        authority: [9u8; 32],
    }
}

#[test]
fn initialize_starts_with_no_pools() {
    let global_state = initialize([42u8; 32]);
    assert_eq!(global_state, GlobalState { authority: [42u8; 32], pool_count: 0 });
}

#[test]
fn create_pool_counts_the_pool() {
    let mut global_state = initialize([42u8; 32]);
    let pool = create_pool(
        &mut global_state,
        [7u8; 32],
        [1u8; 32],
        [2u8; 32],
        [3u8; 32],
        100,
        2_592_000,
        5000,
        [9u8; 32],
        1234,
    );
    assert_eq!(
        pool,
        Ok(Pool {
            pool_id: [7u8; 32],
            stake_asset: [1u8; 32],
            receipt_asset: [2u8; 32],
            reward_asset: [3u8; 32],
            reward_per_second: 100,
            lock_duration: 2_592_000,
            lock_bonus_bp: 5000,
            total_staked: 0,
            total_reward_distributed: 0,
            last_update_timestamp: 1234,
            authority: [9u8; 32],
        })
    );
    assert_eq!(global_state, GlobalState { authority: [42u8; 32], pool_count: 1 });
    let second = create_pool(
        &mut global_state,
        [8u8; 32],
        [1u8; 32],
        [2u8; 32],
        [3u8; 32],
        0,
        0,
        0,
        [9u8; 32],
        -5,
    );
    assert!(second.is_ok());
    assert_eq!(global_state.pool_count, 2);
}

#[test]
fn create_pool_fails_when_the_count_is_full() {
    let mut global_state = GlobalState { authority: [42u8; 32], pool_count: u64::MAX };
    let pool = create_pool(
        &mut global_state,
        [7u8; 32],
        [1u8; 32],
        [2u8; 32],
        [3u8; 32],
        100,
        2_592_000,
        5000,
        [9u8; 32],
        1234,
    );
    assert_eq!(pool, Err(ErrorCode::MathOverflow));
    assert_eq!(global_state, GlobalState { authority: [42u8; 32], pool_count: u64::MAX });
    global_state.pool_count = u64::MAX - 1;
    let pool = create_pool(
        &mut global_state,
        [7u8; 32],
        [1u8; 32],
        [2u8; 32],
        [3u8; 32],
        100,
        2_592_000,
        5000,
        [9u8; 32],
        1234,
    );
    assert!(pool.is_ok());
    assert_eq!(global_state.pool_count, u64::MAX);
}

#[test]
fn update_pool_with_nothing_given_changes_nothing() {
    let mut pool = sample_pool();
    update_pool(&mut pool, None, None, None);
    assert_eq!(pool, sample_pool());
}

#[test]
fn update_pool_replaces_only_what_is_given() {
    let mut pool = sample_pool();
    update_pool(&mut pool, Some(250), None, None);
    let mut expected = sample_pool();
    expected.reward_per_second = 250;
    assert_eq!(pool, expected);

    update_pool(&mut pool, None, Some(60), None);
    expected.lock_duration = 60;
    assert_eq!(pool, expected);

    update_pool(&mut pool, None, None, Some(1));
    expected.lock_bonus_bp = 1;
    assert_eq!(pool, expected);

    update_pool(&mut pool, Some(0), Some(u64::MAX), Some(u16::MAX));
    expected.reward_per_second = 0;
    expected.lock_duration = u64::MAX;
    expected.lock_bonus_bp = u16::MAX;
    assert_eq!(pool, expected);
}

#[test]
fn catch_up_adds_the_emission_since_the_last_update() {
    let mut pool = sample_pool();
    assert_eq!(catch_up_rewards(&mut pool, 1010), Ok(()));
    let mut expected = sample_pool();
    expected.total_reward_distributed = 1007;
    expected.last_update_timestamp = 1010;
    assert_eq!(pool, expected);
    assert_eq!(catch_up_rewards(&mut pool, 1010), Ok(()));
    assert_eq!(pool, expected);
}

#[test]
fn catch_up_of_an_empty_pool_only_stamps_the_update() {
    let mut pool = sample_pool();
    pool.total_staked = 0;
    pool.reward_per_second = u64::MAX;
    assert_eq!(catch_up_rewards(&mut pool, 5000), Ok(()));
    assert_eq!(pool.total_reward_distributed, 7);
    assert_eq!(pool.last_update_timestamp, 5000);
}

#[test]
fn catch_up_overflow_changes_nothing() {
    let mut pool = sample_pool();
    pool.reward_per_second = u64::MAX / 2;
    pool.total_reward_distributed = 1;
    let before = pool;
    // Three seconds of emission do not fit in 64 bits.
    assert_eq!(catch_up_rewards(&mut pool, 1003), Err(ErrorCode::MathOverflow));
    assert_eq!(pool, before);
    // Two seconds do, and so does their sum with the running total.
    assert_eq!(catch_up_rewards(&mut pool, 1002), Ok(()));
    assert_eq!(pool.total_reward_distributed, u64::MAX);
    // On top of a larger running total they do not.
    pool.total_reward_distributed = 2;
    pool.last_update_timestamp = 1000;
    let before = pool;
    assert_eq!(catch_up_rewards(&mut pool, 1002), Err(ErrorCode::MathOverflow));
    assert_eq!(pool, before);
}

#[test]
fn catch_up_rejects_a_clock_that_ran_backwards() {
    let mut pool = sample_pool();
    assert_eq!(catch_up_rewards(&mut pool, 999), Err(ErrorCode::MathOverflow));
    assert_eq!(pool, sample_pool());
}
