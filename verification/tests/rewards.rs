use wave_stake::{
    compute_pending_reward, compute_reward, compute_share_bp, elapsed_seconds, ErrorCode, Pool,
    User,
};

fn pool_with(reward_per_second: u64, total_staked: u64) -> Pool {
    Pool {
        pool_id: [1u8; 32],
        stake_asset: [2u8; 32],
        receipt_asset: [3u8; 32],
        reward_asset: [4u8; 32],
        reward_per_second,
        lock_duration: 0,
        lock_bonus_bp: 0,
        total_staked,
        total_reward_distributed: 0,
        last_update_timestamp: 0,
        authority: [5u8; 32],
    }
}

fn position_with(amount: u64, bonus_multiplier: u16, settled_at: i64) -> User {
    User {
        amount,
        lock_type: 0,
        lock_start_timestamp: 0,
        lock_end_timestamp: 0,
        bonus_multiplier,
        last_reward_claim_timestamp: settled_at,
    }
}

#[test]
fn share_of_half_the_pool_is_5000_bp() {
    assert_eq!(compute_share_bp(500, 1000), 5000);
}

#[test]
fn share_rounds_down() {
    assert_eq!(compute_share_bp(1, 3), 3333);
    assert_eq!(compute_share_bp(2, 3), 6666);
    assert_eq!(compute_share_bp(1, 10001), 0);
}

#[test]
fn share_in_an_empty_pool_is_zero() {
    assert_eq!(compute_share_bp(0, 0), 0);
    assert_eq!(compute_share_bp(500, 0), 0);
    assert_eq!(compute_share_bp(u64::MAX, 0), 0);
}

#[test]
fn share_of_the_whole_pool_is_10000_bp() {
    assert_eq!(compute_share_bp(1, 1), 10000);
    assert_eq!(compute_share_bp(u64::MAX, u64::MAX), 10000);
}

#[test]
fn share_uses_a_wide_intermediate() {
    // u64::MAX * 10000 does not fit in 64 bits; the quotient does.
    assert_eq!(compute_share_bp(u64::MAX, 10000), u64::MAX as u128);
    assert_eq!(compute_share_bp(u64::MAX, 20000), (u64::MAX / 2) as u128);
}

#[test]
fn share_may_be_wider_than_64_bits() {
    assert_eq!(compute_share_bp(u64::MAX, 1), 184467440737095516150000);
    assert_eq!(compute_share_bp(u64::MAX, 9999), 18448588932602811896);
    assert!(compute_share_bp(u64::MAX, 9999) > u64::MAX as u128);
}

#[test]
fn reward_formula_example() {
    assert_eq!(compute_share_bp(500, 1000), 5000);
    assert_eq!(compute_reward(100, 10, 500, 1000, 10000), Ok(500));
}

#[test]
fn reward_with_a_bonus_multiplier() {
    assert_eq!(compute_reward(100, 10, 500, 1000, 15000), Ok(750));
    assert_eq!(compute_reward(1000, 3600, 250, 1000, 12500), Ok(1125000));
}

#[test]
fn reward_rounds_down_once_per_division() {
    // share 3333; 21 * 3333 * 12345 = 864063585; / 10000 = 86406; / 10000 = 8
    assert_eq!(compute_reward(7, 3, 1, 3, 12345), Ok(8));
    assert_eq!(compute_reward(1, 1, 1, 3, 10000), Ok(0));
    assert_eq!(compute_reward(5, 100, 300, 1200, 10000), Ok(125));
}

#[test]
fn reward_is_zero_over_no_time() {
    assert_eq!(compute_reward(u64::MAX, 0, 500, 1000, 65535), Ok(0));
}

#[test]
fn reward_is_zero_in_an_empty_pool() {
    assert_eq!(compute_reward(100, 10, 500, 0, 10000), Ok(0));
}

#[test]
fn reward_emission_overflow() {
    assert_eq!(compute_reward(u64::MAX, 2, 500, 1000, 10000), Err(ErrorCode::MathOverflow));
    // The emission is checked even where the share is zero.
    assert_eq!(compute_reward(u64::MAX, 2, 0, 1000, 10000), Err(ErrorCode::MathOverflow));
    assert_eq!(compute_reward(u64::MAX, 2, 500, 0, 10000), Err(ErrorCode::MathOverflow));
}

#[test]
fn reward_weighting_overflow() {
    // 2^60 fits, 2^60 * 10000 does not.
    assert_eq!(
        compute_reward(1u64 << 40, 1u64 << 20, 1000, 1000, 10000),
        Err(ErrorCode::MathOverflow)
    );
}

#[test]
fn reward_multiplier_overflow() {
    // 2^46 * 10000 fits, times 65535 it does not.
    assert_eq!(
        compute_reward(1u64 << 36, 1u64 << 10, 1000, 1000, 65535),
        Err(ErrorCode::MathOverflow)
    );
}

#[test]
fn reward_is_zero_without_emission_whatever_the_share() {
    // The share is wider than 64 bits, but it is multiplied by nothing.
    assert_eq!(compute_reward(0, 0, u64::MAX, 1, 10000), Ok(0));
    assert_eq!(compute_reward(100, 0, u64::MAX, 1, 65535), Ok(0));
    assert_eq!(compute_reward(0, u64::MAX, u64::MAX, 1, 65535), Ok(0));
}

#[test]
fn reward_with_a_share_above_the_whole() {
    // The position holds four times the pool's total: share 40000.
    assert_eq!(compute_reward(100, 10, 4000, 1000, 10000), Ok(4000));
}

#[test]
fn reward_wide_share_times_any_emission_overflows() {
    assert_eq!(compute_reward(1, 1, u64::MAX, 1, 10000), Err(ErrorCode::MathOverflow));
    assert_eq!(compute_reward(1, 1, u64::MAX, 9999, 10000), Err(ErrorCode::MathOverflow));
    // Here the product leaves even 128 bits.
    assert_eq!(compute_reward(u64::MAX, 1, u64::MAX, 1, 10000), Err(ErrorCode::MathOverflow));
}

#[test]
fn reward_largest_weighted_product_that_fits() {
    // share u64::MAX, emission 1: the product is exactly u64::MAX.
    assert_eq!(compute_reward(1, 1, u64::MAX, 10000, 1), Ok(184467440737));
    assert_eq!(compute_reward(1, 1, u64::MAX, 10000, 2), Err(ErrorCode::MathOverflow));
    assert_eq!(compute_reward(2, 1, u64::MAX, 10000, 1), Err(ErrorCode::MathOverflow));
}

#[test]
fn elapsed_seconds_counts_forward() {
    assert_eq!(elapsed_seconds(10, 3), Ok(7));
    assert_eq!(elapsed_seconds(3, 3), Ok(0));
    assert_eq!(elapsed_seconds(-3, -10), Ok(7));
    assert_eq!(elapsed_seconds(5, -5), Ok(10));
}

#[test]
fn elapsed_seconds_spans_the_whole_range() {
    assert_eq!(elapsed_seconds(i64::MAX, i64::MIN), Ok(u64::MAX));
    assert_eq!(elapsed_seconds(i64::MAX, 0), Ok(9223372036854775807));
}

#[test]
fn elapsed_seconds_rejects_a_clock_that_ran_backwards() {
    assert_eq!(elapsed_seconds(3, 10), Err(ErrorCode::MathOverflow));
    assert_eq!(elapsed_seconds(i64::MIN, i64::MAX), Err(ErrorCode::MathOverflow));
    assert_eq!(elapsed_seconds(-1, 0), Err(ErrorCode::MathOverflow));
}

#[test]
fn pending_reward_counts_from_the_last_settlement() {
    let pool = pool_with(100, 1000);
    let position = position_with(500, 10000, 1_000);
    assert_eq!(compute_pending_reward(&pool, &position, 1_010), Ok(500));
    assert_eq!(compute_pending_reward(&pool, &position, 1_000), Ok(0));
}

#[test]
fn pending_reward_applies_the_multiplier_of_the_position() {
    let pool = pool_with(100, 1000);
    let position = position_with(500, 15000, 0);
    assert_eq!(compute_pending_reward(&pool, &position, 10), Ok(750));
}

#[test]
fn pending_reward_rejects_a_clock_that_ran_backwards() {
    let pool = pool_with(100, 1000);
    let position = position_with(500, 10000, 1_000);
    assert_eq!(compute_pending_reward(&pool, &position, 999), Err(ErrorCode::MathOverflow));
}

#[test]
fn pending_reward_overflow() {
    let pool = pool_with(u64::MAX, 1000);
    let position = position_with(500, 10000, 0);
    assert_eq!(compute_pending_reward(&pool, &position, 2), Err(ErrorCode::MathOverflow));
}
