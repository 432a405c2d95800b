use vstd::prelude::*;

verus! {

/// Basis points that make one whole: 10000 bp = 100% = a multiplier of 1.0.
pub const BASIS_POINTS: u64 = 10000;

/// The multiplier of a flexible position, in basis points: 1.0.
pub const BASE_MULTIPLIER: u16 = 10000;

/// `lock_type` of a position that can be withdrawn at any time.
pub const FLEXIBLE: u8 = 0;

/// `lock_type` of a position that is held until its maturity timestamp.
pub const LOCKED: u8 = 1;

/// The registry: who controls the system, and how many pools were ever created.
#[derive(Clone, Copy, Debug, PartialEq, Eq)]
pub struct GlobalState {
    /// Identity of the controlling party.
    pub authority: [u8; 32],
    /// Number of pools created so far. It only grows.
    pub pool_count: u64,
}

/// One staking pool: its configuration and its aggregate state.
#[derive(Clone, Copy, Debug, PartialEq, Eq)]
pub struct Pool {
    /// Identifier of the pool, the key of its record.
    pub pool_id: [u8; 32],
    /// The asset that is deposited.
    pub stake_asset: [u8; 32],
    /// The asset that stands for a deposit.
    pub receipt_asset: [u8; 32],
    /// The asset that rewards are paid in.
    pub reward_asset: [u8; 32],
    /// Reward units emitted per second while anything is staked.
    pub reward_per_second: u64,
    /// Seconds for which a locked deposit is held.
    pub lock_duration: u64,
    /// Basis points added to the multiplier of a locked deposit.
    pub lock_bonus_bp: u16,
    /// Sum of the amounts staked in the pool.
    pub total_staked: u64,
    /// Running total of rewards accounted for. It only grows.
    pub total_reward_distributed: u64,
    /// When the running total was last brought up to date.
    pub last_update_timestamp: i64,
    /// The party that may change the pool's parameters.
    pub authority: [u8; 32],
}

/// The position of one owner in one pool.
#[derive(Clone, Copy, Debug, PartialEq, Eq)]
pub struct User {
    /// Amount currently staked.
    pub amount: u64,
    /// `LOCKED` for a locked position; any other value, by convention
    /// `FLEXIBLE`, for a flexible one. Fixed by the deposit that opens the
    /// position.
    pub lock_type: u8,
    /// When the lock began; 0 for a flexible position.
    pub lock_start_timestamp: i64,
    /// When the lock ends; 0 for a flexible position.
    pub lock_end_timestamp: i64,
    /// Multiplier applied to rewards, in basis points; fixed with the lock.
    pub bonus_multiplier: u16,
    /// When rewards were last settled for this position.
    pub last_reward_claim_timestamp: i64,
}

impl User {
    /// The lock terms of the position agree with its lock type: a position that
    /// is not locked carries no lock timestamps and the base multiplier, a locked
    /// one matures no earlier than it began, and no multiplier is below 1.0.
    pub open spec fn wf(&self) -> bool {
        &&& self.bonus_multiplier >= BASE_MULTIPLIER
        &&& self.lock_type != LOCKED ==> {
            &&& self.lock_start_timestamp == 0
            &&& self.lock_end_timestamp == 0
            &&& self.bonus_multiplier == BASE_MULTIPLIER
        }
        &&& self.lock_type == LOCKED ==> self.lock_start_timestamp <= self.lock_end_timestamp
    }

    /// The position was opened as a locked one under `pool`'s terms at `opened_at`.
    pub open spec fn locked_under(&self, pool: Pool, opened_at: i64) -> bool {
        &&& self.lock_type == LOCKED
        &&& self.lock_start_timestamp == opened_at
        &&& self.lock_end_timestamp == opened_at + pool.lock_duration
        &&& self.bonus_multiplier == BASE_MULTIPLIER + pool.lock_bonus_bp
    }

    /// The position holds nothing, so that the next deposit opens it anew.
    pub open spec fn vacant(&self) -> bool {
        self.amount == 0
    }

    /// The two positions have the same lock terms: type, start, maturity and
    /// multiplier.
    pub open spec fn same_lock_terms(&self, other: User) -> bool {
        &&& self.lock_type == other.lock_type
        &&& self.lock_start_timestamp == other.lock_start_timestamp
        &&& self.lock_end_timestamp == other.lock_end_timestamp
        &&& self.bonus_multiplier == other.bonus_multiplier
    }

    /// Whether the position may not be withdrawn from or closed at `now`.
    pub open spec fn in_lock_period(&self, now: i64) -> bool {
        self.lock_type == LOCKED && now < self.lock_end_timestamp
    }

    /// Tells whether the position holds nothing.
    pub fn is_vacant(&self) -> (vacant: bool)
        ensures
            vacant == self.vacant(),
    {
        self.amount == 0
    }

    /// Tells whether the position is locked and has not matured at `now`.
    pub fn is_in_lock_period(&self, now: i64) -> (locked: bool)
        ensures
            locked == self.in_lock_period(now),
    {
        self.lock_type == LOCKED && now < self.lock_end_timestamp
    }
}

} // verus!
