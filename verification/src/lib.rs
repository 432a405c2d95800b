//! A staking ledger.
//!
//! A controlling party sets up pools that take deposits of an asset. A deposit
//! earns rewards in proportion to time and to its share of the pool, and may be
//! locked for a bonus. The crate holds the records of that ledger and the rules
//! by which each operation changes them. It keeps no records itself and reads
//! no clock: every operation is given the records it works on and the current
//! time, and either changes the records as its contract says or rejects the
//! request and leaves them as they were.

pub mod errors;
pub mod laws;
pub mod pool;
pub mod registry;
pub mod rewards;
pub mod staking;
pub mod state;

pub use errors::ErrorCode;
pub use pool::{catch_up_rewards, update_pool};
pub use registry::{create_pool, initialize};
pub use rewards::{compute_pending_reward, compute_reward, compute_share_bp, elapsed_seconds};
pub use staking::{claim_rewards, close_user_account, create_user_account, stake, unstake};
pub use state::{GlobalState, Pool, User, BASE_MULTIPLIER, BASIS_POINTS, FLEXIBLE, LOCKED};
