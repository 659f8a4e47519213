//! Read views over records that the downstream program persists.
use vstd::prelude::*;

pub mod amm_config;
pub mod observation;
pub mod observation_state;

pub use amm_config::AmmConfig;
pub use observation::Observation;
pub use observation_state::ObservationState;

verus! {

/// Seed to derive the pool address.
pub const POOL_SEED: &'static str = "pool";

/// Seed to derive the pool's lp mint address.
pub const POOL_LP_MINT_SEED: &'static str = "pool_lp_mint";

/// Seed to derive a pool vault address.
pub const POOL_VAULT_SEED: &'static str = "pool_vault";

/// Seed to derive the observation account address.
pub const OBSERVATION_SEED: &'static str = "observation";

/// Seed to derive a configuration account address.
pub const AMM_CONFIG_SEED: &'static str = "amm_config";

/// Number of samples in an observation series.
pub const OBSERVATION_NUM: usize = 100;

/// Default seconds between two observations.
pub const OBSERVATION_UPDATE_DURATION_DEFAULT: u64 = 15;

/// One in 32.32 fixed point: 2^32.
pub const Q32: u128 = 4294967296;

/// Operations whose availability a pool's status bits control.
pub enum PoolStatusBitIndex {
    Deposit,
    Withdraw,
    Swap,
}

/// Whether a pool operation is enabled.
#[derive(PartialEq, Eq, Structural)]
pub enum PoolStatusBitFlag {
    Enable,
    Disable,
}

} // verus!
