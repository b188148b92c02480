//! The calls that users make on a guild.

pub mod claim_only_boosted_staking_rewards;
pub mod claim_stake_farm_rewards;
pub mod close_guild;
pub mod migration;
pub mod stake_farm;
pub mod unbond_farm;
pub mod unstake_farm;
