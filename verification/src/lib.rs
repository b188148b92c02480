//! Share-based reward accounting and position lifecycle of a staking guild.
//!
//! A guild takes stakes of one token and hands out rewards in the same token.
//! Rewards fall due block by block and are shared among the stakers through
//! one number, the reward per share; each position receipt remembers the
//! reward per share of its mint, so what a position has earned is known when
//! its receipt is handed in. Nothing runs between calls: every call first
//! sets aside the rewards that fell due since the last one.

pub mod amount;
pub mod base_impl_wrapper;
pub mod common;
pub mod config;
pub mod farm_base_impl;
pub mod guild;
pub mod laws;
pub mod ledger;
pub mod solvency;
pub mod storage_cache;
pub mod tiered_rewards;
pub mod token_attributes;
pub mod unbond_token;
pub mod user_actions;

use crate::amount::Amount;
use crate::base_impl_wrapper::FarmStakingWrapper;
use crate::common::{
    Address, Epoch, GuildError, MAX_MIN_UNBOND_EPOCHS, Nonce, Payment, PaymentView, State,
    TokenId, payment_views,
};
use crate::config::{ConfigModule, UserBook};
use crate::guild::{Guild, GuildView};
use crate::ledger::{FarmLedger, FarmLedgerView};
use crate::storage_cache::{StorageCache, StorageView};
use crate::token_attributes::StakingFarmTokenAttributes;
use crate::unbond_token::{UnbondLedger, UnbondLedgerView};
use crate::user_actions::claim_only_boosted_staking_rewards::ClaimOnlyBoostedStakingRewardsModule;
use crate::user_actions::claim_stake_farm_rewards::{ClaimRewardsResult, ClaimRewardsResultView};
use vstd::prelude::*;

verus! {

/// Why a guild cannot be set up with these values, if it cannot.
pub open spec fn init_error(
    division_safety_constant: nat,
    max_apr: nat,
    min_unbond_epochs: Epoch,
    first_week_start_epoch: Epoch,
    current_epoch: Epoch,
) -> Option<GuildError> {
    if division_safety_constant == 0 {
        Some(GuildError::InvalidDivisionSafetyConstant)
    } else if first_week_start_epoch < current_epoch {
        Some(GuildError::InvalidStartEpoch)
    } else if max_apr == 0 {
        Some(GuildError::InvalidMaxApr)
    } else if min_unbond_epochs > MAX_MIN_UNBOND_EPOCHS {
        Some(GuildError::InvalidMinUnbondEpochs)
    } else {
        None
    }
}

impl GuildView {
    /// A guild as it is set up: paused, without tokens of its own, stakes,
    /// rewards or users. It stakes and rewards `farming_token_id`.
    pub open spec fn initial(
        farming_token_id: TokenId,
        division_safety_constant: nat,
        max_apr: nat,
        min_unbond_epochs: Epoch,
        owner: Address,
        guild_master: Address,
        first_week_start_epoch: Epoch,
        admins: Seq<Address>,
    ) -> GuildView {
        GuildView {
            storage: StorageView {
                contract_state: State::Inactive,
                farm_token_id: None,
                farming_token_id,
                reward_token_id: farming_token_id,
                farm_token_supply: 0,
                reward_reserve: 0,
                reward_per_share: 0,
                division_safety_constant,
                accumulated_rewards: 0,
                reward_capacity: 0,
                per_block_reward_amount: 0,
                max_annual_percentage_rewards: max_apr,
                last_reward_block_nonce: 0,
                guild_closing: false,
            },
            farm_token: FarmLedgerView { positions: Seq::empty(), last_nonce: 0 },
            unbond_token: UnbondLedgerView { positions: Seq::empty(), last_nonce: 0 },
            unbond_token_id: None,
            users: Seq::empty(),
            guild_master,
            owner,
            admins,
            first_week_start_epoch,
            min_unbond_epochs,
            farm_position_migration_nonce: None,
        }
    }

    /// The guild after `caller` merged `payments` in block `block`, with
    /// `boosted_rewards` fallen due to the caller, and what the caller gets;
    /// or why the call is refused. Old receipts among the payments count
    /// towards the caller's total from now on, the boosted rewards leave the
    /// reserve and are set aside for the caller, and the receipts are settled
    /// one by one before one receipt takes their place.
    pub open spec fn merge_farm_tokens(
        self,
        caller: Address,
        payments: Seq<PaymentView>,
        boosted_rewards: nat,
        block: Nonce,
    ) -> Result<(GuildView, ClaimRewardsResultView), GuildError> {
        match self.migrate_old_farm_positions(caller, payments).claim_only_boosted_payment(
            boosted_rewards,
        ) {
            Err(e) => Err(e),
            Ok(paid) => paid.add_boosted_rewards(caller, boosted_rewards).claim_rewards(
                caller,
                payments,
                block,
            ),
        }
    }

    /// What `farm_token_amount` units of a receipt with `reward_per_share`
    /// would have earned by block `block`, if `caller` is the guild itself
    /// at `sc_address`.
    pub open spec fn calculate_rewards_for_given_position(
        self,
        caller: Address,
        sc_address: Address,
        farm_token_amount: nat,
        reward_per_share: nat,
        block: Nonce,
    ) -> Result<nat, GuildError> {
        let storage = self.storage.aggregated(block);
        if caller != sc_address {
            Err(GuildError::NotQueried)
        } else if reward_per_share > storage.reward_per_share {
            Err(GuildError::NegativeReward)
        } else {
            Ok(storage.reward_for(farm_token_amount, reward_per_share))
        }
    }
}

/// The guild as a whole: its setup and the calls that span its parts.
pub trait FarmStaking: View<V = GuildView> + Sized {
    /// Sets up a guild that stakes and rewards `farming_token_id`.
    fn init(
        farming_token_id: TokenId,
        division_safety_constant: Amount,
        max_apr: Amount,
        min_unbond_epochs: Epoch,
        owner: Address,
        guild_master: Address,
        first_week_start_epoch: Epoch,
        admins: Vec<Address>,
        current_epoch: Epoch,
    ) -> (r: Result<Self, GuildError>)
        ensures
            match r {
                Ok(guild) => init_error(
                    division_safety_constant@,
                    max_apr@,
                    min_unbond_epochs,
                    first_week_start_epoch,
                    current_epoch,
                ) is None && guild@ == GuildView::initial(
                    farming_token_id,
                    division_safety_constant@,
                    max_apr@,
                    min_unbond_epochs,
                    owner,
                    guild_master,
                    first_week_start_epoch,
                    admins@,
                ) && guild@.wf(),
                Err(e) => init_error(
                    division_safety_constant@,
                    max_apr@,
                    min_unbond_epochs,
                    first_week_start_epoch,
                    current_epoch,
                ) == Some(e),
            },
    ;

    /// Brings a guild from before totals were kept up to date: from now on
    /// new receipts count towards their holder's total.
    fn upgrade(&mut self)
        requires
            old(self)@.wf(),
        ensures
            final(self)@.wf(),
            final(self)@ == (GuildView {
                farm_position_migration_nonce: if old(self)@.farm_position_migration_nonce
                    is Some {
                    old(self)@.farm_position_migration_nonce
                } else {
                    Some(old(self)@.next_migration_nonce())
                },
                ..old(self)@
            }),
    ;

    /// Merges the receipts that `caller` hands in into one, after settling
    /// each of them; `boosted_rewards` is what fell due to the caller in
    /// boosted rewards.
    fn merge_farm_tokens_endpoint(
        &mut self,
        caller: Address,
        payments: &Vec<Payment>,
        boosted_rewards: Amount,
        current_block_nonce: Nonce,
    ) -> (r: Result<ClaimRewardsResult, GuildError>)
        requires
            old(self)@.wf(),
        ensures
            final(self)@.wf(),
            final(self)@.storage.reward_per_share >= old(self)@.storage.reward_per_share,
            final(self)@.storage.farm_token_supply == old(self)@.storage.farm_token_supply,
            match r {
                Ok(out) => old(self)@.merge_farm_tokens(
                    caller,
                    payment_views(payments@),
                    boosted_rewards@,
                    current_block_nonce,
                ) == Ok::<(GuildView, ClaimRewardsResultView), GuildError>((final(self)@, out@)),
                Err(e) => old(self)@.merge_farm_tokens(
                    caller,
                    payment_views(payments@),
                    boosted_rewards@,
                    current_block_nonce,
                ) == Err::<(GuildView, ClaimRewardsResultView), GuildError>(e) && final(self)@
                    == old(self)@,
            },
    ;

    /// Works out, without changing the guild, what a position would have
    /// earned by `current_block_nonce`.
    fn calculate_rewards_for_given_position(
        &self,
        caller: Address,
        sc_address: Address,
        farm_token_amount: Amount,
        attributes: StakingFarmTokenAttributes,
        current_block_nonce: Nonce,
    ) -> (r: Result<Amount, GuildError>)
        requires
            self@.wf(),
        ensures
            match r {
                Ok(reward) => self@.calculate_rewards_for_given_position(
                    caller,
                    sc_address,
                    farm_token_amount@,
                    attributes@.reward_per_share,
                    current_block_nonce,
                ) == Ok::<nat, GuildError>(reward@),
                Err(e) => self@.calculate_rewards_for_given_position(
                    caller,
                    sc_address,
                    farm_token_amount@,
                    attributes@.reward_per_share,
                    current_block_nonce,
                ) == Err::<nat, GuildError>(e),
            },
    ;

    /// Refuses a simulation that another account than the guild itself asks
    /// for.
    fn require_queried(caller: Address, sc_address: Address) -> (r: Result<(), GuildError>)
        ensures
            r is Ok <==> caller == sc_address,
            r is Err ==> r == Err::<(), GuildError>(GuildError::NotQueried),
    ;
}

impl FarmStaking for Guild {
    fn init(
        farming_token_id: TokenId,
        division_safety_constant: Amount,
        max_apr: Amount,
        min_unbond_epochs: Epoch,
        owner: Address,
        guild_master: Address,
        first_week_start_epoch: Epoch,
        admins: Vec<Address>,
        current_epoch: Epoch,
    ) -> (r: Result<Self, GuildError>) {
        if division_safety_constant.is_zero() {
            return Err(GuildError::InvalidDivisionSafetyConstant);
        }
        if first_week_start_epoch < current_epoch {
            return Err(GuildError::InvalidStartEpoch);
        }
        if max_apr.is_zero() {
            return Err(GuildError::InvalidMaxApr);
        }
        if min_unbond_epochs > MAX_MIN_UNBOND_EPOCHS {
            return Err(GuildError::InvalidMinUnbondEpochs);
        }
        let guild = Guild {
            storage: StorageCache {
                contract_state: State::Inactive,
                farm_token_id: None,
                farming_token_id,
                reward_token_id: farming_token_id,
                farm_token_supply: Amount::zero(),
                reward_reserve: Amount::zero(),
                reward_per_share: Amount::zero(),
                division_safety_constant,
                accumulated_rewards: Amount::zero(),
                reward_capacity: Amount::zero(),
                per_block_reward_amount: Amount::zero(),
                max_annual_percentage_rewards: max_apr,
                last_reward_block_nonce: 0,
                guild_closing: false,
            },
            farm_token: FarmLedger::new(),
            unbond_token: UnbondLedger::new(),
            unbond_token_id: None,
            users: UserBook::new(),
            guild_master,
            owner,
            admins,
            first_week_start_epoch,
            min_unbond_epochs,
            farm_position_migration_nonce: None,
        };
        assert(guild@.farm_token.positions =~= Seq::empty());
        assert(guild@.unbond_token.positions =~= Seq::empty());
        assert(guild@.users =~= Seq::empty());
        Ok(guild)
    }

    fn upgrade(&mut self) {
        self.try_set_farm_position_migration_nonce();
    }

    fn merge_farm_tokens_endpoint(
        &mut self,
        caller: Address,
        payments: &Vec<Payment>,
        boosted_rewards: Amount,
        current_block_nonce: Nonce,
    ) -> (r: Result<ClaimRewardsResult, GuildError>) {
        let mut guild = self.dup();
        guild.migrate_old_farm_positions(caller, payments);
        let boosted_rewards = match guild.claim_only_boosted_payment(boosted_rewards) {
            Ok(reward) => reward,
            Err(e) => {
                return Err(e);
            },
        };
        guild.add_boosted_rewards(caller, &boosted_rewards);
        let merged = match guild.claim_rewards(caller, payments, current_block_nonce) {
            Ok(merged) => merged,
            Err(e) => {
                return Err(e);
            },
        };
        *self = guild;
        Ok(merged)
    }

    fn calculate_rewards_for_given_position(
        &self,
        caller: Address,
        sc_address: Address,
        farm_token_amount: Amount,
        attributes: StakingFarmTokenAttributes,
        current_block_nonce: Nonce,
    ) -> (r: Result<Amount, GuildError>) {
        match Self::require_queried(caller, sc_address) {
            Ok(_) => {},
            Err(e) => {
                return Err(e);
            },
        }
        let mut storage_cache = self.storage.dup();
        FarmStakingWrapper::generate_aggregated_rewards(&mut storage_cache, current_block_nonce);
        FarmStakingWrapper::calculate_rewards(&farm_token_amount, &attributes, &storage_cache)
    }

    fn require_queried(caller: Address, sc_address: Address) -> (r: Result<(), GuildError>) {
        if caller == sc_address {
            Ok(())
        } else {
            Err(GuildError::NotQueried)
        }
    }
}

} // verus!
