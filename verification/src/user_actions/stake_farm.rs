//! Staking: tokens enter the farm and the caller gets a receipt for them at
//! the current share price. Receipts that the caller hands in with the
//! tokens are settled and go into the new receipt.

use crate::base_impl_wrapper::{FarmStakingWrapper, lemma_user_increased, user_increased};
use crate::common::{Address, GuildError, Nonce, Payment, PaymentView, payment_views};
use crate::config::lookup_user;
use crate::farm_base_impl::{Settlement, SettlementView, lemma_settle_from, settle};
use crate::guild::{Guild, GuildView};
use crate::ledger::{lemma_mint, lemma_mint_prices, lemma_prices_rise};
use crate::storage_cache::StorageView;
use crate::tiered_rewards::{GuildConfig, ReadConfigModule};
use crate::token_attributes::AttributesView;
use crate::user_actions::claim_stake_farm_rewards::{ClaimRewardsResult, ClaimRewardsResultView};
use vstd::prelude::*;

verus! {

/// The attributes of the receipt for a stake of `amount` together with what
/// settled receipts bring along.
pub open spec fn staked_attributes(storage: StorageView, settlement: SettlementView, amount: nat)
    -> AttributesView {
    AttributesView {
        reward_per_share: storage.reward_per_share,
        compounded_reward: settlement.compounded,
        current_farm_amount: settlement.amount + amount,
    }
}

impl GuildView {
    /// The guild after `caller` staked `payment` in block `block`, together
    /// with the receipts `additional`, and what the caller gets: one receipt
    /// for all of it, and the rewards that the receipts handed in had
    /// earned; or why the stake is refused. The caller has to reach
    /// `min_stake` in total, and the guild may not come to hold more than
    /// `max_staked_tokens`.
    pub open spec fn stake_farm(
        self,
        caller: Address,
        payment: PaymentView,
        additional: Seq<PaymentView>,
        min_stake: nat,
        max_staked_tokens: nat,
        block: Nonce,
    ) -> Result<(GuildView, ClaimRewardsResultView), GuildError> {
        let storage = self.storage.aggregated(block);
        if self.storage.guild_closing {
            Err(GuildError::GuildClosing)
        } else if self.storage.state_error() is Some {
            Err(self.storage.state_error()->0)
        } else if payment.token != self.storage.farming_token_id || payment.nonce != 0 {
            Err(GuildError::InvalidToken)
        } else if payment.amount == 0 {
            Err(GuildError::ZeroAmount)
        } else {
            match settle(self.farm_token, storage, caller, additional) {
                Err(e) => Err(e),
                Ok(settlement) => if settlement.rewards > storage.reward_reserve {
                    Err(GuildError::InsufficientReserve)
                } else if lookup_user(self.users, caller).position.total_farm_position
                    + payment.amount < min_stake {
                    Err(GuildError::InsufficientStake)
                } else if storage.farm_token_supply + payment.amount > max_staked_tokens {
                    Err(GuildError::StakeLimitReached)
                } else if settlement.ledger.last_nonce == u64::MAX {
                    Err(GuildError::NonceExhausted)
                } else {
                    let attributes = staked_attributes(storage, settlement, payment.amount);
                    Ok(
                        (
                            GuildView {
                                storage: StorageView {
                                    farm_token_supply: storage.farm_token_supply
                                        + payment.amount,
                                    reward_reserve: (storage.reward_reserve
                                        - settlement.rewards) as nat,
                                    ..storage
                                },
                                farm_token: settlement.ledger.mint(caller, attributes),
                                users: user_increased(self.users, caller, payment.amount),
                                ..self
                            },
                            ClaimRewardsResultView {
                                new_farm_token: PaymentView {
                                    token: storage.farm_token_id->0,
                                    nonce: (settlement.ledger.last_nonce + 1) as Nonce,
                                    amount: attributes.current_farm_amount,
                                },
                                new_attributes: attributes,
                                old_attributes: settlement.parts,
                                rewards: PaymentView {
                                    token: storage.reward_token_id,
                                    nonce: 0,
                                    amount: settlement.rewards,
                                },
                            },
                        ),
                    )
                },
            }
        }
    }
}

/// A stake keeps the guild well formed, does not lower the reward per share,
/// and raises the farm token supply by the amount staked. The newest receipt
/// of the guild is then the caller's, and it stands for the stake and for
/// what the receipts handed in stood for.
pub proof fn lemma_stake_farm(
    g: GuildView,
    caller: Address,
    payment: PaymentView,
    additional: Seq<PaymentView>,
    min_stake: nat,
    max_staked_tokens: nat,
    block: Nonce,
)
    requires
        g.wf(),
        g.stake_farm(caller, payment, additional, min_stake, max_staked_tokens, block) is Ok,
    ensures
        ({
            let r = g.stake_farm(
                caller,
                payment,
                additional,
                min_stake,
                max_staked_tokens,
                block,
            )->Ok_0;
            &&& r.0.wf()
            &&& r.0.storage.reward_per_share >= g.storage.reward_per_share
            &&& r.0.storage.farm_token_supply == g.storage.farm_token_supply + payment.amount
            &&& r.0.farm_token.positions.len() > 0
            &&& r.0.farm_token.positions.last().owner == caller
            &&& r.0.farm_token.positions.last().nonce == r.1.new_farm_token.nonce
            &&& r.0.farm_token.positions.last().amount == r.1.new_farm_token.amount
            &&& r.1.new_farm_token.amount >= payment.amount
            &&& additional.len() == 0 ==> r.1.new_farm_token.amount == payment.amount
                && r.1.rewards.amount == 0
        }),
{
    let storage = g.storage.aggregated(block);
    let start = SettlementView::start(g.farm_token);
    let settlement = settle(g.farm_token, storage, caller, additional)->Ok_0;
    let attributes = staked_attributes(storage, settlement, payment.amount);
    lemma_prices_rise(
        g.farm_token.positions,
        g.storage.reward_per_share,
        storage.reward_per_share,
    );
    lemma_settle_from(start, storage, caller, additional, 0);
    lemma_mint(settlement.ledger, caller, attributes);
    lemma_mint_prices(settlement.ledger, caller, attributes, storage.reward_per_share);
    lemma_user_increased(g.users, caller, payment.amount);
}

impl Guild {
    /// Takes `payment` into the farm for `caller`, settles the receipts in
    /// `additional_payments`, and gives the caller one receipt for all of it
    /// at the share price of `current_block_nonce`, with the rewards that the
    /// receipts handed in had earned.
    pub fn stake_farm(
        &mut self,
        caller: Address,
        payment: Payment,
        additional_payments: &Vec<Payment>,
        config: &GuildConfig,
        current_block_nonce: Nonce,
    ) -> (r: Result<ClaimRewardsResult, GuildError>)
        requires
            old(self)@.wf(),
        ensures
            final(self)@.wf(),
            final(self)@.storage.reward_per_share >= old(self)@.storage.reward_per_share,
            match r {
                Ok(out) => old(self)@.stake_farm(
                    caller,
                    payment@,
                    payment_views(additional_payments@),
                    config.min_stake(caller == old(self)@.guild_master),
                    config.max_staked_tokens(),
                    current_block_nonce,
                ) == Ok::<(GuildView, ClaimRewardsResultView), GuildError>((final(self)@, out@)),
                Err(e) => old(self)@.stake_farm(
                    caller,
                    payment@,
                    payment_views(additional_payments@),
                    config.min_stake(caller == old(self)@.guild_master),
                    config.max_staked_tokens(),
                    current_block_nonce,
                ) == Err::<(GuildView, ClaimRewardsResultView), GuildError>(e) && final(self)@
                    == old(self)@,
            },
    {
        if self.storage.guild_closing {
            return Err(GuildError::GuildClosing);
        }
        let mut storage_cache = self.storage.dup();
        let farm_token_id = match storage_cache.validate_contract_state() {
            Ok(token) => token,
            Err(e) => {
                return Err(e);
            },
        };
        if payment.token != storage_cache.farming_token_id || payment.nonce != 0 {
            return Err(GuildError::InvalidToken);
        }
        if payment.amount.is_zero() {
            return Err(GuildError::ZeroAmount);
        }
        FarmStakingWrapper::generate_aggregated_rewards(&mut storage_cache, current_block_nonce);
        let settlement = match FarmStakingWrapper::settle_positions(
            &self.farm_token,
            &storage_cache,
            caller,
            additional_payments,
        ) {
            Ok(settlement) => settlement,
            Err(e) => {
                return Err(e);
            },
        };
        if storage_cache.reward_reserve.lt(&settlement.rewards) {
            return Err(GuildError::InsufficientReserve);
        }
        let min_stake = config.get_min_stake_for_user(self.guild_master, caller);
        let user_total = self.users.get(caller).position.total_farm_position.plus(
            &payment.amount,
        );
        if user_total.lt(&min_stake) {
            return Err(GuildError::InsufficientStake);
        }
        let new_supply = storage_cache.farm_token_supply.plus(&payment.amount);
        if config.max_staked_tokens.lt(&new_supply) {
            return Err(GuildError::StakeLimitReached);
        }
        if settlement.ledger.last_nonce() == u64::MAX {
            return Err(GuildError::NonceExhausted);
        }
        proof {
            lemma_stake_farm(
                self@,
                caller,
                payment@,
                payment_views(additional_payments@),
                config.min_stake(caller == self@.guild_master),
                config.max_staked_tokens(),
                current_block_nonce,
            );
            let start = SettlementView::start(self@.farm_token);
            lemma_prices_rise(
                self@.farm_token.positions,
                self@.storage.reward_per_share,
                storage_cache@.reward_per_share,
            );
            lemma_settle_from(
                start,
                storage_cache@,
                caller,
                payment_views(additional_payments@),
                0,
            );
        }
        let Settlement { ledger, amount, compounded, rewards, parts } = settlement;
        let mut ledger = ledger;
        storage_cache.farm_token_supply = new_supply;
        storage_cache.reward_reserve = storage_cache.reward_reserve.minus(&rewards);
        let mut attributes = FarmStakingWrapper::create_enter_farm_initial_attributes(
            payment.amount.plus(&amount),
            storage_cache.reward_per_share.dup(),
        );
        attributes.compounded_reward = compounded;
        let new_amount = attributes.get_total_supply();
        let new_attributes = attributes.dup();
        let nonce = ledger.mint(caller, attributes);
        FarmStakingWrapper::increase_user_farm_position(&mut self.users, caller, &payment.amount);
        let reward_token_id = storage_cache.reward_token_id;
        self.farm_token = ledger;
        self.storage = storage_cache;
        Ok(
            ClaimRewardsResult {
                new_farm_token: Payment::new(farm_token_id, nonce, new_amount),
                new_attributes,
                old_attributes: parts,
                rewards: Payment::new(reward_token_id, 0, rewards),
            },
        )
    }
}

} // verus!
