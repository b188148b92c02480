//! Compounding: the receipts handed in are settled and their rewards folded
//! into the stake of the one receipt that takes their place.

use crate::amount::Amount;
use crate::base_impl_wrapper::{FarmStakingWrapper, lemma_user_increased, user_increased};
use crate::common::{Address, GuildError, Nonce, Payment, PaymentView, payment_views};
use crate::farm_base_impl::{
    Settlement, SettlementView, lemma_settle_from, merged_attributes, settle,
};
use crate::guild::{Guild, GuildView};
use crate::ledger::{lemma_mint, lemma_mint_prices, lemma_prices_rise};
use crate::storage_cache::{StorageCache, StorageView};
use crate::token_attributes::{AttributesView, StakingFarmTokenAttributes, attribute_views};
use vstd::prelude::*;

verus! {

/// A payment together with the attributes of the receipt it is made in.
#[derive(Debug)]
pub struct PaymentAttributesPair {
    pub payment: Payment,
    pub attributes: StakingFarmTokenAttributes,
}

/// A receipt and its attributes, as numbers.
pub struct PaymentAttributesPairView {
    pub payment: PaymentView,
    pub attributes: AttributesView,
}

impl View for PaymentAttributesPair {
    type V = PaymentAttributesPairView;

    open spec fn view(&self) -> PaymentAttributesPairView {
        PaymentAttributesPairView { payment: self.payment@, attributes: self.attributes@ }
    }
}

/// What compounding came to.
#[derive(Debug)]
pub struct InternalCompoundRewardsResult {
    /// The guild's counters after the call.
    pub storage_cache: StorageCache,
    pub new_farm_token: PaymentAttributesPair,
    /// The attributes of each part that was handed in, in order.
    pub old_attributes: Vec<StakingFarmTokenAttributes>,
    pub compounded_rewards: Amount,
    /// Whether more than one receipt went into the new one.
    pub created_with_merge: bool,
}

/// The outcome of compounding, as numbers.
pub struct InternalCompoundRewardsResultView {
    pub storage_cache: StorageView,
    pub new_farm_token: PaymentAttributesPairView,
    pub old_attributes: Seq<AttributesView>,
    pub compounded_rewards: nat,
    pub created_with_merge: bool,
}

impl View for InternalCompoundRewardsResult {
    type V = InternalCompoundRewardsResultView;

    open spec fn view(&self) -> InternalCompoundRewardsResultView {
        InternalCompoundRewardsResultView {
            storage_cache: self.storage_cache@,
            new_farm_token: self.new_farm_token@,
            old_attributes: attribute_views(self.old_attributes@),
            compounded_rewards: self.compounded_rewards@,
            created_with_merge: self.created_with_merge,
        }
    }
}

impl GuildView {
    /// The guild after `caller` compounded on `payments` in block `block`,
    /// and what came of it; or why the call is refused.
    pub open spec fn compound_rewards_base(
        self,
        caller: Address,
        payments: Seq<PaymentView>,
        block: Nonce,
    ) -> Result<(GuildView, InternalCompoundRewardsResultView), GuildError> {
        let storage = self.storage.aggregated(block);
        if self.storage.state_error() is Some {
            Err(self.storage.state_error()->0)
        } else if self.storage.farming_token_id != self.storage.reward_token_id {
            Err(GuildError::DifferentTokenIds)
        } else if payments.len() == 0 {
            Err(GuildError::NoPayments)
        } else {
            match settle(self.farm_token, storage, caller, payments) {
                Err(e) => Err(e),
                Ok(settlement) => if settlement.rewards > storage.reward_reserve {
                    Err(GuildError::InsufficientReserve)
                } else if settlement.ledger.last_nonce == u64::MAX {
                    Err(GuildError::NonceExhausted)
                } else {
                    let attributes = merged_attributes(storage, settlement, settlement.rewards);
                    let after = StorageView {
                        reward_reserve: (storage.reward_reserve - settlement.rewards) as nat,
                        farm_token_supply: storage.farm_token_supply + settlement.rewards,
                        ..storage
                    };
                    Ok(
                        (
                            GuildView {
                                storage: after,
                                farm_token: settlement.ledger.mint(caller, attributes),
                                users: user_increased(self.users, caller, settlement.rewards),
                                ..self
                            },
                            InternalCompoundRewardsResultView {
                                storage_cache: after,
                                new_farm_token: PaymentAttributesPairView {
                                    payment: PaymentView {
                                        token: storage.farm_token_id->0,
                                        nonce: (settlement.ledger.last_nonce + 1) as Nonce,
                                        amount: attributes.current_farm_amount,
                                    },
                                    attributes,
                                },
                                old_attributes: settlement.parts,
                                compounded_rewards: settlement.rewards,
                                created_with_merge: payments.len() > 1,
                            },
                        ),
                    )
                },
            }
        }
    }
}

/// Compounding keeps the guild well formed, does not lower the reward per
/// share, and raises the farm token supply by the rewards it folds in.
pub proof fn lemma_compound_rewards_base(
    g: GuildView,
    caller: Address,
    payments: Seq<PaymentView>,
    block: Nonce,
)
    requires
        g.wf(),
        g.compound_rewards_base(caller, payments, block) is Ok,
    ensures
        g.compound_rewards_base(caller, payments, block)->Ok_0.0.wf(),
        g.compound_rewards_base(caller, payments, block)->Ok_0.0.storage.reward_per_share
            >= g.storage.reward_per_share,
        g.compound_rewards_base(caller, payments, block)->Ok_0.0.storage.farm_token_supply
            == g.storage.farm_token_supply + g.compound_rewards_base(
            caller,
            payments,
            block,
        )->Ok_0.1.compounded_rewards,
{
    let storage = g.storage.aggregated(block);
    let start = SettlementView::start(g.farm_token);
    let settlement = settle(g.farm_token, storage, caller, payments)->Ok_0;
    let attributes = merged_attributes(storage, settlement, settlement.rewards);
    lemma_prices_rise(
        g.farm_token.positions,
        g.storage.reward_per_share,
        storage.reward_per_share,
    );
    lemma_settle_from(start, storage, caller, payments, 0);
    lemma_mint(settlement.ledger, caller, attributes);
    lemma_mint_prices(settlement.ledger, caller, attributes, storage.reward_per_share);
    lemma_user_increased(g.users, caller, settlement.rewards);
}

/// Compounding as the guild's base offers it.
pub trait BaseCompoundRewardsModule: View<V = GuildView> + Sized {
    /// Settles the receipts that `caller` hands in and gives the caller one
    /// receipt at the current share price for their stake and what they have
    /// earned up to `current_block_nonce`: the rewards leave the reserve and
    /// become stake.
    fn compound_rewards_base(
        &mut self,
        caller: Address,
        payments: &Vec<Payment>,
        current_block_nonce: Nonce,
    ) -> (r: Result<InternalCompoundRewardsResult, GuildError>)
        requires
            old(self)@.wf(),
        ensures
            final(self)@.wf(),
            final(self)@.storage.reward_per_share >= old(self)@.storage.reward_per_share,
            match r {
                Ok(out) => old(self)@.compound_rewards_base(
                    caller,
                    payment_views(payments@),
                    current_block_nonce,
                ) == Ok::<(GuildView, InternalCompoundRewardsResultView), GuildError>(
                    (final(self)@, out@),
                ),
                Err(e) => old(self)@.compound_rewards_base(
                    caller,
                    payment_views(payments@),
                    current_block_nonce,
                ) == Err::<(GuildView, InternalCompoundRewardsResultView), GuildError>(e)
                    && final(self)@ == old(self)@,
            },
    ;
}

impl BaseCompoundRewardsModule for Guild {
    fn compound_rewards_base(
        &mut self,
        caller: Address,
        payments: &Vec<Payment>,
        current_block_nonce: Nonce,
    ) -> (r: Result<InternalCompoundRewardsResult, GuildError>) {
        let mut storage_cache = self.storage.dup();
        let farm_token_id = match storage_cache.validate_contract_state() {
            Ok(token) => token,
            Err(e) => {
                return Err(e);
            },
        };
        if storage_cache.farming_token_id != storage_cache.reward_token_id {
            return Err(GuildError::DifferentTokenIds);
        }
        if payments.len() == 0 {
            return Err(GuildError::NoPayments);
        }
        FarmStakingWrapper::generate_aggregated_rewards(&mut storage_cache, current_block_nonce);
        let settlement = match FarmStakingWrapper::settle_positions(
            &self.farm_token,
            &storage_cache,
            caller,
            payments,
        ) {
            Ok(settlement) => settlement,
            Err(e) => {
                return Err(e);
            },
        };
        if storage_cache.reward_reserve.lt(&settlement.rewards) {
            return Err(GuildError::InsufficientReserve);
        }
        if settlement.ledger.last_nonce() == u64::MAX {
            return Err(GuildError::NonceExhausted);
        }
        proof {
            lemma_compound_rewards_base(
                self@,
                caller,
                payment_views(payments@),
                current_block_nonce,
            );
            let start = SettlementView::start(self@.farm_token);
            lemma_prices_rise(
                self@.farm_token.positions,
                self@.storage.reward_per_share,
                storage_cache@.reward_per_share,
            );
            lemma_settle_from(start, storage_cache@, caller, payment_views(payments@), 0);
        }
        let Settlement { ledger, amount, compounded, rewards, parts } = settlement;
        let mut ledger = ledger;
        storage_cache.reward_reserve = storage_cache.reward_reserve.minus(&rewards);
        storage_cache.farm_token_supply = storage_cache.farm_token_supply.plus(&rewards);
        let attributes = FarmStakingWrapper::create_compound_rewards_initial_attributes(
            StakingFarmTokenAttributes {
                reward_per_share: storage_cache.reward_per_share.dup(),
                compounded_reward: compounded,
                current_farm_amount: amount,
            },
            storage_cache.reward_per_share.dup(),
            &rewards,
        );
        let new_attributes = attributes.dup();
        let new_amount = attributes.get_total_supply();
        let nonce = ledger.mint(caller, attributes);
        FarmStakingWrapper::increase_user_farm_position(&mut self.users, caller, &rewards);
        self.farm_token = ledger;
        self.storage = storage_cache.dup();
        Ok(
            InternalCompoundRewardsResult {
                storage_cache,
                new_farm_token: PaymentAttributesPair {
                    payment: Payment::new(farm_token_id, nonce, new_amount),
                    attributes: new_attributes,
                },
                old_attributes: parts,
                compounded_rewards: rewards,
                created_with_merge: payments.len() > 1,
            },
        )
    }
}

} // verus!
