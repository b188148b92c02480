//! Claiming: the receipts handed in are settled, their rewards paid out, and
//! one receipt at the current share price takes their place.

use crate::base_impl_wrapper::FarmStakingWrapper;
use crate::common::{Address, GuildError, Nonce, Payment, PaymentView, payment_views};
use crate::farm_base_impl::{
    Settlement, SettlementView, lemma_settle_from, merged_attributes, settle,
};
use crate::guild::{Guild, GuildView};
use crate::ledger::{lemma_mint, lemma_mint_prices, lemma_prices_rise};
use crate::storage_cache::StorageView;
use crate::token_attributes::{AttributesView, StakingFarmTokenAttributes, attribute_views};
use vstd::prelude::*;

verus! {

/// What a call that settles receipts hands back: the new receipt and the
/// rewards, with the attributes of the receipt that was minted and of each
/// part that was handed in, for the record of the call.
#[derive(Debug)]
pub struct ClaimRewardsResult {
    pub new_farm_token: Payment,
    pub new_attributes: StakingFarmTokenAttributes,
    pub old_attributes: Vec<StakingFarmTokenAttributes>,
    pub rewards: Payment,
}

/// The outcome of a call that settles receipts, as numbers.
pub struct ClaimRewardsResultView {
    pub new_farm_token: PaymentView,
    pub new_attributes: AttributesView,
    pub old_attributes: Seq<AttributesView>,
    pub rewards: PaymentView,
}

impl View for ClaimRewardsResult {
    type V = ClaimRewardsResultView;

    open spec fn view(&self) -> ClaimRewardsResultView {
        ClaimRewardsResultView {
            new_farm_token: self.new_farm_token@,
            new_attributes: self.new_attributes@,
            old_attributes: attribute_views(self.old_attributes@),
            rewards: self.rewards@,
        }
    }
}

impl GuildView {
    /// The guild after `caller` claimed on `payments` in block `block`, and
    /// what the caller gets; or why the claim is refused.
    pub open spec fn claim_rewards(
        self,
        caller: Address,
        payments: Seq<PaymentView>,
        block: Nonce,
    ) -> Result<(GuildView, ClaimRewardsResultView), GuildError> {
        let storage = self.storage.aggregated(block);
        if self.storage.state_error() is Some {
            Err(self.storage.state_error()->0)
        } else if payments.len() == 0 {
            Err(GuildError::NoPayments)
        } else {
            match settle(self.farm_token, storage, caller, payments) {
                Err(e) => Err(e),
                Ok(settlement) => if settlement.rewards > storage.reward_reserve {
                    Err(GuildError::InsufficientReserve)
                } else if settlement.ledger.last_nonce == u64::MAX {
                    Err(GuildError::NonceExhausted)
                } else {
                    Ok(
                        (
                            GuildView {
                                storage: StorageView {
                                    reward_reserve: (storage.reward_reserve
                                        - settlement.rewards) as nat,
                                    ..storage
                                },
                                farm_token: settlement.ledger.mint(
                                    caller,
                                    merged_attributes(storage, settlement, 0),
                                ),
                                ..self
                            },
                            ClaimRewardsResultView {
                                new_farm_token: PaymentView {
                                    token: storage.farm_token_id->0,
                                    nonce: (settlement.ledger.last_nonce + 1) as Nonce,
                                    amount: settlement.amount,
                                },
                                new_attributes: merged_attributes(storage, settlement, 0),
                                old_attributes: settlement.parts,
                                rewards: PaymentView {
                                    token: storage.reward_token_id,
                                    nonce: 0,
                                    amount: settlement.rewards,
                                },
                            },
                        ),
                    )
                },
            }
        }
    }
}

/// A claim keeps the guild well formed and does not lower the reward per
/// share.
pub proof fn lemma_claim_rewards(
    g: GuildView,
    caller: Address,
    payments: Seq<PaymentView>,
    block: Nonce,
)
    requires
        g.wf(),
        g.claim_rewards(caller, payments, block) is Ok,
    ensures
        g.claim_rewards(caller, payments, block)->Ok_0.0.wf(),
        g.claim_rewards(caller, payments, block)->Ok_0.0.storage.reward_per_share
            >= g.storage.reward_per_share,
        g.claim_rewards(caller, payments, block)->Ok_0.0.storage.farm_token_supply
            == g.storage.farm_token_supply,
{
    let storage = g.storage.aggregated(block);
    let start = SettlementView::start(g.farm_token);
    let settlement = settle(g.farm_token, storage, caller, payments)->Ok_0;
    lemma_prices_rise(
        g.farm_token.positions,
        g.storage.reward_per_share,
        storage.reward_per_share,
    );
    lemma_settle_from(start, storage, caller, payments, 0);
    lemma_mint(settlement.ledger, caller, merged_attributes(storage, settlement, 0));
    lemma_mint_prices(
        settlement.ledger,
        caller,
        merged_attributes(storage, settlement, 0),
        storage.reward_per_share,
    );
}

impl Guild {
    /// Settles the receipts that `caller` hands in, pays out what they have
    /// earned up to `current_block_nonce`, and gives the caller one receipt
    /// for the same stake at the current share price.
    pub fn claim_rewards(
        &mut self,
        caller: Address,
        payments: &Vec<Payment>,
        current_block_nonce: Nonce,
    ) -> (r: Result<ClaimRewardsResult, GuildError>)
        requires
            old(self)@.wf(),
        ensures
            final(self)@.wf(),
            final(self)@.storage.reward_per_share >= old(self)@.storage.reward_per_share,
            final(self)@.storage.farm_token_supply == old(self)@.storage.farm_token_supply,
            match r {
                Ok(out) => old(self)@.claim_rewards(
                    caller,
                    payment_views(payments@),
                    current_block_nonce,
                ) == Ok::<(GuildView, ClaimRewardsResultView), GuildError>((final(self)@, out@)),
                Err(e) => old(self)@.claim_rewards(
                    caller,
                    payment_views(payments@),
                    current_block_nonce,
                ) == Err::<(GuildView, ClaimRewardsResultView), GuildError>(e) && final(self)@
                    == old(self)@,
            },
    {
        let mut storage_cache = self.storage.dup();
        let farm_token_id = match storage_cache.validate_contract_state() {
            Ok(token) => token,
            Err(e) => {
                return Err(e);
            },
        };
        if payments.len() == 0 {
            return Err(GuildError::NoPayments);
        }
        FarmStakingWrapper::generate_aggregated_rewards(&mut storage_cache, current_block_nonce);
        let settlement = match FarmStakingWrapper::settle_positions(
            &self.farm_token,
            &storage_cache,
            caller,
            payments,
        ) {
            Ok(settlement) => settlement,
            Err(e) => {
                return Err(e);
            },
        };
        if storage_cache.reward_reserve.lt(&settlement.rewards) {
            return Err(GuildError::InsufficientReserve);
        }
        if settlement.ledger.last_nonce() == u64::MAX {
            return Err(GuildError::NonceExhausted);
        }
        proof {
            lemma_claim_rewards(self@, caller, payment_views(payments@), current_block_nonce);
            let start = SettlementView::start(self@.farm_token);
            lemma_prices_rise(
                self@.farm_token.positions,
                self@.storage.reward_per_share,
                storage_cache@.reward_per_share,
            );
            lemma_settle_from(start, storage_cache@, caller, payment_views(payments@), 0);
        }
        let Settlement { ledger, amount, compounded, rewards, parts } = settlement;
        let mut ledger = ledger;
        storage_cache.reward_reserve = storage_cache.reward_reserve.minus(&rewards);
        let new_amount = amount.dup();
        let attributes = FarmStakingWrapper::create_claim_rewards_initial_attributes(
            StakingFarmTokenAttributes {
                reward_per_share: storage_cache.reward_per_share.dup(),
                compounded_reward: compounded,
                current_farm_amount: amount,
            },
            storage_cache.reward_per_share.dup(),
        );
        let new_attributes = attributes.dup();
        let nonce = ledger.mint(caller, attributes);
        let reward_token_id = storage_cache.reward_token_id;
        self.farm_token = ledger;
        self.storage = storage_cache;
        Ok(
            ClaimRewardsResult {
                new_farm_token: Payment::new(farm_token_id, nonce, new_amount),
                new_attributes,
                old_attributes: parts,
                rewards: Payment::new(reward_token_id, 0, rewards),
            },
        )
    }
}

} // verus!
