//! Moving a position from a closing guild to another guild.
//!
//! The receipt is settled and burned in the closing guild, and its stake
//! enters the other guild in the name of the caller. Either both happen or
//! neither does.

use crate::base_impl_wrapper::{FarmStakingWrapper, lemma_user_decreased, user_decreased};
use crate::common::{Address, GuildError, Nonce, Payment, PaymentView, payment_views};
use crate::guild::{Guild, GuildView};
use crate::ledger::{
    distinct_nonces, has_nonce, index_of, lemma_burn, lemma_burn_prices, lemma_prices_rise,
};
use crate::storage_cache::StorageView;
use crate::tiered_rewards::{GuildConfig, ReadConfigModule};
use crate::token_attributes::{AttributesView, StakingFarmTokenAttributes, attribute_views};
use crate::user_actions::claim_stake_farm_rewards::{ClaimRewardsResult, ClaimRewardsResultView};
use crate::user_actions::stake_farm::lemma_stake_farm;
use vstd::prelude::*;

verus! {

impl GuildView {
    /// The closing guild after `caller` took `payment` out of it in block
    /// `block`, and the rewards that the receipt had earned; or why the
    /// receipt cannot leave.
    pub open spec fn exit_farm(self, caller: Address, payment: PaymentView, block: Nonce)
        -> Result<(GuildView, nat, AttributesView), GuildError> {
        let storage = self.storage.aggregated(block);
        if !self.storage.guild_closing {
            Err(GuildError::GuildNotClosing)
        } else if self.storage.state_error() is Some {
            Err(self.storage.state_error()->0)
        } else if Some(payment.token) != self.storage.farm_token_id {
            Err(GuildError::InvalidToken)
        } else {
            match self.farm_token.burn(caller, payment.nonce, payment.amount) {
                Err(e) => Err(e),
                Ok((ledger, part)) => {
                    let reward = storage.reward_for(payment.amount, part.reward_per_share);
                    if part.reward_per_share > storage.reward_per_share {
                        Err(GuildError::NegativeReward)
                    } else if reward > storage.reward_reserve {
                        Err(GuildError::InsufficientReserve)
                    } else {
                        Ok(
                            (
                                GuildView {
                                    storage: StorageView {
                                        reward_reserve: (storage.reward_reserve - reward) as nat,
                                        farm_token_supply: (storage.farm_token_supply
                                            - payment.amount) as nat,
                                        ..storage
                                    },
                                    farm_token: ledger,
                                    users: user_decreased(
                                        self.users,
                                        self.migration_nonce(),
                                        caller,
                                        payment.nonce,
                                        payment.amount,
                                    ),
                                    ..self
                                },
                                reward,
                                part,
                            ),
                        )
                    }
                },
            }
        }
    }

    /// Both guilds after `caller` moved `payment` from this guild to `other`
    /// in block `block`, with the receipt of the other guild and the rewards
    /// that the caller gets; or why the move is refused.
    pub open spec fn migrate_to_other_guild(
        self,
        other: GuildView,
        caller: Address,
        payment: PaymentView,
        min_stake: nat,
        max_staked_tokens: nat,
        block: Nonce,
    ) -> Result<(GuildView, GuildView, ClaimRewardsResultView), GuildError> {
        match self.exit_farm(caller, payment, block) {
            Err(e) => Err(e),
            Ok((left, reward, part)) => match other.stake_farm(
                caller,
                PaymentView {
                    token: self.storage.farming_token_id,
                    nonce: 0,
                    amount: payment.amount,
                },
                Seq::empty(),
                min_stake,
                max_staked_tokens,
                block,
            ) {
                Err(e) => Err(e),
                Ok((entered, receipt)) => Ok(
                    (
                        left,
                        entered,
                        ClaimRewardsResultView {
                            new_farm_token: receipt.new_farm_token,
                            new_attributes: receipt.new_attributes,
                            old_attributes: seq![part],
                            rewards: PaymentView {
                                token: self.storage.reward_token_id,
                                nonce: 0,
                                amount: reward,
                            },
                        },
                    ),
                ),
            },
        }
    }
}

/// Leaving keeps the closing guild well formed, does not lower its reward
/// per share, and takes the amount that leaves from its farm token supply. A
/// receipt that leaves whole is no longer outstanding.
pub proof fn lemma_exit_farm(g: GuildView, caller: Address, payment: PaymentView, block: Nonce)
    requires
        g.wf(),
        g.exit_farm(caller, payment, block) is Ok,
    ensures
        g.exit_farm(caller, payment, block)->Ok_0.0.wf(),
        g.exit_farm(caller, payment, block)->Ok_0.0.storage.reward_per_share
            >= g.storage.reward_per_share,
        g.exit_farm(caller, payment, block)->Ok_0.0.storage.farm_token_supply + payment.amount
            == g.storage.farm_token_supply,
        has_nonce(g.farm_token.positions, payment.nonce),
        payment.amount == g.farm_token.positions[index_of(
            g.farm_token.positions,
            payment.nonce,
        )].amount ==> !has_nonce(
            g.exit_farm(caller, payment, block)->Ok_0.0.farm_token.positions,
            payment.nonce,
        ),
{
    let storage = g.storage.aggregated(block);
    let i = index_of(g.farm_token.positions, payment.nonce);
    let left = g.exit_farm(caller, payment, block)->Ok_0.0;
    lemma_prices_rise(
        g.farm_token.positions,
        g.storage.reward_per_share,
        storage.reward_per_share,
    );
    lemma_burn(g.farm_token, caller, payment.nonce, payment.amount);
    lemma_burn_prices(
        g.farm_token,
        caller,
        payment.nonce,
        payment.amount,
        storage.reward_per_share,
    );
    lemma_user_decreased(g.users, g.migration_nonce(), caller, payment.nonce, payment.amount);
    if payment.amount == g.farm_token.positions[i].amount {
        assert(distinct_nonces(g.farm_token.positions));
        assert forall|k: int| 0 <= k < left.farm_token.positions.len() implies (
        #[trigger] left.farm_token.positions[k]).nonce != payment.nonce by {
            let k0 = if k < i { k } else { k + 1 };
            if k0 < i {
                assert(g.farm_token.positions[k0].nonce != g.farm_token.positions[i].nonce);
            } else {
                assert(g.farm_token.positions[i].nonce != g.farm_token.positions[k0].nonce);
            }
        }
    }
}

impl Guild {
    /// Settles and burns what `caller` hands in of a receipt of this closing
    /// guild, pays out what it has earned up to `current_block_nonce`, and
    /// stakes the same amount in `other` in the caller's name.
    pub fn migrate_to_other_guild(
        &mut self,
        other: &mut Guild,
        caller: Address,
        payment: Payment,
        config: &GuildConfig,
        current_block_nonce: Nonce,
    ) -> (r: Result<ClaimRewardsResult, GuildError>)
        requires
            old(self)@.wf(),
            old(other)@.wf(),
        ensures
            final(self)@.wf(),
            final(other)@.wf(),
            final(self)@.storage.reward_per_share >= old(self)@.storage.reward_per_share,
            final(other)@.storage.reward_per_share >= old(other)@.storage.reward_per_share,
            match r {
                Ok(out) => old(self)@.migrate_to_other_guild(
                    old(other)@,
                    caller,
                    payment@,
                    config.min_stake(caller == old(other)@.guild_master),
                    config.max_staked_tokens(),
                    current_block_nonce,
                ) == Ok::<(GuildView, GuildView, ClaimRewardsResultView), GuildError>(
                    (final(self)@, final(other)@, out@),
                ),
                Err(e) => old(self)@.migrate_to_other_guild(
                    old(other)@,
                    caller,
                    payment@,
                    config.min_stake(caller == old(other)@.guild_master),
                    config.max_staked_tokens(),
                    current_block_nonce,
                ) == Err::<(GuildView, GuildView, ClaimRewardsResultView), GuildError>(e)
                    && final(self)@ == old(self)@ && final(other)@ == old(other)@,
            },
    {
        if !self.storage.guild_closing {
            return Err(GuildError::GuildNotClosing);
        }
        let mut storage_cache = self.storage.dup();
        let farm_token_id = match storage_cache.validate_contract_state() {
            Ok(token) => token,
            Err(e) => {
                return Err(e);
            },
        };
        if payment.token != farm_token_id {
            return Err(GuildError::InvalidToken);
        }
        FarmStakingWrapper::generate_aggregated_rewards(&mut storage_cache, current_block_nonce);
        let mut ledger = self.farm_token.dup();
        let part = match ledger.burn(caller, payment.nonce, &payment.amount) {
            Ok(part) => part,
            Err(e) => {
                return Err(e);
            },
        };
        let reward = match FarmStakingWrapper::calculate_rewards(
            &payment.amount,
            &part,
            &storage_cache,
        ) {
            Ok(reward) => reward,
            Err(e) => {
                return Err(e);
            },
        };
        if storage_cache.reward_reserve.lt(&reward) {
            return Err(GuildError::InsufficientReserve);
        }
        let no_receipts: Vec<Payment> = Vec::new();
        assert(payment_views(no_receipts@) =~= Seq::<PaymentView>::empty());
        let receipt = match other.stake_farm(
            caller,
            Payment::new(storage_cache.farming_token_id, 0, payment.amount.dup()),
            &no_receipts,
            config,
            current_block_nonce,
        ) {
            Ok(receipt) => receipt,
            Err(e) => {
                return Err(e);
            },
        };
        proof {
            lemma_exit_farm(self@, caller, payment@, current_block_nonce);
            lemma_burn(self@.farm_token, caller, payment.nonce, payment.amount@);
        }
        storage_cache.reward_reserve = storage_cache.reward_reserve.minus(&reward);
        storage_cache.farm_token_supply = storage_cache.farm_token_supply.minus(&payment.amount);
        FarmStakingWrapper::decrease_user_farm_position(
            &mut self.users,
            match self.farm_position_migration_nonce {
                Some(n) => n,
                None => 0,
            },
            caller,
            payment.nonce,
            &payment.amount,
        );
        let reward_token_id = storage_cache.reward_token_id;
        self.farm_token = ledger;
        self.storage = storage_cache;
        let mut old_attributes: Vec<StakingFarmTokenAttributes> = Vec::new();
        old_attributes.push(part);
        assert(attribute_views(old_attributes@) =~= seq![part@]);
        Ok(
            ClaimRewardsResult {
                new_farm_token: receipt.new_farm_token,
                new_attributes: receipt.new_attributes,
                old_attributes,
                rewards: Payment::new(reward_token_id, 0, reward),
            },
        )
    }
}

/// A move conserves the stake: what the two guilds hold together is the same
/// before and after. The closing guild no longer knows a receipt that left
/// whole, and the other guild's newest receipt is of the amount moved and in
/// the caller's name.
pub proof fn lemma_migration_conserves_supply(
    g: GuildView,
    other: GuildView,
    caller: Address,
    payment: PaymentView,
    min_stake: nat,
    max_staked_tokens: nat,
    block: Nonce,
)
    requires
        g.wf(),
        other.wf(),
        g.migrate_to_other_guild(other, caller, payment, min_stake, max_staked_tokens, block)
            is Ok,
    ensures
        ({
            let r = g.migrate_to_other_guild(
                other,
                caller,
                payment,
                min_stake,
                max_staked_tokens,
                block,
            )->Ok_0;
            &&& r.0.wf()
            &&& r.1.wf()
            &&& r.0.storage.farm_token_supply + r.1.storage.farm_token_supply
                == g.storage.farm_token_supply + other.storage.farm_token_supply
            &&& r.0.farm_token.total() + r.1.farm_token.total() == g.farm_token.total()
                + other.farm_token.total()
            &&& payment.amount == g.farm_token.positions[index_of(
                g.farm_token.positions,
                payment.nonce,
            )].amount ==> !has_nonce(r.0.farm_token.positions, payment.nonce)
            &&& r.1.farm_token.positions.len() > 0
            &&& r.1.farm_token.positions.last().owner == caller
            &&& r.1.farm_token.positions.last().amount == payment.amount
            &&& r.1.farm_token.positions.last().nonce == r.2.new_farm_token.nonce
            &&& r.2.new_farm_token.amount == payment.amount
        }),
{
    lemma_exit_farm(g, caller, payment, block);
    lemma_stake_farm(
        other,
        caller,
        PaymentView { token: g.storage.farming_token_id, nonce: 0, amount: payment.amount },
        Seq::empty(),
        min_stake,
        max_staked_tokens,
        block,
    );
}

} // verus!
