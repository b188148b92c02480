//! Unstaking: a receipt is settled and burned, and its stake leaves the farm
//! behind an unbond receipt that can be redeemed after the lock period.

use crate::base_impl_wrapper::{FarmStakingWrapper, lemma_user_decreased, user_decreased};
use crate::common::{Address, Epoch, GuildError, Nonce, Payment, PaymentView};
use crate::guild::{Guild, GuildView};
use crate::ledger::{lemma_burn, lemma_burn_prices, lemma_prices_rise};
use crate::storage_cache::StorageView;
use crate::tiered_rewards::{GuildConfig, ReadConfigModule};
use crate::token_attributes::{AttributesView, UnbondSftAttributes, UnbondView};
use crate::unbond_token::lemma_unbond_mint;
use vstd::prelude::*;

verus! {

/// What unstaking hands back: the unbond receipt with its attributes, which
/// hold those of the part that was unstaked, and the rewards.
#[derive(Debug)]
pub struct UnstakeFarmResult {
    pub unbond_token: Payment,
    pub unbond_attributes: UnbondSftAttributes,
    pub rewards: Payment,
}

/// The outcome of unstaking, as numbers.
pub struct UnstakeFarmResultView {
    pub unbond_token: PaymentView,
    pub unbond_attributes: UnbondView,
    pub rewards: PaymentView,
}

impl View for UnstakeFarmResult {
    type V = UnstakeFarmResultView;

    open spec fn view(&self) -> UnstakeFarmResultView {
        UnstakeFarmResultView {
            unbond_token: self.unbond_token@,
            unbond_attributes: self.unbond_attributes@,
            rewards: self.rewards@,
        }
    }
}

/// The attributes of the unbond receipt for `amount` units that were
/// unstaked in epoch `epoch`.
pub open spec fn unbond_attributes(
    part: AttributesView,
    amount: nat,
    epoch: Epoch,
    min_unbond_epochs: Epoch,
) -> UnbondView {
    UnbondView {
        unlock_epoch: (epoch + min_unbond_epochs) as Epoch,
        supply: amount,
        opt_original_attributes: Some(part),
    }
}

impl GuildView {
    /// The guild after `caller` unstaked `payment` in block `block` and epoch
    /// `epoch`, with the unbond receipt and the rewards that the caller gets;
    /// or why the call is refused. The unbond receipt unlocks
    /// `min_unbond_epochs` after `epoch`.
    pub open spec fn unstake_farm(
        self,
        caller: Address,
        payment: PaymentView,
        min_unbond_epochs: Epoch,
        block: Nonce,
        epoch: Epoch,
    ) -> Result<(GuildView, UnstakeFarmResultView), GuildError> {
        let storage = self.storage.aggregated(block);
        if self.storage.state_error() is Some {
            Err(self.storage.state_error()->0)
        } else if self.unbond_token_id is None {
            Err(GuildError::NoUnbondToken)
        } else if Some(payment.token) != self.storage.farm_token_id {
            Err(GuildError::InvalidToken)
        } else {
            match self.farm_token.burn(caller, payment.nonce, payment.amount) {
                Err(e) => Err(e),
                Ok((ledger, part)) => {
                    let reward = storage.reward_for(payment.amount, part.reward_per_share);
                    if part.reward_per_share > storage.reward_per_share {
                        Err(GuildError::NegativeReward)
                    } else if reward > storage.reward_reserve {
                        Err(GuildError::InsufficientReserve)
                    } else if epoch + min_unbond_epochs > u64::MAX {
                        Err(GuildError::EpochOutOfRange)
                    } else if self.unbond_token.last_nonce == u64::MAX {
                        Err(GuildError::NonceExhausted)
                    } else {
                        Ok(
                            (
                                GuildView {
                                    storage: StorageView {
                                        reward_reserve: (storage.reward_reserve - reward) as nat,
                                        farm_token_supply: (storage.farm_token_supply
                                            - payment.amount) as nat,
                                        ..storage
                                    },
                                    farm_token: ledger,
                                    unbond_token: self.unbond_token.mint(
                                        caller,
                                        unbond_attributes(
                                            part,
                                            payment.amount,
                                            epoch,
                                            min_unbond_epochs,
                                        ),
                                    ),
                                    users: user_decreased(
                                        self.users,
                                        self.migration_nonce(),
                                        caller,
                                        payment.nonce,
                                        payment.amount,
                                    ),
                                    ..self
                                },
                                UnstakeFarmResultView {
                                    unbond_token: PaymentView {
                                        token: self.unbond_token_id->0,
                                        nonce: (self.unbond_token.last_nonce + 1) as Nonce,
                                        amount: payment.amount,
                                    },
                                    unbond_attributes: unbond_attributes(
                                        part,
                                        payment.amount,
                                        epoch,
                                        min_unbond_epochs,
                                    ),
                                    rewards: PaymentView {
                                        token: storage.reward_token_id,
                                        nonce: 0,
                                        amount: reward,
                                    },
                                },
                            ),
                        )
                    }
                },
            }
        }
    }
}

/// Unstaking keeps the guild well formed, does not lower the reward per
/// share, and takes the amount unstaked from the farm token supply.
pub proof fn lemma_unstake_farm(
    g: GuildView,
    caller: Address,
    payment: PaymentView,
    min_unbond_epochs: Epoch,
    block: Nonce,
    epoch: Epoch,
)
    requires
        g.wf(),
        g.unstake_farm(caller, payment, min_unbond_epochs, block, epoch) is Ok,
    ensures
        g.unstake_farm(caller, payment, min_unbond_epochs, block, epoch)->Ok_0.0.wf(),
        g.unstake_farm(
            caller,
            payment,
            min_unbond_epochs,
            block,
            epoch,
        )->Ok_0.0.storage.reward_per_share >= g.storage.reward_per_share,
        g.unstake_farm(
            caller,
            payment,
            min_unbond_epochs,
            block,
            epoch,
        )->Ok_0.0.storage.farm_token_supply + payment.amount == g.storage.farm_token_supply,
{
    let storage = g.storage.aggregated(block);
    let part = g.farm_token.burn(caller, payment.nonce, payment.amount)->Ok_0.1;
    lemma_prices_rise(
        g.farm_token.positions,
        g.storage.reward_per_share,
        storage.reward_per_share,
    );
    lemma_burn(g.farm_token, caller, payment.nonce, payment.amount);
    lemma_burn_prices(
        g.farm_token,
        caller,
        payment.nonce,
        payment.amount,
        storage.reward_per_share,
    );
    lemma_unbond_mint(
        g.unbond_token,
        caller,
        unbond_attributes(part, payment.amount, epoch, min_unbond_epochs),
    );
    lemma_user_decreased(g.users, g.migration_nonce(), caller, payment.nonce, payment.amount);
}

impl Guild {
    /// Settles and burns what `caller` hands in of a receipt, pays out what
    /// it has earned up to `current_block_nonce`, and gives the caller an
    /// unbond receipt for the stake, locked for the epochs that the
    /// configuration asks of the caller.
    pub fn unstake_farm(
        &mut self,
        caller: Address,
        payment: Payment,
        config: &GuildConfig,
        current_block_nonce: Nonce,
        current_epoch: Epoch,
    ) -> (r: Result<UnstakeFarmResult, GuildError>)
        requires
            old(self)@.wf(),
        ensures
            final(self)@.wf(),
            final(self)@.storage.reward_per_share >= old(self)@.storage.reward_per_share,
            match r {
                Ok(out) => old(self)@.unstake_farm(
                    caller,
                    payment@,
                    config.min_unbond_epochs(caller == old(self)@.guild_master),
                    current_block_nonce,
                    current_epoch,
                ) == Ok::<(GuildView, UnstakeFarmResultView), GuildError>((final(self)@, out@)),
                Err(e) => old(self)@.unstake_farm(
                    caller,
                    payment@,
                    config.min_unbond_epochs(caller == old(self)@.guild_master),
                    current_block_nonce,
                    current_epoch,
                ) == Err::<(GuildView, UnstakeFarmResultView), GuildError>(e) && final(self)@
                    == old(self)@,
            },
    {
        let mut storage_cache = self.storage.dup();
        let farm_token_id = match storage_cache.validate_contract_state() {
            Ok(token) => token,
            Err(e) => {
                return Err(e);
            },
        };
        let unbond_token_id = match self.unbond_token_id {
            Some(token) => token,
            None => {
                return Err(GuildError::NoUnbondToken);
            },
        };
        if payment.token != farm_token_id {
            return Err(GuildError::InvalidToken);
        }
        FarmStakingWrapper::generate_aggregated_rewards(&mut storage_cache, current_block_nonce);
        let mut ledger = self.farm_token.dup();
        let part = match ledger.burn(caller, payment.nonce, &payment.amount) {
            Ok(part) => part,
            Err(e) => {
                return Err(e);
            },
        };
        let reward = match FarmStakingWrapper::calculate_rewards(
            &payment.amount,
            &part,
            &storage_cache,
        ) {
            Ok(reward) => reward,
            Err(e) => {
                return Err(e);
            },
        };
        if storage_cache.reward_reserve.lt(&reward) {
            return Err(GuildError::InsufficientReserve);
        }
        let min_unbond_epochs = config.get_min_unbond_epochs_for_user(self.guild_master, caller);
        let unlock_epoch = match current_epoch.checked_add(min_unbond_epochs) {
            Some(unlock_epoch) => unlock_epoch,
            None => {
                return Err(GuildError::EpochOutOfRange);
            },
        };
        if self.unbond_token.last_nonce() == u64::MAX {
            return Err(GuildError::NonceExhausted);
        }
        proof {
            lemma_unstake_farm(
                self@,
                caller,
                payment@,
                min_unbond_epochs,
                current_block_nonce,
                current_epoch,
            );
            lemma_burn(self@.farm_token, caller, payment.nonce, payment.amount@);
        }
        storage_cache.reward_reserve = storage_cache.reward_reserve.minus(&reward);
        storage_cache.farm_token_supply = storage_cache.farm_token_supply.minus(&payment.amount);
        FarmStakingWrapper::decrease_user_farm_position(
            &mut self.users,
            match self.farm_position_migration_nonce {
                Some(n) => n,
                None => 0,
            },
            caller,
            payment.nonce,
            &payment.amount,
        );
        let attributes = UnbondSftAttributes {
            unlock_epoch,
            supply: payment.amount.dup(),
            opt_original_attributes: Some(part),
        };
        let unbond_attributes = attributes.dup();
        let nonce = self.unbond_token.mint(caller, attributes);
        let reward_token_id = storage_cache.reward_token_id;
        self.farm_token = ledger;
        self.storage = storage_cache;
        Ok(
            UnstakeFarmResult {
                unbond_token: Payment::new(unbond_token_id, nonce, payment.amount),
                unbond_attributes,
                rewards: Payment::new(reward_token_id, 0, reward),
            },
        )
    }
}

} // verus!
