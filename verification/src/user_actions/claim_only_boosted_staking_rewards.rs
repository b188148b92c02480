//! Boosted rewards, and the receipts from before the guild kept totals.
//!
//! What a user has earned in boosted rewards is worked out outside the guild;
//! the guild pays it from its reserve. Receipts that were minted before the
//! guild began to keep each user's total position count towards the total
//! from the moment their holder hands them in.

use crate::amount::Amount;
use crate::base_impl_wrapper::{FarmStakingWrapper, user_increased};
use crate::common::{Address, Epoch, GuildError, Nonce, Payment, PaymentView, TokenId, payment_views};
use crate::config::{UserPositionView, UserRecordView, is_old_nonce, lookup_user, store_user};
use crate::guild::{Guild, GuildView};
use crate::storage_cache::StorageView;
use vstd::prelude::*;

verus! {

/// The sum of the amounts of the payments from `from` on that are receipts
/// from before the guild kept totals.
pub open spec fn old_positions_from(
    payments: Seq<PaymentView>,
    farm_token: Option<TokenId>,
    migration_nonce: Nonce,
    from: int,
) -> nat
    decreases payments.len() - from,
{
    if from < 0 || from >= payments.len() {
        0
    } else {
        (if Some(payments[from].token) == farm_token && is_old_nonce(
            migration_nonce,
            payments[from].nonce,
        ) {
            payments[from].amount
        } else {
            0
        }) + old_positions_from(payments, farm_token, migration_nonce, from + 1)
    }
}

impl GuildView {
    /// The guild after `reward` boosted rewards left its reserve, or why they
    /// cannot.
    pub open spec fn claim_only_boosted_payment(self, reward: nat) -> Result<
        GuildView,
        GuildError,
    > {
        if reward > self.storage.reward_reserve {
            Err(GuildError::InsufficientReserve)
        } else {
            Ok(
                GuildView {
                    storage: StorageView {
                        reward_reserve: (self.storage.reward_reserve - reward) as nat,
                        ..self.storage
                    },
                    ..self
                },
            )
        }
    }

    /// The guild after `amount` boosted rewards were set aside for `user`.
    pub open spec fn add_boosted_rewards(self, user: Address, amount: nat) -> GuildView {
        let r = lookup_user(self.users, user);
        GuildView {
            users: store_user(
                self.users,
                UserRecordView {
                    accumulated_boosted_rewards: r.accumulated_boosted_rewards + amount,
                    ..r
                },
            ),
            ..self
        }
    }

    /// What the payments hold in receipts from before the guild kept totals.
    pub open spec fn old_positions_amount(self, payments: Seq<PaymentView>) -> nat {
        old_positions_from(payments, self.storage.farm_token_id, self.migration_nonce(), 0)
    }

    /// The guild after the old receipts among `payments` were added to the
    /// total position of `caller`.
    pub open spec fn migrate_old_farm_positions(self, caller: Address, payments: Seq<PaymentView>)
        -> GuildView {
        if self.old_positions_amount(payments) > 0 {
            GuildView {
                users: user_increased(self.users, caller, self.old_positions_amount(payments)),
                ..self
            }
        } else {
            self
        }
    }

    /// The guild after `migrated_amount` was taken from the total position of
    /// `caller`, or why it cannot be.
    pub open spec fn decrease_old_farm_positions(self, migrated_amount: nat, caller: Address)
        -> Result<GuildView, GuildError> {
        let r = lookup_user(self.users, caller);
        if migrated_amount == 0 {
            Ok(self)
        } else if migrated_amount > r.position.total_farm_position {
            Err(GuildError::InsufficientBalance)
        } else {
            Ok(
                GuildView {
                    users: store_user(
                        self.users,
                        UserRecordView {
                            position: UserPositionView {
                                total_farm_position: (r.position.total_farm_position
                                    - migrated_amount) as nat,
                                ..r.position
                            },
                            ..r
                        },
                    ),
                    ..self
                },
            )
        }
    }

    /// The guild after `caller` claimed boosted rewards in epoch `epoch`, for
    /// `opt_user` or in the caller's own name, and the payment to that user;
    /// or why the claim is refused. The user gets what was set aside before
    /// and the `boosted_rewards` that fell due since.
    pub open spec fn claim_boosted_rewards(
        self,
        caller: Address,
        opt_user: Option<Address>,
        boosted_rewards: nat,
        epoch: Epoch,
    ) -> Result<(GuildView, PaymentView), GuildError> {
        let user = match opt_user {
            Some(user) => user,
            None => caller,
        };
        let r = lookup_user(self.users, user);
        if self.first_week_start_epoch > epoch {
            Err(GuildError::CannotClaimYet)
        } else if user != caller && !r.position.allow_external_claim_boosted_rewards {
            Err(GuildError::CannotClaimForAddress)
        } else if boosted_rewards > self.storage.reward_reserve {
            Err(GuildError::InsufficientReserve)
        } else {
            Ok(
                (
                    GuildView {
                        storage: StorageView {
                            reward_reserve: (self.storage.reward_reserve
                                - boosted_rewards) as nat,
                            ..self.storage
                        },
                        users: store_user(
                            self.users,
                            UserRecordView { accumulated_boosted_rewards: 0, ..r },
                        ),
                        ..self
                    },
                    PaymentView {
                        token: self.storage.reward_token_id,
                        nonce: 0,
                        amount: r.accumulated_boosted_rewards + boosted_rewards,
                    },
                ),
            )
        }
    }
}

/// The calls on boosted rewards and on receipts from before the guild kept
/// totals.
pub trait ClaimOnlyBoostedStakingRewardsModule: View<V = GuildView> + Sized {
    /// Pays `opt_user`, or `caller` where no user is named, the boosted
    /// rewards set aside for them and the `boosted_rewards` that fell due
    /// since. Claiming for another user needs that user's permission.
    fn claim_boosted_rewards(
        &mut self,
        caller: Address,
        opt_user: Option<Address>,
        boosted_rewards: Amount,
        current_epoch: Epoch,
    ) -> (r: Result<Payment, GuildError>)
        requires
            old(self)@.wf(),
        ensures
            final(self)@.wf(),
            match r {
                Ok(out) => old(self)@.claim_boosted_rewards(
                    caller,
                    opt_user,
                    boosted_rewards@,
                    current_epoch,
                ) == Ok::<(GuildView, PaymentView), GuildError>((final(self)@, out@)),
                Err(e) => old(self)@.claim_boosted_rewards(
                    caller,
                    opt_user,
                    boosted_rewards@,
                    current_epoch,
                ) == Err::<(GuildView, PaymentView), GuildError>(e) && final(self)@ == old(
                    self,
                )@,
            },
    ;

    /// Adds the old receipts among `payments` to the total position of
    /// `caller`. Returns their sum.
    fn migrate_old_farm_positions(&mut self, caller: Address, payments: &Vec<Payment>) -> (r:
        Amount)
        requires
            old(self)@.wf(),
        ensures
            final(self)@.wf(),
            r@ == old(self)@.old_positions_amount(payment_views(payments@)),
            final(self)@ == old(self)@.migrate_old_farm_positions(
                caller,
                payment_views(payments@),
            ),
    ;

    /// Takes `migrated_amount` from the total position of `caller` again.
    fn decrease_old_farm_positions(&mut self, migrated_amount: Amount, caller: Address) -> (r:
        Result<(), GuildError>)
        requires
            old(self)@.wf(),
        ensures
            final(self)@.wf(),
            match r {
                Ok(_) => old(self)@.decrease_old_farm_positions(migrated_amount@, caller) == Ok::<
                    GuildView,
                    GuildError,
                >(final(self)@),
                Err(e) => old(self)@.decrease_old_farm_positions(migrated_amount@, caller)
                    == Err::<GuildView, GuildError>(e) && final(self)@ == old(self)@,
            },
    ;

    /// Takes the boosted rewards `reward` out of the reserve. Returns them.
    fn claim_only_boosted_payment(&mut self, reward: Amount) -> (r: Result<Amount, GuildError>)
        requires
            old(self)@.wf(),
        ensures
            final(self)@.wf(),
            match r {
                Ok(out) => old(self)@.claim_only_boosted_payment(reward@) == Ok::<
                    GuildView,
                    GuildError,
                >(final(self)@) && out@ == reward@,
                Err(e) => old(self)@.claim_only_boosted_payment(reward@) == Err::<
                    GuildView,
                    GuildError,
                >(e) && final(self)@ == old(self)@,
            },
    ;
}

impl Guild {
    /// Sets `amount` boosted rewards aside for `user`.
    pub fn add_boosted_rewards(&mut self, user: Address, amount: &Amount)
        requires
            old(self)@.wf(),
        ensures
            final(self)@.wf(),
            final(self)@ == old(self)@.add_boosted_rewards(user, amount@),
    {
        let mut record = self.users.get(user);
        record.accumulated_boosted_rewards = record.accumulated_boosted_rewards.plus(amount);
        self.users.set(record);
    }
}

impl ClaimOnlyBoostedStakingRewardsModule for Guild {
    fn claim_boosted_rewards(
        &mut self,
        caller: Address,
        opt_user: Option<Address>,
        boosted_rewards: Amount,
        current_epoch: Epoch,
    ) -> (r: Result<Payment, GuildError>) {
        if self.first_week_start_epoch > current_epoch {
            return Err(GuildError::CannotClaimYet);
        }
        let user = match opt_user {
            Some(user) => user,
            None => caller,
        };
        let mut record = self.users.get(user);
        if !(user == caller) {
            if !record.position.allow_external_claim_boosted_rewards {
                return Err(GuildError::CannotClaimForAddress);
            }
        }
        let boosted_rewards = match self.claim_only_boosted_payment(boosted_rewards) {
            Ok(reward) => reward,
            Err(e) => {
                return Err(e);
            },
        };
        let total = record.accumulated_boosted_rewards.plus(&boosted_rewards);
        record.accumulated_boosted_rewards = Amount::zero();
        self.users.set(record);
        Ok(Payment::new(self.storage.reward_token_id, 0, total))
    }

    fn migrate_old_farm_positions(&mut self, caller: Address, payments: &Vec<Payment>) -> (r:
        Amount) {
        let farm_token_id = self.storage.farm_token_id;
        let migration_nonce = match self.farm_position_migration_nonce {
            Some(n) => n,
            None => 0,
        };
        let mut migrated_amount = Amount::zero();
        let mut i: usize = 0;
        while i < payments.len()
            invariant
                i <= payments.len(),
                migrated_amount@ + old_positions_from(
                    payment_views(payments@),
                    farm_token_id,
                    migration_nonce,
                    i as int,
                ) == old_positions_from(
                    payment_views(payments@),
                    farm_token_id,
                    migration_nonce,
                    0,
                ),
            decreases payments.len() - i,
        {
            let farm_position = &payments[i];
            assert(payment_views(payments@)[i as int] == farm_position@);
            if farm_token_id == Some(farm_position.token) && farm_position.nonce > 0
                && farm_position.nonce < migration_nonce {
                migrated_amount = migrated_amount.plus(&farm_position.amount);
            }
            i = i + 1;
        }
        if !migrated_amount.is_zero() {
            FarmStakingWrapper::increase_user_farm_position(
                &mut self.users,
                caller,
                &migrated_amount,
            );
        }
        migrated_amount
    }

    fn decrease_old_farm_positions(&mut self, migrated_amount: Amount, caller: Address) -> (r:
        Result<(), GuildError>) {
        if migrated_amount.is_zero() {
            return Ok(());
        }
        let mut record = self.users.get(caller);
        if record.position.total_farm_position.lt(&migrated_amount) {
            return Err(GuildError::InsufficientBalance);
        }
        record.position.total_farm_position = record.position.total_farm_position.minus(
            &migrated_amount,
        );
        self.users.set(record);
        Ok(())
    }

    fn claim_only_boosted_payment(&mut self, reward: Amount) -> (r: Result<Amount, GuildError>) {
        if self.storage.reward_reserve.lt(&reward) {
            return Err(GuildError::InsufficientReserve);
        }
        if !reward.is_zero() {
            self.storage.reward_reserve = self.storage.reward_reserve.minus(&reward);
        }
        Ok(reward)
    }
}

} // verus!
