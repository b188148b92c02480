//! The state of one guild, and what every call checks first.

use crate::amount::Amount;
use crate::base_impl_wrapper::FarmStakingWrapper;
use crate::common::{Address, Epoch, GuildError, Nonce, Payment, PaymentView, State, TokenId};
use crate::config::{UserBook, UserRecordView, distinct_users};
use crate::ledger::{
    FarmLedger, FarmLedgerView, FarmPosition, has_nonce, index_of, lemma_prices_rise,
    prices_at_most,
};
use crate::storage_cache::{StorageCache, StorageView};
use crate::token_attributes::UnbondSftAttributes;
use crate::unbond_token::{UnbondLedger, UnbondLedgerView, has_unbond, unbond_index};
use vstd::prelude::*;

verus! {

/// One guild: its counters, its outstanding receipts and its books.
#[derive(Debug)]
pub struct Guild {
    pub(crate) storage: StorageCache,
    pub(crate) farm_token: FarmLedger,
    pub(crate) unbond_token: UnbondLedger,
    pub(crate) unbond_token_id: Option<TokenId>,
    pub(crate) users: UserBook,
    pub(crate) guild_master: Address,
    pub(crate) owner: Address,
    pub(crate) admins: Vec<Address>,
    pub(crate) first_week_start_epoch: Epoch,
    pub(crate) min_unbond_epochs: Epoch,
    pub(crate) farm_position_migration_nonce: Option<Nonce>,
}

/// The state of a guild, as mathematical values.
pub struct GuildView {
    pub storage: StorageView,
    pub farm_token: FarmLedgerView,
    pub unbond_token: UnbondLedgerView,
    pub unbond_token_id: Option<TokenId>,
    pub users: Seq<UserRecordView>,
    pub guild_master: Address,
    pub owner: Address,
    pub admins: Seq<Address>,
    pub first_week_start_epoch: Epoch,
    pub min_unbond_epochs: Epoch,
    pub farm_position_migration_nonce: Option<Nonce>,
}

impl View for Guild {
    type V = GuildView;

    open(crate) spec fn view(&self) -> GuildView {
        GuildView {
            storage: self.storage@,
            farm_token: self.farm_token@,
            unbond_token: self.unbond_token@,
            unbond_token_id: self.unbond_token_id,
            users: self.users@,
            guild_master: self.guild_master,
            owner: self.owner,
            admins: self.admins@,
            first_week_start_epoch: self.first_week_start_epoch,
            min_unbond_epochs: self.min_unbond_epochs,
            farm_position_migration_nonce: self.farm_position_migration_nonce,
        }
    }
}

impl GuildView {
    /// The counters are sound, the receipts add up to the farm token supply,
    /// no receipt was minted above the current share price, and the books
    /// name each user once.
    pub open spec fn wf(self) -> bool {
        &&& self.storage.wf()
        &&& self.farm_token.wf()
        &&& self.farm_token.total() == self.storage.farm_token_supply
        &&& prices_at_most(self.farm_token.positions, self.storage.reward_per_share)
        &&& self.unbond_token.wf()
        &&& distinct_users(self.users)
    }

    /// The nonce below which receipts do not count towards their holder's
    /// total; zero while none was set.
    pub open spec fn migration_nonce(self) -> Nonce {
        match self.farm_position_migration_nonce {
            Some(n) => n,
            None => 0,
        }
    }

    /// Whether `user` may call what is kept for the owner and the admins.
    pub open spec fn is_admin(self, user: Address) -> bool {
        user == self.owner || self.admins.contains(user)
    }
}

impl StorageView {
    /// Why the guild takes no calls, if it does not: it is paused, or its
    /// position token is not registered.
    pub open spec fn state_error(self) -> Option<GuildError> {
        if self.contract_state != State::Active {
            Some(GuildError::NotActive)
        } else if self.farm_token_id is None {
            Some(GuildError::NoFarmToken)
        } else {
            None
        }
    }
}

impl StorageCache {
    /// Refuses the call where the guild is paused or has no position token.
    pub fn validate_contract_state(&self) -> (r: Result<TokenId, GuildError>)
        ensures
            match r {
                Ok(token) => self@.state_error() is None && self@.farm_token_id == Some(token),
                Err(e) => self@.state_error() == Some(e),
            },
    {
        if self.contract_state != State::Active {
            return Err(GuildError::NotActive);
        }
        match self.farm_token_id {
            Some(token) => Ok(token),
            None => Err(GuildError::NoFarmToken),
        }
    }
}

impl GuildView {
    /// The guild after an admin set the rewards per block to
    /// `per_block_amount` in block `block`: the rewards up to the block are
    /// set aside first, at the rate that held until then.
    pub open spec fn set_per_block_rewards(
        self,
        caller: Address,
        per_block_amount: nat,
        block: Nonce,
    ) -> Result<GuildView, GuildError> {
        if !self.is_admin(caller) {
            Err(GuildError::PermissionDenied)
        } else {
            Ok(
                GuildView {
                    storage: StorageView {
                        per_block_reward_amount: per_block_amount,
                        ..self.storage.aggregated(block)
                    },
                    ..self
                },
            )
        }
    }

    /// The guild after rewards were topped up: the capacity grows by the
    /// payment.
    pub open spec fn top_up_rewards(self, caller: Address, payment: PaymentView) -> Result<
        GuildView,
        GuildError,
    > {
        if !self.is_admin(caller) {
            Err(GuildError::PermissionDenied)
        } else if payment.token != self.storage.reward_token_id || payment.nonce != 0 {
            Err(GuildError::InvalidToken)
        } else {
            Ok(
                GuildView {
                    storage: StorageView {
                        reward_capacity: self.storage.reward_capacity + payment.amount,
                        ..self.storage
                    },
                    ..self
                },
            )
        }
    }

    /// The guild after an admin took `amount` of the rewards back in block
    /// `block`: only what was not set aside by then can be had.
    pub open spec fn withdraw_rewards(self, caller: Address, amount: nat, block: Nonce) -> Result<
        GuildView,
        GuildError,
    > {
        let storage = self.storage.aggregated(block);
        if !self.is_admin(caller) {
            Err(GuildError::PermissionDenied)
        } else if amount > storage.remaining_capacity() {
            Err(GuildError::WithdrawAmountTooHigh)
        } else {
            Ok(
                GuildView {
                    storage: StorageView {
                        reward_capacity: (storage.reward_capacity - amount) as nat,
                        ..storage
                    },
                    ..self
                },
            )
        }
    }
}

impl Guild {
    /// A copy of the guild.
    pub fn dup(&self) -> (r: Guild)
        ensures
            r@ == self@,
    {
        let admins = self.admins.clone();
        assert(admins@ =~= self.admins@);
        Guild {
            storage: self.storage.dup(),
            farm_token: self.farm_token.dup(),
            unbond_token: self.unbond_token.dup(),
            unbond_token_id: self.unbond_token_id,
            users: self.users.dup(),
            guild_master: self.guild_master,
            owner: self.owner,
            admins,
            first_week_start_epoch: self.first_week_start_epoch,
            min_unbond_epochs: self.min_unbond_epochs,
            farm_position_migration_nonce: self.farm_position_migration_nonce,
        }
    }

    /// Whether `user` is the owner or one of the admins.
    pub fn is_admin(&self, user: Address) -> (r: bool)
        ensures
            r == self@.is_admin(user),
    {
        if user == self.owner {
            return true;
        }
        let mut i: usize = 0;
        while i < self.admins.len()
            invariant
                i <= self.admins.len(),
                forall|k: int| 0 <= k < i ==> self.admins@[k] != user,
            decreases self.admins.len() - i,
        {
            if self.admins[i] == user {
                return true;
            }
            i = i + 1;
        }
        false
    }

    /// Lets the owner or an admin name the token in which positions are
    /// written.
    pub fn register_farm_token(&mut self, caller: Address, token: TokenId) -> (r: Result<
        (),
        GuildError,
    >)
        requires
            old(self)@.wf(),
        ensures
            final(self)@.wf(),
            r is Ok <==> old(self)@.is_admin(caller),
            r is Err ==> r == Err::<(), GuildError>(GuildError::PermissionDenied) && final(self)@
                == old(self)@,
            r is Ok ==> final(self)@ == (GuildView {
                storage: StorageView { farm_token_id: Some(token), ..old(self)@.storage },
                ..old(self)@
            }),
    {
        if !self.is_admin(caller) {
            return Err(GuildError::PermissionDenied);
        }
        self.storage.farm_token_id = Some(token);
        Ok(())
    }

    /// Lets the owner or an admin name the token in which unbond receipts
    /// are written.
    pub fn register_unbond_token(&mut self, caller: Address, token: TokenId) -> (r: Result<
        (),
        GuildError,
    >)
        requires
            old(self)@.wf(),
        ensures
            final(self)@.wf(),
            r is Ok <==> old(self)@.is_admin(caller),
            r is Err ==> r == Err::<(), GuildError>(GuildError::PermissionDenied) && final(self)@
                == old(self)@,
            r is Ok ==> final(self)@ == (GuildView {
                unbond_token_id: Some(token),
                ..old(self)@
            }),
    {
        if !self.is_admin(caller) {
            return Err(GuildError::PermissionDenied);
        }
        self.unbond_token_id = Some(token);
        Ok(())
    }

    /// Lets the owner or an admin pause the guild.
    pub fn pause(&mut self, caller: Address) -> (r: Result<(), GuildError>)
        requires
            old(self)@.wf(),
        ensures
            final(self)@.wf(),
            r is Ok <==> old(self)@.is_admin(caller),
            r is Err ==> r == Err::<(), GuildError>(GuildError::PermissionDenied) && final(self)@
                == old(self)@,
            r is Ok ==> final(self)@ == (GuildView {
                storage: StorageView { contract_state: State::Inactive, ..old(self)@.storage },
                ..old(self)@
            }),
    {
        if !self.is_admin(caller) {
            return Err(GuildError::PermissionDenied);
        }
        self.storage.contract_state = State::Inactive;
        Ok(())
    }

    /// Lets the owner or an admin open the guild for calls.
    pub fn resume(&mut self, caller: Address) -> (r: Result<(), GuildError>)
        requires
            old(self)@.wf(),
        ensures
            final(self)@.wf(),
            r is Ok <==> old(self)@.is_admin(caller),
            r is Err ==> r == Err::<(), GuildError>(GuildError::PermissionDenied) && final(self)@
                == old(self)@,
            r is Ok ==> final(self)@ == (GuildView {
                storage: StorageView { contract_state: State::Active, ..old(self)@.storage },
                ..old(self)@
            }),
    {
        if !self.is_admin(caller) {
            return Err(GuildError::PermissionDenied);
        }
        self.storage.contract_state = State::Active;
        Ok(())
    }

    /// Lets the owner make `admin` an admin.
    pub fn add_admin(&mut self, caller: Address, admin: Address) -> (r: Result<(), GuildError>)
        requires
            old(self)@.wf(),
        ensures
            final(self)@.wf(),
            r is Ok <==> caller == old(self)@.owner,
            r is Err ==> r == Err::<(), GuildError>(GuildError::PermissionDenied) && final(self)@
                == old(self)@,
            r is Ok ==> final(self)@ == (GuildView {
                admins: old(self)@.admins.push(admin),
                ..old(self)@
            }),
    {
        if !(caller == self.owner) {
            return Err(GuildError::PermissionDenied);
        }
        self.admins.push(admin);
        Ok(())
    }

    /// Lets the owner or an admin set what the guild hands out per block,
    /// from `current_block_nonce` on: the rewards up to that block are set
    /// aside at the rate that held until now.
    pub fn set_per_block_rewards(
        &mut self,
        caller: Address,
        per_block_amount: Amount,
        current_block_nonce: Nonce,
    ) -> (r: Result<(), GuildError>)
        requires
            old(self)@.wf(),
        ensures
            final(self)@.wf(),
            final(self)@.storage.reward_per_share >= old(self)@.storage.reward_per_share,
            match r {
                Ok(_) => old(self)@.set_per_block_rewards(
                    caller,
                    per_block_amount@,
                    current_block_nonce,
                ) == Ok::<GuildView, GuildError>(final(self)@),
                Err(e) => old(self)@.set_per_block_rewards(
                    caller,
                    per_block_amount@,
                    current_block_nonce,
                ) == Err::<GuildView, GuildError>(e) && final(self)@ == old(self)@,
            },
    {
        if !self.is_admin(caller) {
            return Err(GuildError::PermissionDenied);
        }
        FarmStakingWrapper::generate_aggregated_rewards(&mut self.storage, current_block_nonce);
        self.storage.per_block_reward_amount = per_block_amount;
        proof {
            lemma_prices_rise(
                self@.farm_token.positions,
                old(self)@.storage.reward_per_share,
                self@.storage.reward_per_share,
            );
        }
        Ok(())
    }

    /// Lets the owner or an admin add to the rewards that the guild may hand
    /// out.
    pub fn top_up_rewards(&mut self, caller: Address, payment: Payment) -> (r: Result<
        (),
        GuildError,
    >)
        requires
            old(self)@.wf(),
        ensures
            final(self)@.wf(),
            match r {
                Ok(_) => old(self)@.top_up_rewards(caller, payment@) == Ok::<
                    GuildView,
                    GuildError,
                >(final(self)@),
                Err(e) => old(self)@.top_up_rewards(caller, payment@) == Err::<
                    GuildView,
                    GuildError,
                >(e) && final(self)@ == old(self)@,
            },
    {
        if !self.is_admin(caller) {
            return Err(GuildError::PermissionDenied);
        }
        if payment.token != self.storage.reward_token_id || payment.nonce != 0 {
            return Err(GuildError::InvalidToken);
        }
        self.storage.reward_capacity = self.storage.reward_capacity.plus(&payment.amount);
        Ok(())
    }

    /// Lets the owner or an admin take back rewards that were not set aside
    /// by `current_block_nonce`. Returns the payment to the caller.
    pub fn withdraw_rewards(
        &mut self,
        caller: Address,
        withdraw_amount: Amount,
        current_block_nonce: Nonce,
    ) -> (r: Result<Payment, GuildError>)
        requires
            old(self)@.wf(),
        ensures
            final(self)@.wf(),
            match r {
                Ok(out) => old(self)@.withdraw_rewards(
                    caller,
                    withdraw_amount@,
                    current_block_nonce,
                ) == Ok::<GuildView, GuildError>(final(self)@) && out@ == (PaymentView {
                    token: old(self)@.storage.reward_token_id,
                    nonce: 0,
                    amount: withdraw_amount@,
                }),
                Err(e) => old(self)@.withdraw_rewards(
                    caller,
                    withdraw_amount@,
                    current_block_nonce,
                ) == Err::<GuildView, GuildError>(e) && final(self)@ == old(self)@,
            },
    {
        if !self.is_admin(caller) {
            return Err(GuildError::PermissionDenied);
        }
        let mut storage_cache = self.storage.dup();
        FarmStakingWrapper::generate_aggregated_rewards(&mut storage_cache, current_block_nonce);
        let remaining_rewards = storage_cache.reward_capacity.minus(
            &storage_cache.accumulated_rewards,
        );
        if remaining_rewards.lt(&withdraw_amount) {
            return Err(GuildError::WithdrawAmountTooHigh);
        }
        storage_cache.reward_capacity = storage_cache.reward_capacity.minus(&withdraw_amount);
        let token = storage_cache.reward_token_id;
        proof {
            lemma_prices_rise(
                self@.farm_token.positions,
                self@.storage.reward_per_share,
                storage_cache@.reward_per_share,
            );
        }
        self.storage = storage_cache;
        Ok(Payment::new(token, 0, withdraw_amount))
    }

    /// What `owner` holds of the position receipt `nonce`, if anything.
    pub fn farm_position(&self, owner: Address, nonce: Nonce) -> (r: Option<FarmPosition>)
        requires
            self@.wf(),
        ensures
            r is Some <==> has_nonce(self@.farm_token.positions, nonce)
                && self@.farm_token.positions[index_of(
                self@.farm_token.positions,
                nonce,
            )].owner == owner,
            r is Some ==> r->0@ == self@.farm_token.positions[index_of(
                self@.farm_token.positions,
                nonce,
            )],
    {
        self.farm_token.get(owner, nonce)
    }

    /// The attributes of the unbond receipt `nonce`, if `owner` holds it.
    pub fn unbond_position(&self, owner: Address, nonce: Nonce) -> (r: Option<
        UnbondSftAttributes,
    >)
        requires
            self@.wf(),
        ensures
            r is Some <==> has_unbond(self@.unbond_token.positions, nonce)
                && self@.unbond_token.positions[unbond_index(
                self@.unbond_token.positions,
                nonce,
            )].owner == owner,
            r is Some ==> r->0@ == self@.unbond_token.positions[unbond_index(
                self@.unbond_token.positions,
                nonce,
            )].attributes,
    {
        self.unbond_token.get_token_attributes(owner, nonce)
    }

    /// What the guild has to ask its funder for, so that a call in
    /// `current_block_nonce` sets aside all the rewards that are due by then.
    pub fn needed_rewards(&self, current_block_nonce: Nonce) -> (r: Amount)
        requires
            self@.wf(),
        ensures
            r@ == self@.storage.shortfall(current_block_nonce),
    {
        FarmStakingWrapper::needed_rewards(&self.storage, current_block_nonce)
    }

    /// The epochs that the guild was set up to ask between unstaking and
    /// redeeming.
    pub fn min_unbond_epochs(&self) -> (r: Epoch)
        ensures
            r == self@.min_unbond_epochs,
    {
        self.min_unbond_epochs
    }

    /// The epoch in which the first week of boosted rewards starts.
    pub fn first_week_start_epoch(&self) -> (r: Epoch)
        ensures
            r == self@.first_week_start_epoch,
    {
        self.first_week_start_epoch
    }

    /// The sum of the amounts of all outstanding position receipts.
    pub fn farm_token_supply(&self) -> (r: Amount)
        ensures
            r@ == self@.storage.farm_token_supply,
    {
        self.storage.farm_token_supply.dup()
    }

    /// The guild master.
    pub fn guild_master(&self) -> (r: Address)
        ensures
            r == self@.guild_master,
    {
        self.guild_master
    }

    /// Whether the guild is closing.
    pub fn guild_closing(&self) -> (r: bool)
        ensures
            r == self@.storage.guild_closing,
    {
        self.storage.guild_closing
    }

    /// The guild's counters as they stand.
    pub fn storage_cache(&self) -> (r: StorageCache)
        ensures
            r@ == self@.storage,
    {
        self.storage.dup()
    }
}

} // verus!
