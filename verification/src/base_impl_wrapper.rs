//! The reward accrual engine: how many rewards fall due, how they raise the
//! reward per share, and what a position has earned.

use crate::amount::Amount;
use crate::common::{Address, BLOCKS_IN_YEAR, GuildError, MAX_PERCENT, Nonce};
use crate::config::{
    UserBook, UserPositionView, UserRecord, UserRecordView, distinct_users, is_old_nonce,
    lemma_store_user, lookup_user, store_user,
};
use crate::storage_cache::StorageCache;
use crate::token_attributes::{AttributesView, StakingFarmTokenAttributes};
use vstd::prelude::*;

verus! {

/// The rules by which this guild accrues rewards and writes receipts.
pub struct FarmStakingWrapper;

/// The user's entry after the total position grew by `amount`.
pub open spec fn user_increased(s: Seq<UserRecordView>, user: Address, amount: nat) -> Seq<
    UserRecordView,
> {
    let r = lookup_user(s, user);
    store_user(
        s,
        UserRecordView {
            position: UserPositionView {
                total_farm_position: r.position.total_farm_position + amount,
                ..r.position
            },
            ..r
        },
    )
}

/// The user's entry after a receipt of `amount` left: the total position
/// falls by `amount`, to zero at the lowest; a receipt from before the guild
/// kept totals changes nothing.
pub open spec fn user_decreased(
    s: Seq<UserRecordView>,
    migration_nonce: Nonce,
    user: Address,
    token_nonce: Nonce,
    amount: nat,
) -> Seq<UserRecordView> {
    let r = lookup_user(s, user);
    if is_old_nonce(migration_nonce, token_nonce) {
        s
    } else {
        store_user(
            s,
            UserRecordView {
                position: UserPositionView {
                    total_farm_position: if r.position.total_farm_position > amount {
                        (r.position.total_farm_position - amount) as nat
                    } else {
                        0
                    },
                    ..r.position
                },
                ..r
            },
        )
    }
}

/// Adding to a user's total keeps the books in order.
pub proof fn lemma_user_increased(s: Seq<UserRecordView>, user: Address, amount: nat)
    requires
        distinct_users(s),
    ensures
        distinct_users(user_increased(s, user, amount)),
        lookup_user(user_increased(s, user, amount), user).position.total_farm_position
            == lookup_user(s, user).position.total_farm_position + amount,
{
    let r = lookup_user(s, user);
    lemma_store_user(
        s,
        UserRecordView {
            position: UserPositionView {
                total_farm_position: r.position.total_farm_position + amount,
                ..r.position
            },
            ..r
        },
    );
}

/// Taking from a user's total keeps the books in order.
pub proof fn lemma_user_decreased(
    s: Seq<UserRecordView>,
    migration_nonce: Nonce,
    user: Address,
    token_nonce: Nonce,
    amount: nat,
)
    requires
        distinct_users(s),
    ensures
        distinct_users(user_decreased(s, migration_nonce, user, token_nonce, amount)),
{
    let r = lookup_user(s, user);
    lemma_store_user(
        s,
        UserRecordView {
            position: UserPositionView {
                total_farm_position: if r.position.total_farm_position > amount {
                    (r.position.total_farm_position - amount) as nat
                } else {
                    0
                },
                ..r.position
            },
            ..r
        },
    );
}

impl FarmStakingWrapper {
    /// What the per-block rate yields from `last_reward_block_nonce` to
    /// `current_block_nonce`.
    pub fn calculate_per_block_rewards(
        storage_cache: &StorageCache,
        current_block_nonce: Nonce,
        last_reward_block_nonce: Nonce,
    ) -> (r: Amount)
        ensures
            r@ == storage_cache@.per_block_reward_amount * (if current_block_nonce
                <= last_reward_block_nonce {
                0nat
            } else {
                (current_block_nonce - last_reward_block_nonce) as nat
            }),
    {
        if current_block_nonce <= last_reward_block_nonce {
            proof {
                assert(storage_cache@.per_block_reward_amount * 0nat == 0) by (nonlinear_arith);
            }
            return Amount::zero();
        }
        let block_nonce_diff: u64 = current_block_nonce - last_reward_block_nonce;
        storage_cache.per_block_reward_amount.times_u64(block_nonce_diff)
    }

    /// What the whole stake may earn in one block at the highest yearly rate.
    pub fn get_amount_apr_bounded(storage_cache: &StorageCache) -> (r: Amount)
        ensures
            r@ == storage_cache@.apr_bounded_per_block(),
    {
        storage_cache.farm_token_supply.times(
            &storage_cache.max_annual_percentage_rewards,
        ).div_floor_u64(MAX_PERCENT).div_floor_u64(BLOCKS_IN_YEAR)
    }

    /// Takes note of the rewards that fall due up to `current_block_nonce`
    /// and moves the clock there. Returns what falls due.
    pub fn mint_per_block_rewards(storage_cache: &mut StorageCache, current_block_nonce: Nonce) -> (r:
        Amount)
        ensures
            r@ == old(storage_cache)@.due(current_block_nonce),
            final(storage_cache)@ == old(storage_cache)@.clock_moved(current_block_nonce),
    {
        let last_reward_nonce = storage_cache.last_reward_block_nonce;
        if current_block_nonce <= last_reward_nonce || storage_cache.guild_closing {
            proof {
                let s = storage_cache@;
                assert(s.apr_bounded_per_block() * 0nat == 0) by (nonlinear_arith);
                assert(s.per_block_reward_amount * 0nat == 0) by (nonlinear_arith);
            }
            return Amount::zero();
        }
        let extra_rewards_unbounded = Self::calculate_per_block_rewards(
            storage_cache,
            current_block_nonce,
            last_reward_nonce,
        );
        let extra_rewards_apr_bounded_per_block = Self::get_amount_apr_bounded(storage_cache);
        let block_nonce_diff: u64 = current_block_nonce - last_reward_nonce;
        let extra_rewards_apr_bounded = extra_rewards_apr_bounded_per_block.times_u64(
            block_nonce_diff,
        );
        storage_cache.last_reward_block_nonce = current_block_nonce;
        Amount::min(extra_rewards_unbounded, extra_rewards_apr_bounded)
    }

    /// The rewards that fall due up to `current_block_nonce` beyond what the
    /// capacity covers: what is to be asked of the guild's funder before the
    /// next call, so that the call sets aside all that is due.
    pub fn needed_rewards(storage_cache: &StorageCache, current_block_nonce: Nonce) -> (r: Amount)
        requires
            storage_cache@.wf(),
        ensures
            r@ == storage_cache@.shortfall(current_block_nonce),
    {
        let mut probe = storage_cache.dup();
        let remaining_rewards = probe.reward_capacity.minus(&probe.accumulated_rewards);
        let total_reward = Self::mint_per_block_rewards(&mut probe, current_block_nonce);
        total_reward.saturating_minus(&remaining_rewards)
    }

    /// Sets aside the rewards that fall due up to `current_block_nonce`, as
    /// far as the capacity reaches, and raises the reward per share by them.
    pub fn generate_aggregated_rewards(
        storage_cache: &mut StorageCache,
        current_block_nonce: Nonce,
    )
        requires
            old(storage_cache)@.wf(),
        ensures
            final(storage_cache)@ == old(storage_cache)@.aggregated(current_block_nonce),
            final(storage_cache)@.wf(),
            final(storage_cache)@.reward_per_share >= old(storage_cache)@.reward_per_share,
    {
        let remaining_rewards = storage_cache.reward_capacity.minus(
            &storage_cache.accumulated_rewards,
        );
        let minted = Self::mint_per_block_rewards(storage_cache, current_block_nonce);
        let total_reward = Amount::min(minted, remaining_rewards);
        if total_reward.is_zero() {
            proof {
                let s = old(storage_cache)@;
                assert(0nat * s.division_safety_constant == 0) by (nonlinear_arith);
                assert(s.share_increase(0) == 0);
            }
            return ;
        }
        storage_cache.reward_reserve = storage_cache.reward_reserve.plus(&total_reward);
        storage_cache.accumulated_rewards = storage_cache.accumulated_rewards.plus(&total_reward);
        if storage_cache.farm_token_supply.is_zero() {
            return ;
        }
        let increase = total_reward.times(&storage_cache.division_safety_constant).div_floor(
            &storage_cache.farm_token_supply,
        );
        storage_cache.reward_per_share = storage_cache.reward_per_share.plus(&increase);
    }

    /// What `farm_token_amount` units of a receipt have earned since its
    /// mint. Refuses a receipt whose share price lies above the guild's.
    pub fn calculate_rewards(
        farm_token_amount: &Amount,
        token_attributes: &StakingFarmTokenAttributes,
        storage_cache: &StorageCache,
    ) -> (r: Result<Amount, GuildError>)
        requires
            storage_cache@.division_safety_constant > 0,
        ensures
            token_attributes@.reward_per_share <= storage_cache@.reward_per_share ==> r is Ok
                && r->Ok_0@ == storage_cache@.reward_for(
                farm_token_amount@,
                token_attributes@.reward_per_share,
            ),
            token_attributes@.reward_per_share > storage_cache@.reward_per_share ==> r == Err::<
                Amount,
                GuildError,
            >(GuildError::NegativeReward),
    {
        match storage_cache.reward_per_share.checked_minus(&token_attributes.reward_per_share) {
            Some(reward_per_share_diff) => Ok(
                reward_per_share_diff.times(farm_token_amount).div_floor(
                    &storage_cache.division_safety_constant,
                ),
            ),
            None => Err(GuildError::NegativeReward),
        }
    }

    /// The attributes of the receipt for a new stake.
    pub fn create_enter_farm_initial_attributes(
        farming_token_amount: Amount,
        current_reward_per_share: Amount,
    ) -> (r: StakingFarmTokenAttributes)
        ensures
            r@ == (AttributesView {
                reward_per_share: current_reward_per_share@,
                compounded_reward: 0,
                current_farm_amount: farming_token_amount@,
            }),
    {
        StakingFarmTokenAttributes {
            reward_per_share: current_reward_per_share,
            compounded_reward: Amount::zero(),
            current_farm_amount: farming_token_amount,
        }
    }

    /// The attributes of the receipt that replaces one whose rewards were
    /// paid out: the same position at the current share price.
    pub fn create_claim_rewards_initial_attributes(
        first_token_attributes: StakingFarmTokenAttributes,
        current_reward_per_share: Amount,
    ) -> (r: StakingFarmTokenAttributes)
        ensures
            r@ == (AttributesView {
                reward_per_share: current_reward_per_share@,
                ..first_token_attributes@
            }),
    {
        StakingFarmTokenAttributes {
            reward_per_share: current_reward_per_share,
            compounded_reward: first_token_attributes.compounded_reward,
            current_farm_amount: first_token_attributes.current_farm_amount,
        }
    }

    /// The attributes of the receipt that replaces one whose rewards were
    /// folded into the position.
    pub fn create_compound_rewards_initial_attributes(
        first_token_attributes: StakingFarmTokenAttributes,
        current_reward_per_share: Amount,
        reward: &Amount,
    ) -> (r: StakingFarmTokenAttributes)
        ensures
            r@ == (AttributesView {
                reward_per_share: current_reward_per_share@,
                compounded_reward: first_token_attributes@.compounded_reward + reward@,
                current_farm_amount: first_token_attributes@.current_farm_amount + reward@,
            }),
    {
        let new_pos_compounded_reward = first_token_attributes.compounded_reward.plus(reward);
        let new_pos_current_farm_amount = first_token_attributes.current_farm_amount.plus(reward);
        StakingFarmTokenAttributes {
            reward_per_share: current_reward_per_share,
            compounded_reward: new_pos_compounded_reward,
            current_farm_amount: new_pos_current_farm_amount,
        }
    }

    /// Adds `increase_farm_position_amount` to the user's total position.
    pub fn increase_user_farm_position(
        users: &mut UserBook,
        user: Address,
        increase_farm_position_amount: &Amount,
    )
        requires
            distinct_users(old(users)@),
        ensures
            final(users)@ == user_increased(old(users)@, user, increase_farm_position_amount@),
            distinct_users(final(users)@),
    {
        let mut record: UserRecord = users.get(user);
        record.position.total_farm_position = record.position.total_farm_position.plus(
            increase_farm_position_amount,
        );
        users.set(record);
    }

    /// Takes a receipt that left from the caller's total position, which
    /// never falls below zero. A receipt from before the guild kept totals is
    /// passed over.
    pub fn decrease_user_farm_position(
        users: &mut UserBook,
        migration_nonce: Nonce,
        caller: Address,
        token_nonce: Nonce,
        amount: &Amount,
    )
        requires
            distinct_users(old(users)@),
        ensures
            final(users)@ == user_decreased(
                old(users)@,
                migration_nonce,
                caller,
                token_nonce,
                amount@,
            ),
            distinct_users(final(users)@),
    {
        if token_nonce > 0 && token_nonce < migration_nonce {
            return ;
        }
        let mut record: UserRecord = users.get(caller);
        if amount.lt(&record.position.total_farm_position) {
            record.position.total_farm_position = record.position.total_farm_position.minus(
                amount,
            );
        } else {
            record.position.total_farm_position = Amount::zero();
        }
        users.set(record);
    }
}

} // verus!
