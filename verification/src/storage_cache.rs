//! The guild's counters: loaded once at the start of a call, changed in
//! memory, and written back when the call has gone through.

use crate::amount::Amount;
use crate::common::{BLOCKS_IN_YEAR, MAX_PERCENT, Nonce, State, TokenId};
use vstd::prelude::*;

verus! {

/// A snapshot of the guild's counters.
#[derive(Debug)]
pub struct StorageCache {
    pub contract_state: State,
    pub farm_token_id: Option<TokenId>,
    pub farming_token_id: TokenId,
    pub reward_token_id: TokenId,
    /// The sum of the amounts of all outstanding position receipts.
    pub farm_token_supply: Amount,
    /// Rewards that were set aside and not yet paid out.
    pub reward_reserve: Amount,
    /// The rewards that one unit of stake has earned since the guild began,
    /// scaled by the division safety constant.
    pub reward_per_share: Amount,
    pub division_safety_constant: Amount,
    /// All rewards that were ever set aside.
    pub accumulated_rewards: Amount,
    /// The most that may ever be set aside.
    pub reward_capacity: Amount,
    pub per_block_reward_amount: Amount,
    /// The highest yearly rate at which stake may earn, out of `MAX_PERCENT`.
    pub max_annual_percentage_rewards: Amount,
    /// The block up to which rewards were set aside.
    pub last_reward_block_nonce: Nonce,
    /// Closing is final: a closing guild takes no entries and sets no rewards
    /// aside.
    pub guild_closing: bool,
}

/// The guild's counters, as numbers.
pub struct StorageView {
    pub contract_state: State,
    pub farm_token_id: Option<TokenId>,
    pub farming_token_id: TokenId,
    pub reward_token_id: TokenId,
    pub farm_token_supply: nat,
    pub reward_reserve: nat,
    pub reward_per_share: nat,
    pub division_safety_constant: nat,
    pub accumulated_rewards: nat,
    pub reward_capacity: nat,
    pub per_block_reward_amount: nat,
    pub max_annual_percentage_rewards: nat,
    pub last_reward_block_nonce: Nonce,
    pub guild_closing: bool,
}

impl View for StorageCache {
    type V = StorageView;

    open spec fn view(&self) -> StorageView {
        StorageView {
            contract_state: self.contract_state,
            farm_token_id: self.farm_token_id,
            farming_token_id: self.farming_token_id,
            reward_token_id: self.reward_token_id,
            farm_token_supply: self.farm_token_supply@,
            reward_reserve: self.reward_reserve@,
            reward_per_share: self.reward_per_share@,
            division_safety_constant: self.division_safety_constant@,
            accumulated_rewards: self.accumulated_rewards@,
            reward_capacity: self.reward_capacity@,
            per_block_reward_amount: self.per_block_reward_amount@,
            max_annual_percentage_rewards: self.max_annual_percentage_rewards@,
            last_reward_block_nonce: self.last_reward_block_nonce,
            guild_closing: self.guild_closing,
        }
    }
}

/// The smaller of two numbers.
pub open spec fn min_nat(a: nat, b: nat) -> nat {
    if a <= b {
        a
    } else {
        b
    }
}

impl StorageView {
    /// Rewards stay within the capacity, the reserve within the rewards, and
    /// the scale is not zero.
    pub open spec fn wf(self) -> bool {
        &&& self.division_safety_constant > 0
        &&& self.reward_reserve <= self.accumulated_rewards <= self.reward_capacity
    }

    /// The blocks since rewards were last set aside.
    pub open spec fn blocks_elapsed(self, block: Nonce) -> nat {
        if block <= self.last_reward_block_nonce {
            0
        } else {
            (block - self.last_reward_block_nonce) as nat
        }
    }

    /// What the per-block rate yields up to `block`.
    pub open spec fn per_block_rewards(self, block: Nonce) -> nat {
        self.per_block_reward_amount * self.blocks_elapsed(block)
    }

    /// What the whole stake may earn in one block at the highest yearly rate.
    pub open spec fn apr_bounded_per_block(self) -> nat {
        self.farm_token_supply * self.max_annual_percentage_rewards / (MAX_PERCENT as nat) / (
        BLOCKS_IN_YEAR as nat)
    }

    /// The rewards that fall due up to `block`: what the per-block rate
    /// yields, capped by the highest yearly rate; nothing in a closing guild.
    pub open spec fn due(self, block: Nonce) -> nat {
        if self.guild_closing {
            0
        } else {
            min_nat(
                self.per_block_rewards(block),
                self.apr_bounded_per_block() * self.blocks_elapsed(block),
            )
        }
    }

    /// The rewards that can still be set aside.
    pub open spec fn remaining_capacity(self) -> nat {
        if self.accumulated_rewards <= self.reward_capacity {
            (self.reward_capacity - self.accumulated_rewards) as nat
        } else {
            0
        }
    }

    /// The rewards that are set aside up to `block`: what falls due, as far
    /// as the capacity reaches.
    pub open spec fn granted(self, block: Nonce) -> nat {
        min_nat(self.due(block), self.remaining_capacity())
    }

    /// The rewards that fall due up to `block` and that the capacity does
    /// not cover: what the guild has to ask its funder for, if all that is
    /// due is to be set aside.
    pub open spec fn shortfall(self, block: Nonce) -> nat {
        if self.due(block) > self.remaining_capacity() {
            (self.due(block) - self.remaining_capacity()) as nat
        } else {
            0
        }
    }

    /// The counters once the due rewards were taken note of: the clock moves
    /// on, unless the guild is closing.
    pub open spec fn clock_moved(self, block: Nonce) -> StorageView {
        if block <= self.last_reward_block_nonce || self.guild_closing {
            self
        } else {
            StorageView { last_reward_block_nonce: block, ..self }
        }
    }

    /// By how much the reward per share rises when `total` is set aside:
    /// the scaled reward over the supply, rounded down; nothing while nobody
    /// has a stake.
    pub open spec fn share_increase(self, total: nat) -> nat {
        if self.farm_token_supply == 0 {
            0
        } else {
            total * self.division_safety_constant / self.farm_token_supply
        }
    }

    /// The counters after the rewards up to `block` were set aside.
    pub open spec fn aggregated(self, block: Nonce) -> StorageView {
        let total = self.granted(block);
        let moved = self.clock_moved(block);
        StorageView {
            reward_reserve: self.reward_reserve + total,
            accumulated_rewards: self.accumulated_rewards + total,
            reward_per_share: self.reward_per_share + self.share_increase(total),
            ..moved
        }
    }

    /// What `amount` units of stake have earned since the reward per share
    /// stood at `reward_per_share_at_mint`, rounded down.
    pub open spec fn reward_for(self, amount: nat, reward_per_share_at_mint: nat) -> nat {
        if reward_per_share_at_mint <= self.reward_per_share {
            ((self.reward_per_share - reward_per_share_at_mint) * amount
                / self.division_safety_constant as int) as nat
        } else {
            0
        }
    }
}

/// With the shortfall deposited, all that falls due is set aside.
pub proof fn lemma_shortfall_covers_due(s: StorageView, block: Nonce)
    requires
        s.wf(),
    ensures
        (StorageView { reward_capacity: s.reward_capacity + s.shortfall(block), ..s }).granted(
            block,
        ) == s.due(block),
{
    let funded = StorageView { reward_capacity: s.reward_capacity + s.shortfall(block), ..s };
    assert(funded.due(block) == s.due(block));
}

impl StorageCache {
    /// Whether the counters are sound: what the accrual asks of them.
    pub fn is_well_formed(&self) -> (r: bool)
        ensures
            r == self@.wf(),
    {
        !self.division_safety_constant.is_zero() && self.reward_reserve.le(
            &self.accumulated_rewards,
        ) && self.accumulated_rewards.le(&self.reward_capacity)
    }

    /// A copy of the counters.
    pub fn dup(&self) -> (r: StorageCache)
        ensures
            r@ == self@,
    {
        StorageCache {
            contract_state: self.contract_state,
            farm_token_id: self.farm_token_id,
            farming_token_id: self.farming_token_id,
            reward_token_id: self.reward_token_id,
            farm_token_supply: self.farm_token_supply.dup(),
            reward_reserve: self.reward_reserve.dup(),
            reward_per_share: self.reward_per_share.dup(),
            division_safety_constant: self.division_safety_constant.dup(),
            accumulated_rewards: self.accumulated_rewards.dup(),
            reward_capacity: self.reward_capacity.dup(),
            per_block_reward_amount: self.per_block_reward_amount.dup(),
            max_annual_percentage_rewards: self.max_annual_percentage_rewards.dup(),
            last_reward_block_nonce: self.last_reward_block_nonce,
            guild_closing: self.guild_closing,
        }
    }
}

} // verus!
