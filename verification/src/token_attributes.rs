//! What a position receipt and an unbond receipt carry.

use crate::amount::Amount;
use crate::common::Epoch;
use vstd::prelude::*;

verus! {

/// The attributes of a position receipt.
#[derive(Debug)]
pub struct StakingFarmTokenAttributes {
    /// The guild's reward per share when the receipt was minted.
    pub reward_per_share: Amount,
    /// The part of the position that came from compounded rewards.
    pub compounded_reward: Amount,
    /// Principal and compounded rewards: what the whole receipt stands for.
    pub current_farm_amount: Amount,
}

/// The attributes of a position receipt, as numbers.
pub struct AttributesView {
    pub reward_per_share: nat,
    pub compounded_reward: nat,
    pub current_farm_amount: nat,
}

impl View for StakingFarmTokenAttributes {
    type V = AttributesView;

    open spec fn view(&self) -> AttributesView {
        AttributesView {
            reward_per_share: self.reward_per_share@,
            compounded_reward: self.compounded_reward@,
            current_farm_amount: self.current_farm_amount@,
        }
    }
}

impl AttributesView {
    /// The compounded rewards are a part of the position.
    pub open spec fn wf(self) -> bool {
        self.compounded_reward <= self.current_farm_amount
    }

    /// The attributes of `amount` units taken out of the receipt: the same
    /// share price, and the compounded rewards in proportion, rounded down.
    pub open spec fn part(self, amount: nat) -> AttributesView {
        if amount == self.current_farm_amount {
            self
        } else {
            AttributesView {
                reward_per_share: self.reward_per_share,
                compounded_reward: self.compounded_reward * amount / self.current_farm_amount,
                current_farm_amount: amount,
            }
        }
    }

    /// The principal: what was staked, without compounded rewards.
    pub open spec fn initial_farming_tokens(self) -> nat {
        if self.compounded_reward <= self.current_farm_amount {
            (self.current_farm_amount - self.compounded_reward) as nat
        } else {
            0
        }
    }
}

/// The attributes of a list of receipts as numbers, in order.
pub open spec fn attribute_views(attributes: Seq<StakingFarmTokenAttributes>) -> Seq<
    AttributesView,
> {
    attributes.map_values(|a: StakingFarmTokenAttributes| a@)
}

/// A proportional share of a part is at most as large as the part taken.
pub proof fn lemma_part_wf(a: AttributesView, amount: nat)
    requires
        a.wf(),
        amount == a.current_farm_amount || a.current_farm_amount > 0,
    ensures
        a.part(amount).wf(),
        a.part(amount).current_farm_amount == amount,
        a.part(amount).reward_per_share == a.reward_per_share,
{
    if amount != a.current_farm_amount {
        let c = a.compounded_reward as int;
        let t = a.current_farm_amount as int;
        let m = amount as int;
        assert(c * m / t <= m) by (nonlinear_arith)
            requires
                0 <= c <= t,
                0 < t,
                0 <= m,
        {
            assert(c * m <= t * m);
            assert((t * m) / t == m);
        }
    }
}

impl StakingFarmTokenAttributes {
    /// A copy of the attributes.
    pub fn dup(&self) -> (r: StakingFarmTokenAttributes)
        ensures
            r@ == self@,
    {
        StakingFarmTokenAttributes {
            reward_per_share: self.reward_per_share.dup(),
            compounded_reward: self.compounded_reward.dup(),
            current_farm_amount: self.current_farm_amount.dup(),
        }
    }

    /// The amount that the whole receipt stands for.
    pub fn get_total_supply(&self) -> (r: Amount)
        ensures
            r@ == self@.current_farm_amount,
    {
        self.current_farm_amount.dup()
    }

    /// The attributes of `payment_amount` units of the receipt.
    pub fn into_part(self, payment_amount: &Amount) -> (r: StakingFarmTokenAttributes)
        requires
            payment_amount@ == self@.current_farm_amount || self@.current_farm_amount > 0,
        ensures
            r@ == self@.part(payment_amount@),
    {
        if payment_amount.same(&self.current_farm_amount) {
            return self;
        }
        let new_compounded_reward = self.compounded_reward.times(payment_amount).div_floor(
            &self.current_farm_amount,
        );
        StakingFarmTokenAttributes {
            reward_per_share: self.reward_per_share,
            compounded_reward: new_compounded_reward,
            current_farm_amount: payment_amount.dup(),
        }
    }

    /// The compounded rewards of the position.
    pub fn get_compounded_rewards(&self) -> (r: Amount)
        ensures
            r@ == self@.compounded_reward,
    {
        self.compounded_reward.dup()
    }

    /// The principal of the position.
    pub fn get_initial_farming_tokens(&self) -> (r: Amount)
        ensures
            r@ == self@.initial_farming_tokens(),
    {
        self.current_farm_amount.saturating_minus(&self.compounded_reward)
    }
}

/// The attributes of an unbond receipt.
#[derive(Debug)]
pub struct UnbondSftAttributes {
    /// The first epoch in which the receipt can be redeemed.
    pub unlock_epoch: Epoch,
    /// The amount that the whole receipt stands for.
    pub supply: Amount,
    /// The attributes of the position that was unstaked, where the receipt
    /// can be cancelled.
    pub opt_original_attributes: Option<StakingFarmTokenAttributes>,
}

/// The attributes of an unbond receipt, as numbers.
pub struct UnbondView {
    pub unlock_epoch: Epoch,
    pub supply: nat,
    pub opt_original_attributes: Option<AttributesView>,
}

impl View for UnbondSftAttributes {
    type V = UnbondView;

    open spec fn view(&self) -> UnbondView {
        UnbondView {
            unlock_epoch: self.unlock_epoch,
            supply: self.supply@,
            opt_original_attributes: match self.opt_original_attributes {
                Some(a) => Some(a@),
                None => None,
            },
        }
    }
}

impl UnbondSftAttributes {
    /// A copy of the attributes.
    pub fn dup(&self) -> (r: UnbondSftAttributes)
        ensures
            r@ == self@,
    {
        let original = match &self.opt_original_attributes {
            Some(a) => Some(a.dup()),
            None => None,
        };
        UnbondSftAttributes {
            unlock_epoch: self.unlock_epoch,
            supply: self.supply.dup(),
            opt_original_attributes: original,
        }
    }
}

} // verus!
