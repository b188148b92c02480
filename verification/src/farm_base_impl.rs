//! Settling receipts: each receipt that a call hands in is burned and its
//! reward worked out at its own share price, before the amounts are added up.
//! Receipts are never merged first and settled after: that would level the
//! share prices and take rewards from their owner.

pub mod compound_rewards;

use crate::amount::Amount;
use crate::base_impl_wrapper::FarmStakingWrapper;
use crate::common::{Address, GuildError, Payment, PaymentView, payment_views};
use crate::ledger::{FarmLedger, FarmLedgerView, lemma_burn, lemma_burn_prices, prices_at_most};
use crate::storage_cache::{StorageCache, StorageView};
use crate::token_attributes::{AttributesView, StakingFarmTokenAttributes, attribute_views};
use vstd::prelude::*;

verus! {

/// What settling a list of receipts has come to.
#[derive(Debug)]
pub struct Settlement {
    /// The ledger without the receipts that were handed in.
    pub ledger: FarmLedger,
    /// The sum of the amounts handed in.
    pub amount: Amount,
    /// The compounded rewards in that sum.
    pub compounded: Amount,
    /// The rewards that the receipts have earned.
    pub rewards: Amount,
    /// The attributes of each part that was handed in, in order.
    pub parts: Vec<StakingFarmTokenAttributes>,
}

/// A settlement, as numbers.
pub struct SettlementView {
    pub ledger: FarmLedgerView,
    pub amount: nat,
    pub compounded: nat,
    pub rewards: nat,
    pub parts: Seq<AttributesView>,
}

impl SettlementView {
    /// Nothing settled yet.
    pub open spec fn start(ledger: FarmLedgerView) -> SettlementView {
        SettlementView { ledger, amount: 0, compounded: 0, rewards: 0, parts: Seq::empty() }
    }
}

impl View for Settlement {
    type V = SettlementView;

    open spec fn view(&self) -> SettlementView {
        SettlementView {
            ledger: self.ledger@,
            amount: self.amount@,
            compounded: self.compounded@,
            rewards: self.rewards@,
            parts: attribute_views(self.parts@),
        }
    }
}

/// The settlement after one more receipt, or why the receipt is refused.
pub open spec fn settle_one(
    acc: SettlementView,
    storage: StorageView,
    caller: Address,
    payment: PaymentView,
) -> Result<SettlementView, GuildError> {
    if Some(payment.token) != storage.farm_token_id {
        Err(GuildError::InvalidToken)
    } else {
        match acc.ledger.burn(caller, payment.nonce, payment.amount) {
            Err(e) => Err(e),
            Ok((ledger, part)) => if part.reward_per_share > storage.reward_per_share {
                Err(GuildError::NegativeReward)
            } else {
                Ok(
                    SettlementView {
                        ledger,
                        amount: acc.amount + payment.amount,
                        compounded: acc.compounded + part.compounded_reward,
                        rewards: acc.rewards + storage.reward_for(
                            payment.amount,
                            part.reward_per_share,
                        ),
                        parts: acc.parts.push(part),
                    },
                )
            },
        }
    }
}

/// The settlement after the receipts from `from` on, one after the other.
pub open spec fn settle_from(
    acc: SettlementView,
    storage: StorageView,
    caller: Address,
    payments: Seq<PaymentView>,
    from: int,
) -> Result<SettlementView, GuildError>
    decreases payments.len() - from,
{
    if from < 0 || from >= payments.len() {
        Ok(acc)
    } else {
        match settle_one(acc, storage, caller, payments[from]) {
            Err(e) => Err(e),
            Ok(next) => settle_from(next, storage, caller, payments, from + 1),
        }
    }
}

/// The settlement of all the receipts that a call hands in.
pub open spec fn settle(
    ledger: FarmLedgerView,
    storage: StorageView,
    caller: Address,
    payments: Seq<PaymentView>,
) -> Result<SettlementView, GuildError> {
    settle_from(SettlementView::start(ledger), storage, caller, payments, 0)
}

/// The attributes of the one receipt that replaces settled receipts: their
/// amounts and compounded rewards added up, with `reward` folded in, at the
/// current share price.
pub open spec fn merged_attributes(storage: StorageView, settlement: SettlementView, reward: nat)
    -> AttributesView {
    AttributesView {
        reward_per_share: storage.reward_per_share,
        compounded_reward: settlement.compounded + reward,
        current_farm_amount: settlement.amount + reward,
    }
}

/// What a settlement keeps: the ledger stays well formed and under the share
/// price, what left the ledger is what was added up, and the compounded part
/// stays a part.
pub open spec fn settlement_kept(
    before: SettlementView,
    after: SettlementView,
    storage: StorageView,
) -> bool {
    &&& after.ledger.wf()
    &&& prices_at_most(after.ledger.positions, storage.reward_per_share)
    &&& after.ledger.last_nonce == before.ledger.last_nonce
    &&& after.ledger.total() + after.amount == before.ledger.total() + before.amount
    &&& after.amount >= before.amount
    &&& after.compounded <= after.amount
    &&& after.rewards >= before.rewards
    &&& after.parts.len() >= before.parts.len()
}

/// Settling keeps what `settlement_kept` says, and takes something out of the
/// ledger where there is a receipt to settle.
pub proof fn lemma_settle_from(
    acc: SettlementView,
    storage: StorageView,
    caller: Address,
    payments: Seq<PaymentView>,
    from: int,
)
    requires
        0 <= from <= payments.len(),
        acc.ledger.wf(),
        prices_at_most(acc.ledger.positions, storage.reward_per_share),
        acc.compounded <= acc.amount,
        settle_from(acc, storage, caller, payments, from) is Ok,
    ensures
        settlement_kept(acc, settle_from(acc, storage, caller, payments, from)->Ok_0, storage),
        from < payments.len() ==> settle_from(acc, storage, caller, payments, from)->Ok_0.amount
            > acc.amount,
        settle_from(acc, storage, caller, payments, from)->Ok_0.parts.len() == acc.parts.len()
            + payments.len() - from,
    decreases payments.len() - from,
{
    if from < payments.len() {
        let p = payments[from];
        let next = settle_one(acc, storage, caller, p)->Ok_0;
        lemma_burn(acc.ledger, caller, p.nonce, p.amount);
        lemma_burn_prices(acc.ledger, caller, p.nonce, p.amount, storage.reward_per_share);
        lemma_settle_from(next, storage, caller, payments, from + 1);
    }
}

impl FarmStakingWrapper {
    /// Burns the receipts that `caller` hands in from a copy of `ledger`, one
    /// after the other, and works out what each has earned at the share price
    /// of `storage_cache`.
    pub fn settle_positions(
        ledger: &FarmLedger,
        storage_cache: &StorageCache,
        caller: Address,
        payments: &Vec<Payment>,
    ) -> (r: Result<Settlement, GuildError>)
        requires
            ledger@.wf(),
            storage_cache@.division_safety_constant > 0,
        ensures
            match r {
                Ok(settlement) => settle(
                    ledger@,
                    storage_cache@,
                    caller,
                    payment_views(payments@),
                ) == Ok::<SettlementView, GuildError>(settlement@),
                Err(e) => settle(ledger@, storage_cache@, caller, payment_views(payments@))
                    == Err::<SettlementView, GuildError>(e),
            },
    {
        let mut acc = Settlement {
            ledger: ledger.dup(),
            amount: Amount::zero(),
            compounded: Amount::zero(),
            rewards: Amount::zero(),
            parts: Vec::new(),
        };
        assert(acc@.parts =~= Seq::<AttributesView>::empty());
        let mut i: usize = 0;
        while i < payments.len()
            invariant
                i <= payments.len(),
                acc.ledger@.wf(),
                storage_cache@.division_safety_constant > 0,
                settle(ledger@, storage_cache@, caller, payment_views(payments@)) == settle_from(
                    acc@,
                    storage_cache@,
                    caller,
                    payment_views(payments@),
                    i as int,
                ),
            decreases payments.len() - i,
        {
            let payment = &payments[i];
            assert(payment_views(payments@)[i as int] == payment@);
            if storage_cache.farm_token_id != Some(payment.token) {
                return Err(GuildError::InvalidToken);
            }
            let part = match acc.ledger.burn(caller, payment.nonce, &payment.amount) {
                Ok(part) => part,
                Err(e) => {
                    return Err(e);
                },
            };
            let reward = match FarmStakingWrapper::calculate_rewards(
                &payment.amount,
                &part,
                storage_cache,
            ) {
                Ok(reward) => reward,
                Err(e) => {
                    return Err(e);
                },
            };
            let ghost before = acc@;
            acc.amount = acc.amount.plus(&payment.amount);
            acc.compounded = acc.compounded.plus(&part.compounded_reward);
            acc.rewards = acc.rewards.plus(&reward);
            acc.parts.push(part);
            assert(acc@.parts =~= before.parts.push(part@));
            i = i + 1;
        }
        Ok(acc)
    }
}

} // verus!
