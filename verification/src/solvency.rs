//! The reserve covers what the receipts have earned.
//!
//! Every rise of the reward per share is rounded down, and so is every
//! reward that is paid out. So the rewards that the outstanding receipts have
//! earned, taken together, never exceed what was set aside for them: as long
//! as the reserve is used for nothing else, no receipt finds it empty.

use crate::base_impl_wrapper::lemma_user_increased;
use crate::common::{Address, GuildError, Nonce, PaymentView};
use crate::config::{UserRecordView, lemma_store_user, lookup_user};
use crate::farm_base_impl::{
    SettlementView, lemma_settle_from, merged_attributes, settle, settle_from, settle_one,
};
use crate::guild::GuildView;
use crate::laws::{Call, after_call, after_calls, lemma_call_keeps_guild};
use crate::ledger::{
    FarmLedgerView, FarmPositionView, index_of, lemma_burn, lemma_burn_prices, lemma_prices_rise,
    prices_at_most, total_amount,
};
use crate::storage_cache::StorageView;
use crate::token_attributes::AttributesView;
use crate::user_actions::stake_farm::staked_attributes;
use vstd::prelude::*;

verus! {

/// What the holdings have earned at the share price `reward_per_share`,
/// scaled by the division safety constant and before any rounding.
pub open spec fn owed_scaled(s: Seq<FarmPositionView>, reward_per_share: nat) -> int
    decreases s.len(),
{
    if s.len() == 0 {
        0
    } else {
        owed_scaled(s.drop_last(), reward_per_share) + (reward_per_share
            - s.last().attributes.reward_per_share) * s.last().amount
    }
}

/// The reserve covers what the holdings have earned.
pub open spec fn covered(ledger: FarmLedgerView, storage: StorageView) -> bool {
    owed_scaled(ledger.positions, storage.reward_per_share) <= storage.reward_reserve
        * storage.division_safety_constant
}

/// The reserve of the guild covers what its receipts have earned.
pub open spec fn solvent(g: GuildView) -> bool {
    covered(g.farm_token, g.storage)
}

/// A new holding adds what it has earned.
pub proof fn lemma_owed_push(s: Seq<FarmPositionView>, p: FarmPositionView, rps: nat)
    ensures
        owed_scaled(s.push(p), rps) == owed_scaled(s, rps) + (rps
            - p.attributes.reward_per_share) * p.amount,
{
    assert(s.push(p).drop_last() =~= s);
}

/// A holding that leaves takes along what it has earned.
pub proof fn lemma_owed_remove(s: Seq<FarmPositionView>, i: int, rps: nat)
    requires
        0 <= i < s.len(),
    ensures
        owed_scaled(s.remove(i), rps) + (rps - s[i].attributes.reward_per_share) * s[i].amount
            == owed_scaled(s, rps),
    decreases s.len(),
{
    if i == s.len() - 1 {
        assert(s.remove(i) =~= s.drop_last());
    } else {
        lemma_owed_remove(s.drop_last(), i, rps);
        assert(s.remove(i).drop_last() =~= s.drop_last().remove(i));
    }
}

/// A holding that changes changes what is earned by the difference.
pub proof fn lemma_owed_update(s: Seq<FarmPositionView>, i: int, p: FarmPositionView, rps: nat)
    requires
        0 <= i < s.len(),
    ensures
        owed_scaled(s.update(i, p), rps) + (rps - s[i].attributes.reward_per_share) * s[i].amount
            == owed_scaled(s, rps) + (rps - p.attributes.reward_per_share) * p.amount,
    decreases s.len(),
{
    if i == s.len() - 1 {
        assert(s.update(i, p).drop_last() =~= s.drop_last());
    } else {
        lemma_owed_update(s.drop_last(), i, p, rps);
        assert(s.update(i, p).drop_last() =~= s.drop_last().update(i, p));
    }
}

/// When the share price rises, every unit of every holding earns the rise.
pub proof fn lemma_owed_shift(s: Seq<FarmPositionView>, rps: nat, rise: nat)
    ensures
        owed_scaled(s, rps + rise) == owed_scaled(s, rps) + rise * total_amount(s),
    decreases s.len(),
{
    if s.len() > 0 {
        lemma_owed_shift(s.drop_last(), rps, rise);
        let r = s.last().attributes.reward_per_share as int;
        let a = s.last().amount as int;
        let t = total_amount(s.drop_last()) as int;
        let x = rps as int;
        let d = rise as int;
        assert((x + d - r) * a == (x - r) * a + d * a) by (nonlinear_arith);
        assert(d * (t + a) == d * t + d * a) by (nonlinear_arith);
    } else {
        assert(rise * 0 == 0) by (nonlinear_arith);
    }
}

/// What is earned is never negative while no holding stands above the share
/// price.
pub proof fn lemma_owed_not_negative(s: Seq<FarmPositionView>, rps: nat)
    requires
        prices_at_most(s, rps),
    ensures
        owed_scaled(s, rps) >= 0,
    decreases s.len(),
{
    if s.len() > 0 {
        assert forall|i: int| 0 <= i < s.drop_last().len() implies (
        #[trigger] s.drop_last()[i]).attributes.reward_per_share <= rps by {
            assert(s[i].attributes.reward_per_share <= rps);
        }
        lemma_owed_not_negative(s.drop_last(), rps);
        let last = s[s.len() - 1];
        assert(last.attributes.reward_per_share <= rps);
        let r = (rps - last.attributes.reward_per_share) as int;
        let a = last.amount as int;
        assert(r * a >= 0) by (nonlinear_arith)
            requires
                r >= 0,
                a >= 0,
        ;
    }
}

/// A quotient that was rounded down, scaled up again, is not above the
/// number that was divided.
pub proof fn lemma_floor(x: int, d: int)
    requires
        x >= 0,
        d > 0,
    ensures
        (x / d) * d <= x,
        x / d >= 0,
{
    assert((x / d) * d <= x && x / d >= 0) by (nonlinear_arith)
        requires
            x >= 0,
            d > 0,
    ;
}

/// Setting rewards aside keeps the reserve covering what is earned: the rise
/// of the share price was rounded down.
pub proof fn lemma_aggregated_covered(ledger: FarmLedgerView, storage: StorageView, block: Nonce)
    requires
        storage.wf(),
        ledger.total() == storage.farm_token_supply,
        covered(ledger, storage),
    ensures
        covered(ledger, storage.aggregated(block)),
{
    let total = storage.granted(block) as int;
    let rise = storage.share_increase(storage.granted(block)) as int;
    let dsc = storage.division_safety_constant as int;
    let supply = storage.farm_token_supply as int;
    let reserve = storage.reward_reserve as int;
    lemma_owed_shift(ledger.positions, storage.reward_per_share, rise as nat);
    if supply > 0 {
        assert(total * dsc >= 0) by (nonlinear_arith)
            requires
                total >= 0,
                dsc > 0,
        ;
        lemma_floor(total * dsc, supply);
    } else {
        assert(rise * supply == 0) by (nonlinear_arith)
            requires
                supply == 0,
        ;
        assert(total * dsc >= 0) by (nonlinear_arith)
            requires
                total >= 0,
                dsc > 0,
        ;
    }
    assert(rise * supply <= total * dsc);
    assert((reserve + total) * dsc == reserve * dsc + total * dsc) by (nonlinear_arith);
}

/// Burning a part of a receipt takes what the part has earned out of what
/// is earned.
pub proof fn lemma_burn_owed(
    l: FarmLedgerView,
    owner: Address,
    nonce: Nonce,
    amount: nat,
    rps: nat,
)
    requires
        l.wf(),
        l.burn(owner, nonce, amount) is Ok,
    ensures
        owed_scaled(l.burn(owner, nonce, amount)->Ok_0.0.positions, rps) + (rps - l.burn(
            owner,
            nonce,
            amount,
        )->Ok_0.1.reward_per_share) * amount == owed_scaled(l.positions, rps),
{
    let i = index_of(l.positions, nonce);
    let p = l.positions[i];
    lemma_burn(l, owner, nonce, amount);
    if amount == p.amount {
        lemma_owed_remove(l.positions, i, rps);
    } else {
        let q = FarmPositionView { amount: (p.amount - amount) as nat, ..p };
        lemma_owed_update(l.positions, i, q, rps);
        let r = (rps - p.attributes.reward_per_share) as int;
        let a = p.amount as int;
        let b = amount as int;
        assert(r * (a - b) + r * b == r * a) by (nonlinear_arith);
    }
}

/// Settling pays no more than the receipts handed in have earned.
pub proof fn lemma_settle_owed(
    acc: SettlementView,
    storage: StorageView,
    caller: Address,
    payments: Seq<PaymentView>,
    from: int,
)
    requires
        0 <= from <= payments.len(),
        acc.ledger.wf(),
        prices_at_most(acc.ledger.positions, storage.reward_per_share),
        storage.division_safety_constant > 0,
        settle_from(acc, storage, caller, payments, from) is Ok,
    ensures
        owed_scaled(
            settle_from(acc, storage, caller, payments, from)->Ok_0.ledger.positions,
            storage.reward_per_share,
        ) + (settle_from(acc, storage, caller, payments, from)->Ok_0.rewards - acc.rewards)
            * storage.division_safety_constant <= owed_scaled(
            acc.ledger.positions,
            storage.reward_per_share,
        ),
    decreases payments.len() - from,
{
    let dsc = storage.division_safety_constant as int;
    if from < payments.len() {
        let p = payments[from];
        let next = settle_one(acc, storage, caller, p)->Ok_0;
        let part = acc.ledger.burn(caller, p.nonce, p.amount)->Ok_0.1;
        let out = settle_from(acc, storage, caller, payments, from)->Ok_0;
        lemma_burn(acc.ledger, caller, p.nonce, p.amount);
        lemma_burn_prices(acc.ledger, caller, p.nonce, p.amount, storage.reward_per_share);
        lemma_burn_owed(acc.ledger, caller, p.nonce, p.amount, storage.reward_per_share);
        lemma_settle_owed(next, storage, caller, payments, from + 1);
        let earned = (storage.reward_per_share - part.reward_per_share) * p.amount;
        let reward = storage.reward_for(p.amount, part.reward_per_share) as int;
        assert(earned >= 0) by (nonlinear_arith)
            requires
                earned == (storage.reward_per_share - part.reward_per_share) * p.amount,
                storage.reward_per_share >= part.reward_per_share,
        ;
        lemma_floor(earned, dsc);
        assert(reward == earned / dsc);
        let a = (out.rewards - next.rewards) as int;
        assert((a + reward) * dsc == a * dsc + reward * dsc) by (nonlinear_arith);
    } else {
        assert(0 * dsc == 0) by (nonlinear_arith);
    }
}

/// A settlement is refused only for what is wrong with a receipt.
pub proof fn lemma_settle_refusals(
    acc: SettlementView,
    storage: StorageView,
    caller: Address,
    payments: Seq<PaymentView>,
    from: int,
)
    requires
        0 <= from <= payments.len(),
    ensures
        settle_from(acc, storage, caller, payments, from) matches Err(e) ==> e
            == GuildError::InvalidToken || e == GuildError::ZeroAmount || e
            == GuildError::UnknownReceipt || e == GuildError::InsufficientBalance || e
            == GuildError::NegativeReward,
    decreases payments.len() - from,
{
    if from < payments.len() {
        match settle_one(acc, storage, caller, payments[from]) {
            Ok(next) => {
                lemma_settle_refusals(next, storage, caller, payments, from + 1);
            },
            Err(_) => {},
        }
    }
}

/// In a solvent guild the reserve holds what a settlement has to pay, and
/// covers what the rest of the receipts have earned after it was paid.
pub proof fn lemma_settlement_is_covered(
    g: GuildView,
    caller: Address,
    payments: Seq<PaymentView>,
    block: Nonce,
)
    requires
        g.wf(),
        solvent(g),
        settle(g.farm_token, g.storage.aggregated(block), caller, payments) is Ok,
    ensures
        ({
            let storage = g.storage.aggregated(block);
            let settlement = settle(g.farm_token, storage, caller, payments)->Ok_0;
            &&& settlement.rewards <= storage.reward_reserve
            &&& owed_scaled(settlement.ledger.positions, storage.reward_per_share) <= (
            storage.reward_reserve - settlement.rewards) * storage.division_safety_constant
        }),
{
    let storage = g.storage.aggregated(block);
    let settlement = settle(g.farm_token, storage, caller, payments)->Ok_0;
    let dsc = storage.division_safety_constant as int;
    let reserve = storage.reward_reserve as int;
    let rewards = settlement.rewards as int;
    lemma_prices_rise(
        g.farm_token.positions,
        g.storage.reward_per_share,
        storage.reward_per_share,
    );
    lemma_aggregated_covered(g.farm_token, g.storage, block);
    lemma_settle_owed(SettlementView::start(g.farm_token), storage, caller, payments, 0);
    lemma_settle_from(
        SettlementView::start(g.farm_token),
        storage,
        caller,
        payments,
        0,
    );
    lemma_owed_not_negative(settlement.ledger.positions, storage.reward_per_share);
    assert(rewards * dsc <= reserve * dsc);
    assert(rewards <= reserve) by (nonlinear_arith)
        requires
            rewards * dsc <= reserve * dsc,
            dsc > 0,
    ;
    assert((reserve - rewards) * dsc == reserve * dsc - rewards * dsc) by (nonlinear_arith);
}

/// In a solvent guild no claim is refused for want of rewards in the
/// reserve, and the guild is solvent after the claim.
pub proof fn lemma_claim_finds_its_rewards(
    g: GuildView,
    caller: Address,
    payments: Seq<PaymentView>,
    block: Nonce,
)
    requires
        g.wf(),
        solvent(g),
    ensures
        g.claim_rewards(caller, payments, block) matches Err(e) ==> e
            != GuildError::InsufficientReserve,
        g.claim_rewards(caller, payments, block) matches Ok(r) ==> solvent(r.0),
{
    let storage = g.storage.aggregated(block);
    lemma_settle_refusals(SettlementView::start(g.farm_token), storage, caller, payments, 0);
    if settle(g.farm_token, storage, caller, payments) is Ok {
        let settlement = settle(g.farm_token, storage, caller, payments)->Ok_0;
        lemma_settlement_is_covered(g, caller, payments, block);
        if g.claim_rewards(caller, payments, block) is Ok {
            let attributes = merged_attributes(storage, settlement, 0);
            lemma_owed_push(
                settlement.ledger.positions,
                FarmPositionView {
                    nonce: (settlement.ledger.last_nonce + 1) as Nonce,
                    owner: caller,
                    amount: attributes.current_farm_amount,
                    attributes,
                },
                storage.reward_per_share,
            );
            assert(0 * attributes.current_farm_amount == 0) by (nonlinear_arith);
        }
    }
}

/// In a solvent guild no compounding is refused for want of rewards in the
/// reserve, and the guild is solvent after it.
pub proof fn lemma_compounding_finds_its_rewards(
    g: GuildView,
    caller: Address,
    payments: Seq<PaymentView>,
    block: Nonce,
)
    requires
        g.wf(),
        solvent(g),
    ensures
        g.compound_rewards_base(caller, payments, block) matches Err(e) ==> e
            != GuildError::InsufficientReserve,
        g.compound_rewards_base(caller, payments, block) matches Ok(r) ==> solvent(r.0),
{
    let storage = g.storage.aggregated(block);
    lemma_settle_refusals(SettlementView::start(g.farm_token), storage, caller, payments, 0);
    if settle(g.farm_token, storage, caller, payments) is Ok {
        let settlement = settle(g.farm_token, storage, caller, payments)->Ok_0;
        lemma_settlement_is_covered(g, caller, payments, block);
        if g.compound_rewards_base(caller, payments, block) is Ok {
            let attributes = merged_attributes(
                storage,
                settlement,
                settlement.rewards,
            );
            lemma_owed_push(
                settlement.ledger.positions,
                FarmPositionView {
                    nonce: (settlement.ledger.last_nonce + 1) as Nonce,
                    owner: caller,
                    amount: attributes.current_farm_amount,
                    attributes,
                },
                storage.reward_per_share,
            );
            assert(0 * attributes.current_farm_amount == 0) by (nonlinear_arith);
        }
    }
}

/// In a ledger that the reserve covers, the reserve holds what one part of a
/// receipt has earned, and covers the rest after the part was paid.
pub proof fn lemma_burn_is_covered(
    ledger: FarmLedgerView,
    storage: StorageView,
    owner: Address,
    nonce: Nonce,
    amount: nat,
)
    requires
        ledger.wf(),
        prices_at_most(ledger.positions, storage.reward_per_share),
        storage.division_safety_constant > 0,
        covered(ledger, storage),
        ledger.burn(owner, nonce, amount) is Ok,
    ensures
        ({
            let burned = ledger.burn(owner, nonce, amount)->Ok_0;
            let reward = storage.reward_for(amount, burned.1.reward_per_share);
            &&& reward <= storage.reward_reserve
            &&& owed_scaled(burned.0.positions, storage.reward_per_share) <= (
            storage.reward_reserve - reward) * storage.division_safety_constant
        }),
{
    let burned = ledger.burn(owner, nonce, amount)->Ok_0;
    let dsc = storage.division_safety_constant as int;
    let reserve = storage.reward_reserve as int;
    let reward = storage.reward_for(amount, burned.1.reward_per_share) as int;
    let earned = (storage.reward_per_share - burned.1.reward_per_share) * amount;
    lemma_burn(ledger, owner, nonce, amount);
    lemma_burn_prices(ledger, owner, nonce, amount, storage.reward_per_share);
    lemma_burn_owed(ledger, owner, nonce, amount, storage.reward_per_share);
    lemma_owed_not_negative(burned.0.positions, storage.reward_per_share);
    assert(earned >= 0) by (nonlinear_arith)
        requires
            earned == (storage.reward_per_share - burned.1.reward_per_share) * amount,
            storage.reward_per_share >= burned.1.reward_per_share,
    ;
    lemma_floor(earned, dsc);
    assert(reward == earned / dsc);
    assert(reward * dsc <= reserve * dsc);
    assert(reward <= reserve) by (nonlinear_arith)
        requires
            reward * dsc <= reserve * dsc,
            dsc > 0,
    ;
    assert((reserve - reward) * dsc == reserve * dsc - reward * dsc) by (nonlinear_arith);
}

/// A receipt minted at the share price has earned nothing yet.
pub proof fn lemma_mint_owed(
    ledger: FarmLedgerView,
    owner: Address,
    attributes: AttributesView,
)
    ensures
        owed_scaled(ledger.mint(owner, attributes).positions, attributes.reward_per_share)
            == owed_scaled(ledger.positions, attributes.reward_per_share),
{
    lemma_owed_push(
        ledger.positions,
        FarmPositionView {
            nonce: (ledger.last_nonce + 1) as Nonce,
            owner,
            amount: attributes.current_farm_amount,
            attributes,
        },
        attributes.reward_per_share,
    );
    assert(0 * attributes.current_farm_amount == 0) by (nonlinear_arith);
}

/// Whether a call takes from the reserve only what receipts have earned:
/// every call does, but those that pay boosted rewards out of it.
pub open spec fn spends_only_earned(call: Call) -> bool {
    match call {
        Call::Merge { boosted_rewards, .. } => boosted_rewards == 0,
        Call::ClaimBoosted { boosted_rewards, .. } => boosted_rewards == 0,
        _ => true,
    }
}

/// A call that takes from the reserve only what receipts have earned leaves a
/// solvent guild solvent, and is not refused for want of rewards in the
/// reserve.
pub proof fn lemma_call_keeps_solvent(g: GuildView, call: Call)
    requires
        g.wf(),
        solvent(g),
        spends_only_earned(call),
    ensures
        solvent(after_call(g, call)),
        !refused_for_want_of_rewards(g, call),
{
    match call {
        Call::Stake { caller, payment, additional, min_stake, max_staked_tokens, block } => {
            let storage = g.storage.aggregated(block);
            lemma_settle_refusals(
                SettlementView::start(g.farm_token),
                storage,
                caller,
                additional,
                0,
            );
            if settle(g.farm_token, storage, caller, additional) is Ok {
                let settlement = settle(g.farm_token, storage, caller, additional)->Ok_0;
                lemma_settlement_is_covered(g, caller, additional, block);
                lemma_mint_owed(
                    settlement.ledger,
                    caller,
                    staked_attributes(
                        storage,
                        settlement,
                        payment.amount,
                    ),
                );
            }
        },
        Call::Claim { caller, payments, block } => {
            lemma_claim_finds_its_rewards(g, caller, payments, block);
        },
        Call::Compound { caller, payments, block } => {
            lemma_compounding_finds_its_rewards(g, caller, payments, block);
        },
        Call::Unstake { caller, payment, min_unbond_epochs, block, epoch } => {
            let storage = g.storage.aggregated(block);
            lemma_prices_rise(
                g.farm_token.positions,
                g.storage.reward_per_share,
                storage.reward_per_share,
            );
            lemma_aggregated_covered(g.farm_token, g.storage, block);
            if g.farm_token.burn(caller, payment.nonce, payment.amount) is Ok {
                lemma_burn_is_covered(
                    g.farm_token,
                    storage,
                    caller,
                    payment.nonce,
                    payment.amount,
                );
            }
        },
        Call::Unbond { caller, payments, epoch } => {},
        Call::CancelUnbond { caller, payment, block } => {
            let storage = g.storage.aggregated(block);
            lemma_aggregated_covered(g.farm_token, g.storage, block);
            if g.cancel_unbond(caller, payment, block) is Ok {
                let taken = g.unbond_token.take(caller, payment.nonce, payment.amount)->Ok_0;
                lemma_mint_owed(
                    g.farm_token,
                    caller,
                    GuildView::restored_attributes(storage, taken.1.opt_original_attributes->0),
                );
            }
        },
        Call::Merge { caller, payments, boosted_rewards, block } => {
            let counted = g.migrate_old_farm_positions(caller, payments);
            let paid = counted.claim_only_boosted_payment(boosted_rewards)->Ok_0;
            let set_aside = paid.add_boosted_rewards(caller, boosted_rewards);
            lemma_user_increased(
                g.users,
                caller,
                g.old_positions_amount(payments),
            );
            let r = lookup_user(paid.users, caller);
            lemma_store_user(
                paid.users,
                UserRecordView {
                    accumulated_boosted_rewards: r.accumulated_boosted_rewards + boosted_rewards,
                    ..r
                },
            );
            lemma_claim_finds_its_rewards(set_aside, caller, payments, block);
        },
        Call::ClaimBoosted { caller, opt_user, boosted_rewards, epoch } => {},
        Call::AllowExternalClaim { caller, allow } => {},
        Call::Close { caller, block } => {
            lemma_aggregated_covered(g.farm_token, g.storage, block);
        },
        Call::SetPerBlockRewards { caller, per_block_amount, block } => {
            lemma_aggregated_covered(g.farm_token, g.storage, block);
        },
        Call::TopUpRewards { caller, payment } => {},
        Call::WithdrawRewards { caller, amount, block } => {
            lemma_aggregated_covered(g.farm_token, g.storage, block);
        },
    }
}

/// Whether the guild refuses the call because its reserve does not hold the
/// rewards that the call has to pay.
pub open spec fn refused_for_want_of_rewards(g: GuildView, call: Call) -> bool {
    match call {
        Call::Stake {
            caller,
            payment,
            additional,
            min_stake,
            max_staked_tokens,
            block,
        } => g.stake_farm(caller, payment, additional, min_stake, max_staked_tokens, block)
            matches Err(e) && e == GuildError::InsufficientReserve,
        Call::Claim { caller, payments, block } => g.claim_rewards(caller, payments, block)
            matches Err(e) && e == GuildError::InsufficientReserve,
        Call::Compound { caller, payments, block } => g.compound_rewards_base(
            caller,
            payments,
            block,
        ) matches Err(e) && e == GuildError::InsufficientReserve,
        Call::Unstake { caller, payment, min_unbond_epochs, block, epoch } => g.unstake_farm(
            caller,
            payment,
            min_unbond_epochs,
            block,
            epoch,
        ) matches Err(e) && e == GuildError::InsufficientReserve,
        Call::Merge { caller, payments, boosted_rewards, block } => g.merge_farm_tokens(
            caller,
            payments,
            boosted_rewards,
            block,
        ) matches Err(e) && e == GuildError::InsufficientReserve,
        _ => false,
    }
}

/// Solvency: a guild whose reserve covers what its receipts have earned
/// stays so through any sequence of calls that take from the reserve only
/// what receipts have earned.
pub proof fn lemma_solvent_guilds_stay_solvent(g: GuildView, calls: Seq<Call>)
    requires
        g.wf(),
        solvent(g),
        forall|i: int| 0 <= i < calls.len() ==> spends_only_earned(#[trigger] calls[i]),
    ensures
        after_calls(g, calls).wf(),
        solvent(after_calls(g, calls)),
    decreases calls.len(),
{
    if calls.len() > 0 {
        let before = calls.drop_last();
        assert forall|i: int| 0 <= i < before.len() implies spends_only_earned(
            #[trigger] before[i],
        ) by {
            assert(spends_only_earned(calls[i]));
        }
        lemma_solvent_guilds_stay_solvent(g, before);
        assert(spends_only_earned(calls[calls.len() - 1]));
        lemma_call_keeps_solvent(after_calls(g, before), calls.last());
        lemma_call_keeps_guild(after_calls(g, before), calls.last());
    }
}

/// A guild without receipts is solvent.
pub proof fn lemma_empty_guild_is_solvent(g: GuildView)
    requires
        g.farm_token.positions.len() == 0,
    ensures
        solvent(g),
{
    assert(g.storage.reward_reserve * g.storage.division_safety_constant >= 0) by (nonlinear_arith);
}

} // verus!
