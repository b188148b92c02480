//! What holds of a guild whatever is called on it.

use crate::common::{Address, Epoch, GuildError, Nonce, PaymentView};
use crate::farm_base_impl::compound_rewards::lemma_compound_rewards_base;
use crate::farm_base_impl::{SettlementView, lemma_settle_from, settle, settle_from, settle_one};
use crate::guild::GuildView;
use crate::config::{UserPositionView, UserRecordView, lemma_store_user, lookup_user};
use crate::ledger::{
    FarmPositionView, lemma_burn, lemma_burn_prices, lemma_index_of_unique, lemma_prices_rise,
    prices_at_most, total_amount,
};
use crate::storage_cache::StorageView;
use crate::unbond_token::lemma_unbond_index_unique;
use crate::user_actions::claim_stake_farm_rewards::lemma_claim_rewards;
use crate::user_actions::stake_farm::lemma_stake_farm;
use crate::user_actions::unbond_farm::{lemma_cancel_unbond, lemma_unbond_farm};
use crate::user_actions::unstake_farm::lemma_unstake_farm;
use vstd::prelude::*;

verus! {

/// A call that changes one guild.
pub enum Call {
    Stake {
        caller: Address,
        payment: PaymentView,
        additional: Seq<PaymentView>,
        min_stake: nat,
        max_staked_tokens: nat,
        block: Nonce,
    },
    Claim { caller: Address, payments: Seq<PaymentView>, block: Nonce },
    Compound { caller: Address, payments: Seq<PaymentView>, block: Nonce },
    Unstake {
        caller: Address,
        payment: PaymentView,
        min_unbond_epochs: Epoch,
        block: Nonce,
        epoch: Epoch,
    },
    Unbond { caller: Address, payments: Seq<PaymentView>, epoch: Epoch },
    CancelUnbond { caller: Address, payment: PaymentView, block: Nonce },
    Merge { caller: Address, payments: Seq<PaymentView>, boosted_rewards: nat, block: Nonce },
    ClaimBoosted { caller: Address, opt_user: Option<Address>, boosted_rewards: nat, epoch: Epoch },
    AllowExternalClaim { caller: Address, allow: bool },
    Close { caller: Address, block: Nonce },
    SetPerBlockRewards { caller: Address, per_block_amount: nat, block: Nonce },
    TopUpRewards { caller: Address, payment: PaymentView },
    WithdrawRewards { caller: Address, amount: nat, block: Nonce },
}

/// The guild after a call: changed as the call says where it goes through,
/// as it was where the call is refused.
pub open spec fn after_call(g: GuildView, call: Call) -> GuildView {
    match call {
        Call::Stake {
            caller,
            payment,
            additional,
            min_stake,
            max_staked_tokens,
            block,
        } => match g.stake_farm(
            caller,
            payment,
            additional,
            min_stake,
            max_staked_tokens,
            block,
        ) {
            Ok(r) => r.0,
            Err(_) => g,
        },
        Call::Claim { caller, payments, block } => match g.claim_rewards(caller, payments, block) {
            Ok(r) => r.0,
            Err(_) => g,
        },
        Call::Compound { caller, payments, block } => match g.compound_rewards_base(
            caller,
            payments,
            block,
        ) {
            Ok(r) => r.0,
            Err(_) => g,
        },
        Call::Unstake { caller, payment, min_unbond_epochs, block, epoch } => match g.unstake_farm(
            caller,
            payment,
            min_unbond_epochs,
            block,
            epoch,
        ) {
            Ok(r) => r.0,
            Err(_) => g,
        },
        Call::Unbond { caller, payments, epoch } => match g.unbond_farm(caller, payments, epoch) {
            Ok(r) => r.0,
            Err(_) => g,
        },
        Call::CancelUnbond { caller, payment, block } => match g.cancel_unbond(
            caller,
            payment,
            block,
        ) {
            Ok(r) => r.0,
            Err(_) => g,
        },
        Call::Merge { caller, payments, boosted_rewards, block } => match g.merge_farm_tokens(
            caller,
            payments,
            boosted_rewards,
            block,
        ) {
            Ok(r) => r.0,
            Err(_) => g,
        },
        Call::ClaimBoosted {
            caller,
            opt_user,
            boosted_rewards,
            epoch,
        } => match g.claim_boosted_rewards(caller, opt_user, boosted_rewards, epoch) {
            Ok(r) => r.0,
            Err(_) => g,
        },
        Call::AllowExternalClaim { caller, allow } => g.allow_external_claim_boosted_rewards(
            caller,
            allow,
        ),
        Call::Close { caller, block } => match g.close_guild(caller, block) {
            Ok(r) => r,
            Err(_) => g,
        },
        Call::SetPerBlockRewards {
            caller,
            per_block_amount,
            block,
        } => match g.set_per_block_rewards(caller, per_block_amount, block) {
            Ok(r) => r,
            Err(_) => g,
        },
        Call::TopUpRewards { caller, payment } => match g.top_up_rewards(caller, payment) {
            Ok(r) => r,
            Err(_) => g,
        },
        Call::WithdrawRewards { caller, amount, block } => match g.withdraw_rewards(
            caller,
            amount,
            block,
        ) {
            Ok(r) => r,
            Err(_) => g,
        },
    }
}

/// The guild after a sequence of calls, one after the other.
pub open spec fn after_calls(g: GuildView, calls: Seq<Call>) -> GuildView
    decreases calls.len(),
{
    if calls.len() == 0 {
        g
    } else {
        after_call(after_calls(g, calls.drop_last()), calls.last())
    }
}

/// One call keeps a guild well formed, does not lower its reward per share,
/// and does not open a closing guild again.
pub proof fn lemma_call_keeps_guild(g: GuildView, call: Call)
    requires
        g.wf(),
    ensures
        after_call(g, call).wf(),
        after_call(g, call).storage.reward_per_share >= g.storage.reward_per_share,
        g.storage.guild_closing ==> after_call(g, call).storage.guild_closing,
{
    match call {
        Call::Stake { caller, payment, additional, min_stake, max_staked_tokens, block } => {
            if g.stake_farm(caller, payment, additional, min_stake, max_staked_tokens, block)
                is Ok {
                lemma_stake_farm(
                    g,
                    caller,
                    payment,
                    additional,
                    min_stake,
                    max_staked_tokens,
                    block,
                );
            }
        },
        Call::Claim { caller, payments, block } => {
            if g.claim_rewards(caller, payments, block) is Ok {
                lemma_claim_rewards(g, caller, payments, block);
            }
        },
        Call::Compound { caller, payments, block } => {
            if g.compound_rewards_base(caller, payments, block) is Ok {
                lemma_compound_rewards_base(g, caller, payments, block);
            }
        },
        Call::Unstake { caller, payment, min_unbond_epochs, block, epoch } => {
            if g.unstake_farm(caller, payment, min_unbond_epochs, block, epoch) is Ok {
                lemma_unstake_farm(g, caller, payment, min_unbond_epochs, block, epoch);
            }
        },
        Call::Unbond { caller, payments, epoch } => {
            if g.unbond_farm(caller, payments, epoch) is Ok {
                lemma_unbond_farm(g, caller, payments, epoch);
            }
        },
        Call::CancelUnbond { caller, payment, block } => {
            if g.cancel_unbond(caller, payment, block) is Ok {
                lemma_cancel_unbond(g, caller, payment, block);
            }
        },
        Call::Merge { caller, payments, boosted_rewards, block } => {
            if g.merge_farm_tokens(caller, payments, boosted_rewards, block) is Ok {
                let counted = g.migrate_old_farm_positions(caller, payments);
                let r = lookup_user(g.users, caller);
                lemma_store_user(
                    g.users,
                    UserRecordView {
                        position: UserPositionView {
                            total_farm_position: r.position.total_farm_position
                                + g.old_positions_amount(payments),
                            ..r.position
                        },
                        ..r
                    },
                );
                let paid = counted.claim_only_boosted_payment(boosted_rewards)->Ok_0;
                let r = lookup_user(paid.users, caller);
                lemma_store_user(
                    paid.users,
                    UserRecordView {
                        accumulated_boosted_rewards: r.accumulated_boosted_rewards
                            + boosted_rewards,
                        ..r
                    },
                );
                lemma_claim_rewards(
                    paid.add_boosted_rewards(caller, boosted_rewards),
                    caller,
                    payments,
                    block,
                );
            }
        },
        Call::ClaimBoosted { caller, opt_user, boosted_rewards, epoch } => {
            if g.claim_boosted_rewards(caller, opt_user, boosted_rewards, epoch) is Ok {
                let user = match opt_user {
                    Some(user) => user,
                    None => caller,
                };
                let r = lookup_user(g.users, user);
                lemma_store_user(
                    g.users,
                    UserRecordView { accumulated_boosted_rewards: 0, ..r },
                );
            }
        },
        Call::AllowExternalClaim { caller, allow } => {
            let r = lookup_user(g.users, caller);
            lemma_store_user(
                g.users,
                UserRecordView {
                    position: UserPositionView {
                        allow_external_claim_boosted_rewards: allow,
                        ..r.position
                    },
                    ..r
                },
            );
        },
        Call::Close { caller, block } => {
            if g.close_guild(caller, block) is Ok {
                lemma_prices_rise(
                    g.farm_token.positions,
                    g.storage.reward_per_share,
                    g.storage.aggregated(block).reward_per_share,
                );
            }
        },
        Call::SetPerBlockRewards { caller, per_block_amount, block } => {
            if g.set_per_block_rewards(caller, per_block_amount, block) is Ok {
                lemma_prices_rise(
                    g.farm_token.positions,
                    g.storage.reward_per_share,
                    g.storage.aggregated(block).reward_per_share,
                );
            }
        },
        Call::TopUpRewards { caller, payment } => {},
        Call::WithdrawRewards { caller, amount, block } => {
            if g.withdraw_rewards(caller, amount, block) is Ok {
                lemma_prices_rise(
                    g.farm_token.positions,
                    g.storage.reward_per_share,
                    g.storage.aggregated(block).reward_per_share,
                );
            }
        },
    }
}

/// Supply conservation: after any sequence of calls on a well-formed guild,
/// the amounts of all outstanding position receipts add up to the farm token
/// supply exactly.
pub proof fn lemma_supply_matches_receipts(g: GuildView, calls: Seq<Call>)
    requires
        g.wf(),
    ensures
        after_calls(g, calls).wf(),
        total_amount(after_calls(g, calls).farm_token.positions) == after_calls(
            g,
            calls,
        ).storage.farm_token_supply,
    decreases calls.len(),
{
    if calls.len() > 0 {
        lemma_supply_matches_receipts(g, calls.drop_last());
        lemma_call_keeps_guild(after_calls(g, calls.drop_last()), calls.last());
    }
}

/// The reward per share never falls: after any sequence of calls it is at
/// least what it was before, and at least what it was after any shorter run
/// of the same calls.
pub proof fn lemma_reward_per_share_never_falls(g: GuildView, calls: Seq<Call>, n: int)
    requires
        g.wf(),
        0 <= n <= calls.len(),
    ensures
        after_calls(g, calls).storage.reward_per_share >= after_calls(
            g,
            calls.take(n),
        ).storage.reward_per_share,
        after_calls(g, calls.take(n)).storage.reward_per_share >= g.storage.reward_per_share,
    decreases calls.len(),
{
    if n == calls.len() {
        assert(calls.take(n) =~= calls);
        lemma_reward_per_share_at_least_first(g, calls);
    } else {
        lemma_supply_matches_receipts(g, calls.drop_last());
        lemma_call_keeps_guild(after_calls(g, calls.drop_last()), calls.last());
        assert(calls.drop_last().take(n) =~= calls.take(n));
        lemma_reward_per_share_never_falls(g, calls.drop_last(), n);
    }
}

/// After any sequence of calls the reward per share is at least what it was
/// before them.
pub proof fn lemma_reward_per_share_at_least_first(g: GuildView, calls: Seq<Call>)
    requires
        g.wf(),
    ensures
        after_calls(g, calls).storage.reward_per_share >= g.storage.reward_per_share,
    decreases calls.len(),
{
    if calls.len() > 0 {
        lemma_reward_per_share_at_least_first(g, calls.drop_last());
        lemma_supply_matches_receipts(g, calls.drop_last());
        lemma_call_keeps_guild(after_calls(g, calls.drop_last()), calls.last());
    }
}

/// The rewards stay within the capacity: after any sequence of calls, no
/// more was set aside than the capacity allows, and the reserve holds no more
/// than was set aside.
pub proof fn lemma_rewards_stay_within_capacity(g: GuildView, calls: Seq<Call>)
    requires
        g.wf(),
    ensures
        after_calls(g, calls).storage.reward_reserve <= after_calls(
            g,
            calls,
        ).storage.accumulated_rewards <= after_calls(g, calls).storage.reward_capacity,
{
    lemma_supply_matches_receipts(g, calls);
}

/// Closing is final: no sequence of calls opens a closing guild again.
pub proof fn lemma_closing_is_final(g: GuildView, calls: Seq<Call>)
    requires
        g.wf(),
        g.storage.guild_closing,
    ensures
        after_calls(g, calls).storage.guild_closing,
    decreases calls.len(),
{
    if calls.len() > 0 {
        lemma_closing_is_final(g, calls.drop_last());
        lemma_supply_matches_receipts(g, calls.drop_last());
        lemma_call_keeps_guild(after_calls(g, calls.drop_last()), calls.last());
    }
}

/// Settling the receipts of a ledger whose share prices are not above the
/// guild's never meets a price above the guild's.
pub proof fn lemma_settling_meets_no_price_inversion(
    acc: SettlementView,
    storage: StorageView,
    caller: Address,
    payments: Seq<PaymentView>,
    from: int,
)
    requires
        0 <= from <= payments.len(),
        acc.ledger.wf(),
        prices_at_most(acc.ledger.positions, storage.reward_per_share),
    ensures
        settle_from(acc, storage, caller, payments, from) != Err::<SettlementView, GuildError>(
            GuildError::NegativeReward,
        ),
    decreases payments.len() - from,
{
    if from < payments.len() {
        let p = payments[from];
        if acc.ledger.burn(caller, p.nonce, p.amount) is Ok {
            lemma_burn(acc.ledger, caller, p.nonce, p.amount);
            lemma_burn_prices(acc.ledger, caller, p.nonce, p.amount, storage.reward_per_share);
        }
        match settle_one(acc, storage, caller, p) {
            Ok(next) => {
                lemma_settling_meets_no_price_inversion(next, storage, caller, payments, from + 1);
            },
            Err(_) => {},
        }
    }
}

/// A price inversion is a broken invariant, not something a caller can bring
/// about: on a well-formed guild no claim, compounding, stake or unstaking is
/// refused for a receipt whose share price lies above the guild's.
pub proof fn lemma_no_price_inversion(
    g: GuildView,
    caller: Address,
    payment: PaymentView,
    payments: Seq<PaymentView>,
    min_stake: nat,
    max_staked_tokens: nat,
    min_unbond_epochs: Epoch,
    block: Nonce,
    epoch: Epoch,
)
    requires
        g.wf(),
    ensures
        g.claim_rewards(caller, payments, block) matches Err(e) ==> e
            != GuildError::NegativeReward,
        g.compound_rewards_base(caller, payments, block) matches Err(e) ==> e
            != GuildError::NegativeReward,
        g.stake_farm(caller, payment, payments, min_stake, max_staked_tokens, block) matches Err(
            e,
        ) ==> e != GuildError::NegativeReward,
        g.unstake_farm(caller, payment, min_unbond_epochs, block, epoch) matches Err(e) ==> e
            != GuildError::NegativeReward,
{
    let storage = g.storage.aggregated(block);
    lemma_prices_rise(
        g.farm_token.positions,
        g.storage.reward_per_share,
        storage.reward_per_share,
    );
    lemma_settling_meets_no_price_inversion(
        SettlementView::start(g.farm_token),
        storage,
        caller,
        payments,
        0,
    );
    if g.farm_token.burn(caller, payment.nonce, payment.amount) is Ok {
        lemma_burn_prices(
            g.farm_token,
            caller,
            payment.nonce,
            payment.amount,
            storage.reward_per_share,
        );
    }
}

/// The sum of what the receipts of the holdings stand for as a whole.
pub open spec fn total_current_farm_amount(s: Seq<FarmPositionView>) -> nat
    decreases s.len(),
{
    if s.len() == 0 {
        0
    } else {
        total_current_farm_amount(s.drop_last()) + s.last().attributes.current_farm_amount
    }
}

/// While every receipt is held whole, the amounts that the receipts'
/// attributes name add up to the farm token supply as the holdings do.
pub proof fn lemma_whole_receipts_add_up(s: Seq<FarmPositionView>)
    requires
        forall|i: int|
            0 <= i < s.len() ==> (#[trigger] s[i]).amount == s[i].attributes.current_farm_amount,
    ensures
        total_current_farm_amount(s) == total_amount(s),
    decreases s.len(),
{
    if s.len() > 0 {
        assert forall|i: int| 0 <= i < s.drop_last().len() implies (#[trigger] s.drop_last()[i]).amount
            == s.drop_last()[i].attributes.current_farm_amount by {
            assert(s[i].amount == s[i].attributes.current_farm_amount);
        }
        lemma_whole_receipts_add_up(s.drop_last());
        assert(s.last() == s[s.len() - 1]);
    }
}

/// Once the rewards up to a block are set aside, setting them aside again in
/// the same block changes nothing: no block has passed, so nothing falls due.
pub proof fn lemma_aggregated_twice(s: StorageView, block: Nonce)
    ensures
        s.aggregated(block).due(block) == 0,
        s.aggregated(block).aggregated(block) == s.aggregated(block),
{
    let a = s.aggregated(block);
    assert(a.blocks_elapsed(block) == 0 || a.guild_closing);
    assert(a.per_block_reward_amount * 0nat == 0) by (nonlinear_arith);
    assert(a.apr_bounded_per_block() * 0nat == 0) by (nonlinear_arith);
    assert(0nat * a.division_safety_constant == 0) by (nonlinear_arith);
    assert(a.share_increase(0) == 0);
}

/// A receipt minted at the current share price has earned nothing yet.
pub proof fn lemma_no_reward_at_current_price(s: StorageView, amount: nat)
    requires
        s.division_safety_constant > 0,
    ensures
        s.reward_for(amount, s.reward_per_share) == 0,
{
    assert(0 * amount == 0) by (nonlinear_arith);
}

/// Claiming again in the same block yields nothing: when a claim went
/// through, a second claim in that block on the receipt that the first one
/// handed back pays zero rewards and leaves the counters as they are.
pub proof fn lemma_claim_twice_in_one_block(
    g: GuildView,
    caller: Address,
    payments: Seq<PaymentView>,
    block: Nonce,
)
    requires
        g.wf(),
        g.claim_rewards(caller, payments, block) is Ok,
        g.farm_token.last_nonce + 2 <= u64::MAX,
    ensures
        ({
            let first = g.claim_rewards(caller, payments, block)->Ok_0;
            let second = first.0.claim_rewards(caller, seq![first.1.new_farm_token], block);
            &&& second is Ok
            &&& second->Ok_0.1.rewards.amount == 0
            &&& second->Ok_0.1.new_farm_token.amount == first.1.new_farm_token.amount
            &&& second->Ok_0.0.storage == first.0.storage
        }),
{
    let first = g.claim_rewards(caller, payments, block)->Ok_0;
    let g1 = first.0;
    let receipt = first.1.new_farm_token;
    let storage = g.storage.aggregated(block);
    lemma_claim_rewards(g, caller, payments, block);
    lemma_aggregated_twice(g.storage, block);
    // The counters after the first claim differ from the aggregated ones in
    // the reserve alone, which plays no part in what falls due.
    let s1 = g1.storage;
    assert(s1.blocks_elapsed(block) == 0 || s1.guild_closing);
    assert(s1.per_block_reward_amount * 0nat == 0) by (nonlinear_arith);
    assert(s1.apr_bounded_per_block() * 0nat == 0) by (nonlinear_arith);
    assert(0nat * s1.division_safety_constant == 0) by (nonlinear_arith);
    assert(s1.share_increase(0) == 0);
    assert(s1.aggregated(block) == s1);
    // The receipt of the first claim is the newest holding of the ledger.
    let start = SettlementView::start(g.farm_token);
    lemma_prices_rise(
        g.farm_token.positions,
        g.storage.reward_per_share,
        storage.reward_per_share,
    );
    lemma_settle_from(start, storage, caller, payments, 0);
    let positions = g1.farm_token.positions;
    let last = positions.len() - 1;
    assert(positions[last].nonce == receipt.nonce);
    lemma_index_of_unique(positions, last);
    lemma_no_reward_at_current_price(s1, receipt.amount);
    let second_payments = seq![receipt];
    let start1 = SettlementView::start(g1.farm_token);
    let one = settle_one(start1, s1, caller, receipt);
    assert(one is Ok);
    assert(second_payments[0] == receipt);
    assert(settle_from(one->Ok_0, s1, caller, second_payments, 1) == Ok::<
        SettlementView,
        GuildError,
    >(one->Ok_0));
    assert(settle_from(start1, s1, caller, second_payments, 0) == Ok::<
        SettlementView,
        GuildError,
    >(one->Ok_0));
    assert(settle(g1.farm_token, s1, caller, second_payments) == Ok::<
        SettlementView,
        GuildError,
    >(one->Ok_0));
}

/// Cancelling what was just unstaked restores the position, in a guild that
/// is not closing: the receipt that comes back is of the amount unstaked, at
/// the share price of the block of the cancelling, and its compounded rewards
/// are those of the part that was unstaked, as they were.
pub proof fn lemma_unstake_then_cancel(
    g: GuildView,
    caller: Address,
    payment: PaymentView,
    min_unbond_epochs: Epoch,
    block: Nonce,
    epoch: Epoch,
    cancel_block: Nonce,
)
    requires
        g.wf(),
        g.unstake_farm(caller, payment, min_unbond_epochs, block, epoch) is Ok,
        !g.storage.guild_closing,
        g.farm_token.last_nonce < u64::MAX,
    ensures
        ({
            let unstaked = g.unstake_farm(caller, payment, min_unbond_epochs, block, epoch)->Ok_0;
            let part = g.farm_token.burn(caller, payment.nonce, payment.amount)->Ok_0.1;
            let cancelled = unstaked.0.cancel_unbond(
                caller,
                unstaked.1.unbond_token,
                cancel_block,
            );
            &&& cancelled is Ok
            &&& cancelled->Ok_0.1.new_farm_token.payment.amount == payment.amount
            &&& cancelled->Ok_0.1.new_farm_token.attributes.current_farm_amount == payment.amount
            &&& cancelled->Ok_0.1.new_farm_token.attributes.compounded_reward == part.compounded_reward
            &&& cancelled->Ok_0.1.new_farm_token.attributes.reward_per_share
                == cancelled->Ok_0.0.storage.reward_per_share
            &&& cancelled->Ok_0.0.storage.farm_token_supply == g.storage.farm_token_supply
        }),
{
    let unstaked = g.unstake_farm(caller, payment, min_unbond_epochs, block, epoch)->Ok_0;
    let g1 = unstaked.0;
    let receipt = unstaked.1.unbond_token;
    lemma_unstake_farm(g, caller, payment, min_unbond_epochs, block, epoch);
    lemma_burn(g.farm_token, caller, payment.nonce, payment.amount);
    let positions = g1.unbond_token.positions;
    let last = positions.len() - 1;
    assert(positions[last].nonce == receipt.nonce);
    lemma_unbond_index_unique(positions, last);
    assert(g1.cancel_unbond(caller, receipt, cancel_block) is Ok);
    lemma_cancel_unbond(g1, caller, receipt, cancel_block);
}

} // verus!
