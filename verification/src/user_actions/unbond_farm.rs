//! Redeeming and cancelling unbond receipts.
//!
//! An unbond receipt can be redeemed for its tokens once its lock period is
//! over. Before or after that, a receipt that carries the attributes of the
//! position it came from can be cancelled: its tokens go back into the farm
//! at the current share price, and what the position had compounded stays
//! compounded.

use crate::amount::Amount;
use crate::base_impl_wrapper::{FarmStakingWrapper, lemma_user_increased, user_increased};
use crate::common::{Address, Epoch, GuildError, Nonce, Payment, PaymentView, TokenId, payment_views};
use crate::farm_base_impl::compound_rewards::{PaymentAttributesPair, PaymentAttributesPairView};
use crate::guild::{Guild, GuildView};
use crate::ledger::{lemma_mint, lemma_mint_prices, lemma_prices_rise};
use crate::storage_cache::StorageView;
use crate::token_attributes::{AttributesView, UnbondSftAttributes, UnbondView};
use crate::unbond_token::{UnbondLedger, UnbondLedgerView, lemma_take};
use vstd::prelude::*;

verus! {

/// What cancelling hands back: the position receipt with its attributes, and
/// the attributes of the unbond receipt that was handed in.
#[derive(Debug)]
pub struct CancelUnbondResult {
    pub new_farm_token: PaymentAttributesPair,
    pub unbond_attributes: UnbondSftAttributes,
}

/// The outcome of cancelling, as numbers.
pub struct CancelUnbondResultView {
    pub new_farm_token: PaymentAttributesPairView,
    pub unbond_attributes: UnbondView,
}

impl View for CancelUnbondResult {
    type V = CancelUnbondResultView;

    open spec fn view(&self) -> CancelUnbondResultView {
        CancelUnbondResultView {
            new_farm_token: self.new_farm_token@,
            unbond_attributes: self.unbond_attributes@,
        }
    }
}

/// The unbond ledger and the tokens due after one more receipt was redeemed
/// in epoch `epoch`, or why the receipt is refused.
pub open spec fn redeem_one(
    ledger: UnbondLedgerView,
    total: nat,
    unbond_token: TokenId,
    caller: Address,
    epoch: Epoch,
    payment: PaymentView,
) -> Result<(UnbondLedgerView, nat), GuildError> {
    if payment.token != unbond_token {
        Err(GuildError::InvalidToken)
    } else {
        match ledger.take(caller, payment.nonce, payment.amount) {
            Err(e) => Err(e),
            Ok((rest, attributes)) => if epoch < attributes.unlock_epoch {
                Err(GuildError::UnbondPeriodNotOver)
            } else {
                Ok((rest, total + payment.amount))
            },
        }
    }
}

/// The unbond ledger and the tokens due after the receipts from `from` on
/// were redeemed, one after the other.
pub open spec fn redeem_from(
    ledger: UnbondLedgerView,
    total: nat,
    unbond_token: TokenId,
    caller: Address,
    epoch: Epoch,
    payments: Seq<PaymentView>,
    from: int,
) -> Result<(UnbondLedgerView, nat), GuildError>
    decreases payments.len() - from,
{
    if from < 0 || from >= payments.len() {
        Ok((ledger, total))
    } else {
        match redeem_one(ledger, total, unbond_token, caller, epoch, payments[from]) {
            Err(e) => Err(e),
            Ok((rest, sum)) => redeem_from(
                rest,
                sum,
                unbond_token,
                caller,
                epoch,
                payments,
                from + 1,
            ),
        }
    }
}

/// Redeeming keeps the unbond ledger well formed and gives out no nonce.
pub proof fn lemma_redeem_from(
    ledger: UnbondLedgerView,
    total: nat,
    unbond_token: TokenId,
    caller: Address,
    epoch: Epoch,
    payments: Seq<PaymentView>,
    from: int,
)
    requires
        0 <= from <= payments.len(),
        ledger.wf(),
        redeem_from(ledger, total, unbond_token, caller, epoch, payments, from) is Ok,
    ensures
        redeem_from(ledger, total, unbond_token, caller, epoch, payments, from)->Ok_0.0.wf(),
        redeem_from(
            ledger,
            total,
            unbond_token,
            caller,
            epoch,
            payments,
            from,
        )->Ok_0.0.last_nonce == ledger.last_nonce,
        redeem_from(ledger, total, unbond_token, caller, epoch, payments, from)->Ok_0.1
            >= total,
    decreases payments.len() - from,
{
    if from < payments.len() {
        let p = payments[from];
        let next = redeem_one(ledger, total, unbond_token, caller, epoch, p)->Ok_0;
        lemma_take(ledger, caller, p.nonce, p.amount);
        lemma_redeem_from(next.0, next.1, unbond_token, caller, epoch, payments, from + 1);
    }
}

impl GuildView {
    /// The guild after `caller` redeemed the unbond receipts `payments` in
    /// epoch `epoch`, and the tokens that the caller gets; or why the call is
    /// refused.
    pub open spec fn unbond_farm(self, caller: Address, payments: Seq<PaymentView>, epoch: Epoch)
        -> Result<(GuildView, PaymentView), GuildError> {
        if self.storage.state_error() is Some {
            Err(self.storage.state_error()->0)
        } else if self.unbond_token_id is None {
            Err(GuildError::NoUnbondToken)
        } else if payments.len() == 0 {
            Err(GuildError::NoPayments)
        } else {
            match redeem_from(
                self.unbond_token,
                0,
                self.unbond_token_id->0,
                caller,
                epoch,
                payments,
                0,
            ) {
                Err(e) => Err(e),
                Ok((rest, total)) => Ok(
                    (
                        GuildView { unbond_token: rest, ..self },
                        PaymentView {
                            token: self.storage.farming_token_id,
                            nonce: 0,
                            amount: total,
                        },
                    ),
                ),
            }
        }
    }

    /// The attributes of the receipt that a cancelled unbond receipt turns
    /// into: the principal and the compounded rewards of the original
    /// position, at the current share price.
    pub open spec fn restored_attributes(storage: StorageView, original: AttributesView)
        -> AttributesView {
        AttributesView {
            reward_per_share: storage.reward_per_share,
            compounded_reward: original.compounded_reward,
            current_farm_amount: original.initial_farming_tokens() + original.compounded_reward,
        }
    }

    /// The guild after `caller` cancelled the unbond receipt `payment` in
    /// block `block`, and the position receipt that the caller gets; or why
    /// the call is refused.
    pub open spec fn cancel_unbond(self, caller: Address, payment: PaymentView, block: Nonce)
        -> Result<(GuildView, CancelUnbondResultView), GuildError> {
        let storage = self.storage.aggregated(block);
        if self.storage.guild_closing {
            Err(GuildError::GuildClosing)
        } else if self.storage.state_error() is Some {
            Err(self.storage.state_error()->0)
        } else if self.unbond_token_id is None {
            Err(GuildError::NoUnbondToken)
        } else if Some(payment.token) != self.unbond_token_id {
            Err(GuildError::InvalidToken)
        } else {
            match self.unbond_token.take(caller, payment.nonce, payment.amount) {
                Err(e) => Err(e),
                Ok((rest, unbond_attributes)) => if unbond_attributes.opt_original_attributes
                    is None {
                    Err(GuildError::CancelNotAllowed)
                } else if self.farm_token.last_nonce == u64::MAX {
                    Err(GuildError::NonceExhausted)
                } else {
                    let attributes = Self::restored_attributes(
                        storage,
                        unbond_attributes.opt_original_attributes->0,
                    );
                    Ok(
                        (
                            GuildView {
                                storage: StorageView {
                                    farm_token_supply: storage.farm_token_supply
                                        + attributes.current_farm_amount,
                                    ..storage
                                },
                                farm_token: self.farm_token.mint(caller, attributes),
                                unbond_token: rest,
                                users: user_increased(
                                    self.users,
                                    caller,
                                    attributes.current_farm_amount,
                                ),
                                ..self
                            },
                            CancelUnbondResultView {
                                new_farm_token: PaymentAttributesPairView {
                                    payment: PaymentView {
                                        token: storage.farm_token_id->0,
                                        nonce: (self.farm_token.last_nonce + 1) as Nonce,
                                        amount: attributes.current_farm_amount,
                                    },
                                    attributes,
                                },
                                unbond_attributes,
                            },
                        ),
                    )
                },
            }
        }
    }
}

/// Redeeming keeps the guild well formed and touches neither its counters
/// nor its position receipts.
pub proof fn lemma_unbond_farm(
    g: GuildView,
    caller: Address,
    payments: Seq<PaymentView>,
    epoch: Epoch,
)
    requires
        g.wf(),
        g.unbond_farm(caller, payments, epoch) is Ok,
    ensures
        g.unbond_farm(caller, payments, epoch)->Ok_0.0.wf(),
        g.unbond_farm(caller, payments, epoch)->Ok_0.0.storage == g.storage,
        g.unbond_farm(caller, payments, epoch)->Ok_0.0.farm_token == g.farm_token,
{
    lemma_redeem_from(g.unbond_token, 0, g.unbond_token_id->0, caller, epoch, payments, 0);
}

/// Cancelling keeps the guild well formed and does not lower the reward per
/// share. The whole amount of the unbond receipt goes back into the farm: the
/// new receipt is of that amount at the current share price, and its
/// compounded rewards are those of the original position.
pub proof fn lemma_cancel_unbond(g: GuildView, caller: Address, payment: PaymentView, block: Nonce)
    requires
        g.wf(),
        g.cancel_unbond(caller, payment, block) is Ok,
    ensures
        g.cancel_unbond(caller, payment, block)->Ok_0.0.wf(),
        g.cancel_unbond(caller, payment, block)->Ok_0.0.storage.reward_per_share
            >= g.storage.reward_per_share,
        g.cancel_unbond(caller, payment, block)->Ok_0.1.new_farm_token.payment.amount == payment.amount,
        g.cancel_unbond(caller, payment, block)->Ok_0.1.new_farm_token.attributes.reward_per_share
            == g.cancel_unbond(caller, payment, block)->Ok_0.0.storage.reward_per_share,
        g.cancel_unbond(caller, payment, block)->Ok_0.1.new_farm_token.attributes.compounded_reward
            == g.unbond_token.take(
            caller,
            payment.nonce,
            payment.amount,
        )->Ok_0.1.opt_original_attributes->0.compounded_reward,
        g.cancel_unbond(caller, payment, block)->Ok_0.0.storage.farm_token_supply
            == g.storage.farm_token_supply + payment.amount,
{
    let storage = g.storage.aggregated(block);
    let taken = g.unbond_token.take(caller, payment.nonce, payment.amount)->Ok_0;
    let attributes = GuildView::restored_attributes(storage, taken.1.opt_original_attributes->0);
    lemma_take(g.unbond_token, caller, payment.nonce, payment.amount);
    lemma_prices_rise(
        g.farm_token.positions,
        g.storage.reward_per_share,
        storage.reward_per_share,
    );
    lemma_mint(g.farm_token, caller, attributes);
    lemma_mint_prices(g.farm_token, caller, attributes, storage.reward_per_share);
    lemma_user_increased(g.users, caller, attributes.current_farm_amount);
}

/// The calls on unbond receipts.
pub trait UnbondFarmModule: View<V = GuildView> + Sized {
    /// Redeems the unbond receipts that `caller` hands in, each whole and
    /// each unlocked by `current_epoch`, for the tokens they stand for.
    fn unbond_farm(&mut self, caller: Address, payments: &Vec<Payment>, current_epoch: Epoch) -> (r:
        Result<Payment, GuildError>)
        requires
            old(self)@.wf(),
        ensures
            final(self)@.wf(),
            match r {
                Ok(out) => old(self)@.unbond_farm(caller, payment_views(payments@), current_epoch)
                    == Ok::<(GuildView, PaymentView), GuildError>((final(self)@, out@)),
                Err(e) => old(self)@.unbond_farm(caller, payment_views(payments@), current_epoch)
                    == Err::<(GuildView, PaymentView), GuildError>(e) && final(self)@ == old(
                    self,
                )@,
            },
    ;

    /// Cancels the unbond receipt that `caller` hands in: its tokens enter
    /// the farm again at the share price of `current_block_nonce`, and the
    /// compounded rewards of the original position are kept as they were.
    fn cancel_unbond(&mut self, caller: Address, payment: Payment, current_block_nonce: Nonce) -> (r:
        Result<CancelUnbondResult, GuildError>)
        requires
            old(self)@.wf(),
        ensures
            final(self)@.wf(),
            final(self)@.storage.reward_per_share >= old(self)@.storage.reward_per_share,
            match r {
                Ok(out) => old(self)@.cancel_unbond(caller, payment@, current_block_nonce) == Ok::<
                    (GuildView, CancelUnbondResultView),
                    GuildError,
                >((final(self)@, out@)),
                Err(e) => old(self)@.cancel_unbond(caller, payment@, current_block_nonce) == Err::<
                    (GuildView, CancelUnbondResultView),
                    GuildError,
                >(e) && final(self)@ == old(self)@,
            },
    ;
}

/// Redeems the receipts on a copy of the ledger.
fn redeem_positions(
    ledger: &UnbondLedger,
    unbond_token: TokenId,
    caller: Address,
    current_epoch: Epoch,
    payments: &Vec<Payment>,
) -> (r: Result<(UnbondLedger, Amount), GuildError>)
    requires
        ledger@.wf(),
    ensures
        match r {
            Ok(out) => redeem_from(
                ledger@,
                0,
                unbond_token,
                caller,
                current_epoch,
                payment_views(payments@),
                0,
            ) == Ok::<(UnbondLedgerView, nat), GuildError>((out.0@, out.1@)),
            Err(e) => redeem_from(
                ledger@,
                0,
                unbond_token,
                caller,
                current_epoch,
                payment_views(payments@),
                0,
            ) == Err::<(UnbondLedgerView, nat), GuildError>(e),
        },
{
    let mut rest = ledger.dup();
    let mut total_farming_tokens = Amount::zero();
    let mut i: usize = 0;
    while i < payments.len()
        invariant
            i <= payments.len(),
            rest@.wf(),
            redeem_from(
                ledger@,
                0,
                unbond_token,
                caller,
                current_epoch,
                payment_views(payments@),
                0,
            ) == redeem_from(
                rest@,
                total_farming_tokens@,
                unbond_token,
                caller,
                current_epoch,
                payment_views(payments@),
                i as int,
            ),
        decreases payments.len() - i,
    {
        let payment = &payments[i];
        assert(payment_views(payments@)[i as int] == payment@);
        if payment.token != unbond_token {
            return Err(GuildError::InvalidToken);
        }
        let attributes = match rest.take(caller, payment.nonce, &payment.amount) {
            Ok(attributes) => attributes,
            Err(e) => {
                return Err(e);
            },
        };
        if current_epoch < attributes.unlock_epoch {
            return Err(GuildError::UnbondPeriodNotOver);
        }
        total_farming_tokens = total_farming_tokens.plus(&payment.amount);
        i = i + 1;
    }
    Ok((rest, total_farming_tokens))
}

impl UnbondFarmModule for Guild {
    fn unbond_farm(&mut self, caller: Address, payments: &Vec<Payment>, current_epoch: Epoch) -> (r:
        Result<Payment, GuildError>) {
        match self.storage.validate_contract_state() {
            Ok(_) => {},
            Err(e) => {
                return Err(e);
            },
        }
        let unbond_token_id = match self.unbond_token_id {
            Some(token) => token,
            None => {
                return Err(GuildError::NoUnbondToken);
            },
        };
        if payments.len() == 0 {
            return Err(GuildError::NoPayments);
        }
        let (rest, total_farming_tokens) = match redeem_positions(
            &self.unbond_token,
            unbond_token_id,
            caller,
            current_epoch,
            payments,
        ) {
            Ok(out) => out,
            Err(e) => {
                return Err(e);
            },
        };
        proof {
            lemma_unbond_farm(self@, caller, payment_views(payments@), current_epoch);
        }
        self.unbond_token = rest;
        Ok(Payment::new(self.storage.farming_token_id, 0, total_farming_tokens))
    }

    fn cancel_unbond(&mut self, caller: Address, payment: Payment, current_block_nonce: Nonce) -> (r:
        Result<CancelUnbondResult, GuildError>) {
        if self.storage.guild_closing {
            return Err(GuildError::GuildClosing);
        }
        let mut storage_cache = self.storage.dup();
        let farm_token_id = match storage_cache.validate_contract_state() {
            Ok(token) => token,
            Err(e) => {
                return Err(e);
            },
        };
        let unbond_token_id = match self.unbond_token_id {
            Some(token) => token,
            None => {
                return Err(GuildError::NoUnbondToken);
            },
        };
        if payment.token != unbond_token_id {
            return Err(GuildError::InvalidToken);
        }
        let mut unbond_ledger = self.unbond_token.dup();
        let unbond_attributes = match unbond_ledger.take(caller, payment.nonce, &payment.amount) {
            Ok(attributes) => attributes,
            Err(e) => {
                return Err(e);
            },
        };
        let original_attributes = match &unbond_attributes.opt_original_attributes {
            Some(attributes) => attributes.dup(),
            None => {
                return Err(GuildError::CancelNotAllowed);
            },
        };
        if self.farm_token.last_nonce() == u64::MAX {
            return Err(GuildError::NonceExhausted);
        }
        FarmStakingWrapper::generate_aggregated_rewards(&mut storage_cache, current_block_nonce);
        proof {
            lemma_cancel_unbond(self@, caller, payment@, current_block_nonce);
        }
        let total_farming_tokens = original_attributes.get_initial_farming_tokens();
        let mut new_attributes = FarmStakingWrapper::create_enter_farm_initial_attributes(
            total_farming_tokens,
            storage_cache.reward_per_share.dup(),
        );
        new_attributes.current_farm_amount = new_attributes.current_farm_amount.plus(
            &original_attributes.compounded_reward,
        );
        new_attributes.compounded_reward = original_attributes.compounded_reward;
        let total_farm_tokens = new_attributes.get_total_supply();
        storage_cache.farm_token_supply = storage_cache.farm_token_supply.plus(
            &total_farm_tokens,
        );
        FarmStakingWrapper::increase_user_farm_position(
            &mut self.users,
            caller,
            &total_farm_tokens,
        );
        let attributes = new_attributes.dup();
        let nonce = self.farm_token.mint(caller, new_attributes);
        self.unbond_token = unbond_ledger;
        self.storage = storage_cache;
        Ok(
            CancelUnbondResult {
                new_farm_token: PaymentAttributesPair {
                    payment: Payment::new(farm_token_id, nonce, total_farm_tokens),
                    attributes,
                },
                unbond_attributes,
            },
        )
    }
}

} // verus!
