//! Plain values shared by every part of the guild: identities, payments and
//! the reasons for which a call is refused.

use crate::amount::Amount;
use vstd::prelude::*;

verus! {

/// Height of a block, and number of a token instance.
pub type Nonce = u64;

/// Number of an epoch.
pub type Epoch = u64;

/// A share of `MAX_PERCENT`.
pub type Percent = u64;

/// One hundred percent.
pub const MAX_PERCENT: u64 = 10_000;

/// Number of blocks of one year, at one block every six seconds.
pub const BLOCKS_IN_YEAR: u64 = 5_256_000;

/// Upper limit of the epochs a guild may ask between unstaking and redeeming.
pub const MAX_MIN_UNBOND_EPOCHS: u64 = 30;

/// An account: the 32 bytes of its public key, as four words.
#[derive(Debug, Clone, Copy, PartialEq, Eq, Structural)]
pub struct Address {
    pub w0: u64,
    pub w1: u64,
    pub w2: u64,
    pub w3: u64,
}

impl Address {
    /// The address of all zero bytes, which no account has.
    pub fn zero() -> (r: Address)
        ensures
            r == (Address { w0: 0, w1: 0, w2: 0, w3: 0 }),
    {
        Address { w0: 0, w1: 0, w2: 0, w3: 0 }
    }
}

/// The name under which the token registry knows a token.
#[derive(Debug, Clone, Copy, PartialEq, Eq, Structural)]
pub struct TokenId {
    pub id: u64,
}

/// Whether the guild takes calls.
#[derive(Debug, Clone, Copy, PartialEq, Eq, Structural)]
pub enum State {
    Inactive,
    Active,
}

/// Why a call was refused. A refused call leaves the guild as it was.
#[derive(Debug, Clone, Copy, PartialEq, Eq, Structural)]
pub enum GuildError {
    /// The guild is paused.
    NotActive,
    /// The position token has not been registered yet.
    NoFarmToken,
    /// The unbond token has not been registered yet.
    NoUnbondToken,
    /// The guild is closing and takes no new entries.
    GuildClosing,
    /// The guild is not closing, so positions cannot leave for another guild.
    GuildNotClosing,
    /// A payment is in another token than the call takes.
    InvalidToken,
    /// The call came without any payment.
    NoPayments,
    /// A payment of amount zero.
    ZeroAmount,
    /// The caller holds no receipt of that nonce.
    UnknownReceipt,
    /// The caller holds less of the receipt than the payment says.
    InsufficientBalance,
    /// The caller's position would stay under the minimum stake.
    InsufficientStake,
    /// The guild would hold more than the configured maximum.
    StakeLimitReached,
    /// No tier of the configured table covers the input.
    TierNotFound,
    /// The unbond receipt is still locked.
    UnbondPeriodNotOver,
    /// An unbond receipt has to be handed in whole.
    MustUseAllTokens,
    /// The unbond receipt carries no original attributes.
    CancelNotAllowed,
    /// A receipt's share price lies above the guild's.
    NegativeReward,
    /// The rewards owed exceed what the reserve holds.
    InsufficientReserve,
    /// Staked and rewarded tokens differ, so rewards cannot be compounded.
    DifferentTokenIds,
    /// No nonce is left for a new receipt.
    NonceExhausted,
    /// The unlock epoch would lie beyond the last epoch there is.
    EpochOutOfRange,
    /// The caller lacks the permission that the call needs.
    PermissionDenied,
    /// The first week starts before the current epoch.
    InvalidStartEpoch,
    /// The maximum yearly rate is zero.
    InvalidMaxApr,
    /// More unbond epochs than allowed.
    InvalidMinUnbondEpochs,
    /// The division safety constant is zero.
    InvalidDivisionSafetyConstant,
    /// Boosted rewards are not claimable before the first week starts.
    CannotClaimYet,
    /// The user does not let others claim in their name.
    CannotClaimForAddress,
    /// A simulation was called by another account than the guild itself.
    NotQueried,
    /// More rewards asked back than remain undistributed.
    WithdrawAmountTooHigh,
}

impl GuildError {
    /// The words in which the refusal is reported to the caller.
    pub open spec fn text(self) -> Seq<char> {
        match self {
            GuildError::NotActive => "Not active"@,
            GuildError::NoFarmToken => "No farm token"@,
            GuildError::NoUnbondToken => "No unbond token"@,
            GuildError::GuildClosing => "Guild closing"@,
            GuildError::GuildNotClosing => "Guild not closing"@,
            GuildError::InvalidToken => "Bad payments"@,
            GuildError::NoPayments => "No payments"@,
            GuildError::ZeroAmount => "Zero amount"@,
            GuildError::UnknownReceipt => "Invalid token nonce"@,
            GuildError::InsufficientBalance => "Insufficient funds"@,
            GuildError::InsufficientStake => "Not enough stake"@,
            GuildError::StakeLimitReached => "Limit of staked tokens reached"@,
            GuildError::TierNotFound => "Tier not found"@,
            GuildError::UnbondPeriodNotOver => "Unbond period not over"@,
            GuildError::MustUseAllTokens => "Must unbond with all tokens"@,
            GuildError::CancelNotAllowed => "May not cancel unbond for this token"@,
            GuildError::NegativeReward => "Negative reward"@,
            GuildError::InsufficientReserve => "Not enough rewards in the reserve"@,
            GuildError::DifferentTokenIds => "Farming token differ from reward token"@,
            GuildError::NonceExhausted => "No nonce left"@,
            GuildError::EpochOutOfRange => "Unlock epoch out of range"@,
            GuildError::PermissionDenied => "Permission denied"@,
            GuildError::InvalidStartEpoch => "Invalid start epoch"@,
            GuildError::InvalidMaxApr => "Invalid max APR percentage"@,
            GuildError::InvalidMinUnbondEpochs => "Invalid min unbond epochs"@,
            GuildError::InvalidDivisionSafetyConstant => "Zero amount"@,
            GuildError::CannotClaimYet => "Cannot claim rewards yet"@,
            GuildError::CannotClaimForAddress => "Cannot claim rewards for this address"@,
            GuildError::NotQueried => "May only call this function through VM query"@,
            GuildError::WithdrawAmountTooHigh =>
                "Withdraw amount is higher than the remaining uncollected rewards!"@,
        }
    }

    /// The words in which the refusal is reported to the caller.
    pub fn message(&self) -> (r: &'static str)
        ensures
            r@ == self.text(),
    {
        match self {
            GuildError::NotActive => "Not active",
            GuildError::NoFarmToken => "No farm token",
            GuildError::NoUnbondToken => "No unbond token",
            GuildError::GuildClosing => "Guild closing",
            GuildError::GuildNotClosing => "Guild not closing",
            GuildError::InvalidToken => "Bad payments",
            GuildError::NoPayments => "No payments",
            GuildError::ZeroAmount => "Zero amount",
            GuildError::UnknownReceipt => "Invalid token nonce",
            GuildError::InsufficientBalance => "Insufficient funds",
            GuildError::InsufficientStake => "Not enough stake",
            GuildError::StakeLimitReached => "Limit of staked tokens reached",
            GuildError::TierNotFound => "Tier not found",
            GuildError::UnbondPeriodNotOver => "Unbond period not over",
            GuildError::MustUseAllTokens => "Must unbond with all tokens",
            GuildError::CancelNotAllowed => "May not cancel unbond for this token",
            GuildError::NegativeReward => "Negative reward",
            GuildError::InsufficientReserve => "Not enough rewards in the reserve",
            GuildError::DifferentTokenIds => "Farming token differ from reward token",
            GuildError::NonceExhausted => "No nonce left",
            GuildError::EpochOutOfRange => "Unlock epoch out of range",
            GuildError::PermissionDenied => "Permission denied",
            GuildError::InvalidStartEpoch => "Invalid start epoch",
            GuildError::InvalidMaxApr => "Invalid max APR percentage",
            GuildError::InvalidMinUnbondEpochs => "Invalid min unbond epochs",
            GuildError::InvalidDivisionSafetyConstant => "Zero amount",
            GuildError::CannotClaimYet => "Cannot claim rewards yet",
            GuildError::CannotClaimForAddress => "Cannot claim rewards for this address",
            GuildError::NotQueried => "May only call this function through VM query",
            GuildError::WithdrawAmountTooHigh =>
                "Withdraw amount is higher than the remaining uncollected rewards!",
        }
    }
}

/// A transfer of tokens that comes with a call or goes out with its result.
#[derive(Debug)]
pub struct Payment {
    pub token: TokenId,
    pub nonce: Nonce,
    pub amount: Amount,
}

/// A payment, with its amount as a number.
pub struct PaymentView {
    pub token: TokenId,
    pub nonce: Nonce,
    pub amount: nat,
}

impl View for Payment {
    type V = PaymentView;

    open spec fn view(&self) -> PaymentView {
        PaymentView { token: self.token, nonce: self.nonce, amount: self.amount@ }
    }
}

impl Payment {
    pub fn new(token: TokenId, nonce: Nonce, amount: Amount) -> (r: Payment)
        ensures
            r@ == (PaymentView { token, nonce, amount: amount@ }),
    {
        Payment { token, nonce, amount }
    }

    /// A copy of the payment.
    pub fn dup(&self) -> (r: Payment)
        ensures
            r@ == self@,
    {
        Payment { token: self.token, nonce: self.nonce, amount: self.amount.dup() }
    }
}

/// The views of a list of payments, in order.
pub open spec fn payment_views(payments: Seq<Payment>) -> Seq<PaymentView> {
    payments.map_values(|p: Payment| p@)
}

} // verus!
