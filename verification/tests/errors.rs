use guild_sc::common::GuildError;

#[test]
fn refusals_are_reported_in_words() {
    assert_eq!(GuildError::GuildClosing.message(), "Guild closing");
    assert_eq!(GuildError::TierNotFound.message(), "Tier not found");
    assert_eq!(
        GuildError::UnbondPeriodNotOver.message(),
        "Unbond period not over"
    );
    assert_eq!(
        GuildError::MustUseAllTokens.message(),
        "Must unbond with all tokens"
    );
    assert_eq!(
        GuildError::CancelNotAllowed.message(),
        "May not cancel unbond for this token"
    );
    assert_eq!(
        GuildError::InvalidStartEpoch.message(),
        "Invalid start epoch"
    );
    assert_eq!(
        GuildError::InvalidMaxApr.message(),
        "Invalid max APR percentage"
    );
    assert_eq!(
        GuildError::InvalidMinUnbondEpochs.message(),
        "Invalid min unbond epochs"
    );
    assert_eq!(
        GuildError::CannotClaimYet.message(),
        "Cannot claim rewards yet"
    );
    assert_eq!(
        GuildError::CannotClaimForAddress.message(),
        "Cannot claim rewards for this address"
    );
    assert_eq!(
        GuildError::NotQueried.message(),
        "May only call this function through VM query"
    );
    assert_eq!(
        GuildError::WithdrawAmountTooHigh.message(),
        "Withdraw amount is higher than the remaining uncollected rewards!"
    );
}
