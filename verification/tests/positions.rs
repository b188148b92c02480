use guild_sc::amount::Amount;
use guild_sc::common::{Address, GuildError, Payment, TokenId};
use guild_sc::config::ConfigModule;
use guild_sc::farm_base_impl::compound_rewards::BaseCompoundRewardsModule;
use guild_sc::guild::Guild;
use guild_sc::tiered_rewards::{GuildConfig, GuildMasterRewardTier, UserRewardTier};
use guild_sc::token_attributes::StakingFarmTokenAttributes;
use guild_sc::user_actions::claim_only_boosted_staking_rewards::ClaimOnlyBoostedStakingRewardsModule;
use guild_sc::user_actions::unbond_farm::UnbondFarmModule;
use guild_sc::FarmStaking;

const RIDE: TokenId = TokenId { id: 1 };
const FARM: TokenId = TokenId { id: 2 };
const UNBOND: TokenId = TokenId { id: 3 };
const OTHER_FARM: TokenId = TokenId { id: 4 };
const OTHER_UNBOND: TokenId = TokenId { id: 5 };

const OWNER: Address = Address { w0: 1, w1: 0, w2: 0, w3: 0 };
const USER: Address = Address { w0: 3, w1: 0, w2: 0, w3: 0 };
const STRANGER: Address = Address { w0: 4, w1: 0, w2: 0, w3: 0 };

fn amount(v: u64) -> Amount {
    Amount::from_u64(v)
}

fn value(a: &Amount) -> u64 {
    a.to_u64().expect("amount fits a machine word")
}

fn ride(v: u64) -> Payment {
    Payment::new(RIDE, 0, amount(v))
}

fn farm(nonce: u64, v: u64) -> Payment {
    Payment::new(FARM, nonce, amount(v))
}

fn unbond(nonce: u64, v: u64) -> Payment {
    Payment::new(UNBOND, nonce, amount(v))
}

fn config() -> GuildConfig {
    GuildConfig {
        guild_master_tiers: vec![GuildMasterRewardTier {
            max_stake: amount(10_000_000_000),
            apr: 2_000,
        }],
        user_tiers: vec![UserRewardTier { max_percentage_staked: 10_000, apr: 800 }],
        max_staked_tokens: amount(1_000_000_000),
        min_unbond_epochs_user: 5,
        min_unbond_epochs_guild_master: 7,
        min_stake_user: amount(1_000),
        min_stake_guild_master: amount(1),
    }
}

fn bare_guild() -> Guild {
    Guild::init(
        RIDE,
        amount(1_000_000_000_000),
        amount(2_500),
        5,
        OWNER,
        OWNER,
        0,
        Vec::new(),
        0,
    )
    .unwrap()
}

fn open_guild(farm_token: TokenId, unbond_token: TokenId) -> Guild {
    let mut guild = bare_guild();
    guild.register_farm_token(OWNER, farm_token).unwrap();
    guild.register_unbond_token(OWNER, unbond_token).unwrap();
    guild.resume(OWNER).unwrap();
    guild
        .set_per_block_rewards(OWNER, amount(5_000), 0)
        .unwrap();
    guild
        .top_up_rewards(OWNER, ride(1_000_000_000_000))
        .unwrap();
    guild
        .stake_farm(OWNER, ride(1), &Vec::new(), &config(), 0)
        .unwrap();
    guild
}

fn guild() -> Guild {
    open_guild(FARM, UNBOND)
}

fn staked_guild() -> Guild {
    let mut guild = guild();
    let out = guild
        .stake_farm(USER, ride(100_000_000), &Vec::new(), &config(), 0)
        .unwrap();
    assert_eq!(out.new_farm_token.nonce, 2);
    guild
}

fn receipts_total(guild: &Guild, holdings: &[(Address, u64)]) -> u64 {
    holdings
        .iter()
        .map(|(owner, nonce)| match guild.farm_position(*owner, *nonce) {
            Some(position) => value(&position.amount),
            None => 0,
        })
        .sum()
}

#[test]
fn init_refuses_bad_values() {
    let init = |dsc: u64, max_apr: u64, min_unbond: u64, first_week: u64, epoch: u64| {
        Guild::init(
            RIDE,
            amount(dsc),
            amount(max_apr),
            min_unbond,
            OWNER,
            OWNER,
            first_week,
            Vec::new(),
            epoch,
        )
    };
    assert_eq!(
        init(0, 2_500, 5, 0, 0).unwrap_err(),
        GuildError::InvalidDivisionSafetyConstant
    );
    assert_eq!(
        init(1, 2_500, 5, 3, 4).unwrap_err(),
        GuildError::InvalidStartEpoch
    );
    assert_eq!(init(1, 0, 5, 4, 4).unwrap_err(), GuildError::InvalidMaxApr);
    assert_eq!(
        init(1, 2_500, 31, 4, 4).unwrap_err(),
        GuildError::InvalidMinUnbondEpochs
    );
    let guild = init(1, 2_500, 30, 4, 4).unwrap();
    assert!(!guild.is_active());
    assert!(!guild.guild_closing());
    assert_eq!(value(&guild.farm_token_supply()), 0);
    assert_eq!(guild.guild_master(), OWNER);
}

#[test]
fn a_guild_takes_calls_only_when_set_up_and_resumed() {
    let mut guild = bare_guild();
    let stake = |guild: &mut Guild| guild.stake_farm(USER, ride(5_000), &Vec::new(), &config(), 0);
    assert_eq!(stake(&mut guild).unwrap_err(), GuildError::NotActive);
    guild.resume(OWNER).unwrap();
    assert_eq!(stake(&mut guild).unwrap_err(), GuildError::NoFarmToken);
    guild.register_farm_token(OWNER, FARM).unwrap();
    let staked = stake(&mut guild).unwrap();
    assert_eq!(staked.new_farm_token.nonce, 1);
    assert_eq!(
        guild
            .unstake_farm(USER, farm(1, 5_000), &config(), 0, 0)
            .unwrap_err(),
        GuildError::NoUnbondToken
    );
    assert_eq!(
        guild
            .unbond_farm(USER, &vec![unbond(1, 5_000)], 0)
            .unwrap_err(),
        GuildError::NoUnbondToken
    );
    guild.pause(OWNER).unwrap();
    assert_eq!(
        guild
            .claim_rewards(USER, &vec![farm(1, 5_000)], 0)
            .unwrap_err(),
        GuildError::NotActive
    );
}

#[test]
fn only_admins_may_administer() {
    let mut guild = guild();
    assert!(guild.is_admin(OWNER));
    assert!(!guild.is_admin(STRANGER));
    assert_eq!(
        guild.pause(STRANGER).unwrap_err(),
        GuildError::PermissionDenied
    );
    assert_eq!(
        guild.resume(STRANGER).unwrap_err(),
        GuildError::PermissionDenied
    );
    assert_eq!(
        guild.register_farm_token(STRANGER, FARM).unwrap_err(),
        GuildError::PermissionDenied
    );
    assert_eq!(
        guild.register_unbond_token(STRANGER, UNBOND).unwrap_err(),
        GuildError::PermissionDenied
    );
    assert_eq!(
        guild
            .set_per_block_rewards(STRANGER, amount(1), 0)
            .unwrap_err(),
        GuildError::PermissionDenied
    );
    assert_eq!(
        guild.top_up_rewards(STRANGER, ride(1)).unwrap_err(),
        GuildError::PermissionDenied
    );
    assert_eq!(
        guild.withdraw_rewards(STRANGER, amount(1), 0).unwrap_err(),
        GuildError::PermissionDenied
    );
    assert_eq!(
        guild.add_admin(STRANGER, STRANGER).unwrap_err(),
        GuildError::PermissionDenied
    );
    assert_eq!(
        guild.close_guild(STRANGER, 0).unwrap_err(),
        GuildError::PermissionDenied
    );
    guild.add_admin(OWNER, STRANGER).unwrap();
    assert!(guild.is_admin(STRANGER));
    guild.pause(STRANGER).unwrap();
    assert!(!guild.is_active());
    assert_eq!(
        guild.top_up_rewards(OWNER, farm(0, 1)).unwrap_err(),
        GuildError::InvalidToken
    );
}

#[test]
fn a_stake_is_checked_before_it_enters() {
    let mut guild = guild();
    let c = config();
    assert_eq!(
        guild
            .stake_farm(USER, farm(0, 5_000), &Vec::new(), &c, 0)
            .unwrap_err(),
        GuildError::InvalidToken
    );
    assert_eq!(
        guild
            .stake_farm(USER, Payment::new(RIDE, 1, amount(5_000)), &Vec::new(), &c, 0)
            .unwrap_err(),
        GuildError::InvalidToken
    );
    assert_eq!(
        guild
            .stake_farm(USER, ride(0), &Vec::new(), &c, 0)
            .unwrap_err(),
        GuildError::ZeroAmount
    );
    assert_eq!(
        guild
            .stake_farm(USER, ride(999), &Vec::new(), &c, 0)
            .unwrap_err(),
        GuildError::InsufficientStake
    );
    assert_eq!(
        guild
            .stake_farm(USER, ride(1_000_000_000), &Vec::new(), &c, 0)
            .unwrap_err(),
        GuildError::StakeLimitReached
    );
    assert_eq!(
        guild
            .stake_farm(USER, ride(5_000), &vec![farm(9, 5)], &c, 0)
            .unwrap_err(),
        GuildError::UnknownReceipt
    );
    assert_eq!(value(&guild.farm_token_supply()), 1);
    assert_eq!(
        value(&guild.get_user_total_farm_position(USER).total_farm_position),
        0
    );

    guild
        .stake_farm(USER, ride(999_999_999), &Vec::new(), &c, 0)
        .unwrap();
    assert_eq!(value(&guild.farm_token_supply()), 1_000_000_000);
    assert_eq!(
        value(&guild.get_user_total_farm_position(USER).total_farm_position),
        999_999_999
    );
    // Once the user is over the minimum, a small stake on top goes through
    // as far as the limit of the guild allows.
    assert_eq!(
        guild
            .stake_farm(USER, ride(1), &Vec::new(), &c, 0)
            .unwrap_err(),
        GuildError::StakeLimitReached
    );
}

#[test]
fn receipts_are_checked_when_handed_in() {
    let mut guild = staked_guild();
    assert_eq!(
        guild.claim_rewards(USER, &Vec::new(), 10).unwrap_err(),
        GuildError::NoPayments
    );
    assert_eq!(
        guild
            .claim_rewards(USER, &vec![unbond(2, 100_000_000)], 10)
            .unwrap_err(),
        GuildError::InvalidToken
    );
    assert_eq!(
        guild
            .claim_rewards(USER, &vec![farm(2, 0)], 10)
            .unwrap_err(),
        GuildError::ZeroAmount
    );
    assert_eq!(
        guild
            .claim_rewards(USER, &vec![farm(7, 100_000_000)], 10)
            .unwrap_err(),
        GuildError::UnknownReceipt
    );
    assert_eq!(
        guild
            .claim_rewards(STRANGER, &vec![farm(2, 100_000_000)], 10)
            .unwrap_err(),
        GuildError::UnknownReceipt
    );
    assert_eq!(
        guild
            .claim_rewards(USER, &vec![farm(2, 100_000_001)], 10)
            .unwrap_err(),
        GuildError::InsufficientBalance
    );
    // The same receipt cannot be handed in for more than it holds.
    assert_eq!(
        guild
            .claim_rewards(USER, &vec![farm(2, 60_000_000), farm(2, 60_000_000)], 10)
            .unwrap_err(),
        GuildError::InsufficientBalance
    );
    // A refused call leaves the guild as it was: nothing was set aside.
    let storage = guild.storage_cache();
    assert_eq!(storage.last_reward_block_nonce, 0);
    assert_eq!(value(&storage.reward_per_share), 0);
    assert_eq!(
        value(&guild.farm_position(USER, 2).unwrap().amount),
        100_000_000
    );
}

#[test]
fn claiming_on_two_receipts_settles_each_at_its_own_price() {
    let mut guild = staked_guild();
    let c = config();
    let second = guild
        .stake_farm(USER, ride(200_000_000), &Vec::new(), &c, 10)
        .unwrap();
    assert_eq!(second.new_farm_token.nonce, 3);
    assert_eq!(value(&second.rewards.amount), 0);
    assert_eq!(value(&guild.storage_cache().reward_per_share), 399_999);

    let out = guild
        .claim_rewards(USER, &vec![farm(2, 100_000_000), farm(3, 200_000_000)], 25)
        .unwrap();
    // Up to block 25 another 15 * 14 = 210 fall due:
    // 210 * 10^12 / 300,000,001 = 699,999.99...
    let storage = guild.storage_cache();
    assert_eq!(value(&storage.reward_per_share), 1_099_998);
    // 1,099,998 * 10^8 / 10^12 = 109.99..., 699,999 * 2 * 10^8 / 10^12 = 139.99...
    assert_eq!(value(&out.rewards.amount), 109 + 139);
    assert_eq!(out.new_farm_token.nonce, 4);
    assert_eq!(value(&out.new_farm_token.amount), 300_000_000);
    assert_eq!(value(&out.new_attributes.reward_per_share), 1_099_998);
    assert_eq!(value(&out.new_attributes.current_farm_amount), 300_000_000);
    assert_eq!(out.old_attributes.len(), 2);
    assert_eq!(value(&out.old_attributes[0].reward_per_share), 0);
    assert_eq!(
        value(&out.old_attributes[0].current_farm_amount),
        100_000_000
    );
    assert_eq!(value(&out.old_attributes[1].reward_per_share), 399_999);
    assert_eq!(
        value(&out.old_attributes[1].current_farm_amount),
        200_000_000
    );
    assert_eq!(value(&storage.reward_reserve), 40 + 210 - 248);
    assert_eq!(value(&storage.accumulated_rewards), 250);
    assert_eq!(value(&storage.farm_token_supply), 300_000_001);
    assert!(guild.farm_position(USER, 2).is_none());
    assert!(guild.farm_position(USER, 3).is_none());
    let merged = guild.farm_position(USER, 4).unwrap();
    assert_eq!(value(&merged.attributes.reward_per_share), 1_099_998);
    assert_eq!(value(&merged.attributes.current_farm_amount), 300_000_000);
}

#[test]
fn claiming_again_in_the_same_block_yields_nothing() {
    let mut guild = staked_guild();
    let first = guild
        .claim_rewards(USER, &vec![farm(2, 100_000_000)], 10)
        .unwrap();
    assert_eq!(value(&first.rewards.amount), 39);
    let before = guild.storage_cache();
    let second = guild
        .claim_rewards(USER, &vec![first.new_farm_token.dup()], 10)
        .unwrap();
    assert_eq!(value(&second.rewards.amount), 0);
    assert_eq!(second.new_farm_token.nonce, 4);
    assert_eq!(value(&second.new_farm_token.amount), 100_000_000);
    let after = guild.storage_cache();
    assert_eq!(value(&after.reward_per_share), value(&before.reward_per_share));
    assert_eq!(value(&after.reward_reserve), value(&before.reward_reserve));
    assert_eq!(
        value(&after.accumulated_rewards),
        value(&before.accumulated_rewards)
    );
    assert_eq!(after.last_reward_block_nonce, 10);
}

#[test]
fn compounding_folds_the_rewards_into_the_stake() {
    let mut guild = staked_guild();
    let out = guild
        .compound_rewards_base(USER, &vec![farm(2, 100_000_000)], 10)
        .unwrap();
    assert_eq!(value(&out.compounded_rewards), 39);
    assert!(!out.created_with_merge);
    assert_eq!(out.old_attributes.len(), 1);
    assert_eq!(value(&out.old_attributes[0].reward_per_share), 0);
    assert_eq!(value(&out.old_attributes[0].compounded_reward), 0);
    assert_eq!(out.new_farm_token.payment.token, FARM);
    assert_eq!(out.new_farm_token.payment.nonce, 3);
    assert_eq!(value(&out.new_farm_token.payment.amount), 100_000_039);
    assert_eq!(value(&out.new_farm_token.attributes.reward_per_share), 399_999);
    assert_eq!(value(&out.new_farm_token.attributes.compounded_reward), 39);
    assert_eq!(
        value(&out.new_farm_token.attributes.current_farm_amount),
        100_000_039
    );
    assert_eq!(value(&out.storage_cache.farm_token_supply), 100_000_040);
    assert_eq!(value(&out.storage_cache.reward_reserve), 1);

    let storage = guild.storage_cache();
    assert_eq!(value(&storage.farm_token_supply), 100_000_040);
    assert_eq!(value(&storage.reward_reserve), 1);
    assert_eq!(value(&storage.accumulated_rewards), 40);
    assert_eq!(
        value(&guild.get_user_total_farm_position(USER).total_farm_position),
        100_000_039
    );
    assert_eq!(
        guild
            .compound_rewards_base(USER, &Vec::new(), 10)
            .unwrap_err(),
        GuildError::NoPayments
    );
}

#[test]
fn unstaking_a_part_and_cancelling_keeps_what_was_compounded() {
    let mut guild = staked_guild();
    let c = config();
    guild
        .compound_rewards_base(USER, &vec![farm(2, 100_000_000)], 10)
        .unwrap();

    // Up to block 20 another 40 fall due:
    // 40 * 10^12 / 100,000,040 = 399,999.84
    let out = guild
        .unstake_farm(USER, farm(3, 50_000_000), &c, 20, 4)
        .unwrap();
    assert_eq!(value(&guild.storage_cache().reward_per_share), 799_998);
    // 399,999 * 50,000,000 / 10^12 = 19.99...
    assert_eq!(value(&out.rewards.amount), 19);
    assert_eq!(out.unbond_token.token, UNBOND);
    assert_eq!(out.unbond_token.nonce, 1);
    assert_eq!(value(&out.unbond_token.amount), 50_000_000);
    assert_eq!(out.unbond_attributes.unlock_epoch, 9);
    assert_eq!(
        value(
            &out.unbond_attributes
                .opt_original_attributes
                .as_ref()
                .unwrap()
                .compounded_reward
        ),
        19
    );
    assert_eq!(value(&guild.farm_token_supply()), 50_000_040);
    assert_eq!(
        value(&guild.farm_position(USER, 3).unwrap().amount),
        50_000_039
    );
    assert_eq!(
        value(&guild.get_user_total_farm_position(USER).total_farm_position),
        50_000_039
    );
    let receipt = guild.unbond_position(USER, 1).unwrap();
    assert_eq!(receipt.unlock_epoch, 9);
    assert_eq!(value(&receipt.supply), 50_000_000);
    let original = receipt.opt_original_attributes.unwrap();
    // 39 * 50,000,000 / 100,000,039 = 19.49...
    assert_eq!(value(&original.compounded_reward), 19);
    assert_eq!(value(&original.reward_per_share), 399_999);
    assert_eq!(value(&original.current_farm_amount), 50_000_000);

    // Cancelled before it unlocks, at a later block.
    let back = guild
        .cancel_unbond(USER, unbond(1, 50_000_000), 30)
        .unwrap();
    // Up to block 30: 50,000,040 * 2,500 / 10,000 / 5,256,000 = 2.37..., so
    // 20 fall due: 20 * 10^12 / 50,000,040 = 399,999.68
    assert_eq!(value(&guild.storage_cache().reward_per_share), 1_199_997);
    assert_eq!(back.new_farm_token.payment.token, FARM);
    assert_eq!(back.new_farm_token.payment.nonce, 4);
    assert_eq!(value(&back.new_farm_token.payment.amount), 50_000_000);
    assert_eq!(value(&back.new_farm_token.attributes.reward_per_share), 1_199_997);
    assert_eq!(value(&back.new_farm_token.attributes.compounded_reward), 19);
    assert_eq!(
        value(&back.new_farm_token.attributes.current_farm_amount),
        50_000_000
    );
    assert_eq!(back.unbond_attributes.unlock_epoch, 9);
    assert_eq!(value(&back.unbond_attributes.supply), 50_000_000);
    assert_eq!(value(&guild.farm_token_supply()), 100_000_040);
    assert_eq!(
        value(&guild.get_user_total_farm_position(USER).total_farm_position),
        100_000_039
    );
    assert!(guild.unbond_position(USER, 1).is_none());
    assert_eq!(
        receipts_total(&guild, &[(OWNER, 1), (USER, 3), (USER, 4)]),
        100_000_040
    );
}

#[test]
fn unbond_receipts_are_redeemed_whole_and_after_the_lock() {
    let mut guild = staked_guild();
    let c = config();
    guild
        .unstake_farm(USER, farm(2, 40_000_000), &c, 10, 5)
        .unwrap();
    guild
        .unstake_farm(USER, farm(2, 60_000_000), &c, 10, 6)
        .unwrap();
    assert!(guild.farm_position(USER, 2).is_none());
    assert_eq!(value(&guild.farm_token_supply()), 1);

    assert_eq!(
        guild
            .unbond_farm(USER, &vec![unbond(1, 40_000_000)], 9)
            .unwrap_err(),
        GuildError::UnbondPeriodNotOver
    );
    assert_eq!(
        guild
            .unbond_farm(USER, &vec![unbond(1, 39_999_999)], 10)
            .unwrap_err(),
        GuildError::MustUseAllTokens
    );
    assert_eq!(
        guild
            .unbond_farm(STRANGER, &vec![unbond(1, 40_000_000)], 10)
            .unwrap_err(),
        GuildError::UnknownReceipt
    );
    assert_eq!(
        guild
            .unbond_farm(USER, &vec![farm(1, 40_000_000)], 10)
            .unwrap_err(),
        GuildError::InvalidToken
    );
    assert_eq!(
        guild.unbond_farm(USER, &Vec::new(), 10).unwrap_err(),
        GuildError::NoPayments
    );
    // The second receipt is still locked in epoch 10, so neither is paid.
    assert_eq!(
        guild
            .unbond_farm(
                USER,
                &vec![unbond(1, 40_000_000), unbond(2, 60_000_000)],
                10
            )
            .unwrap_err(),
        GuildError::UnbondPeriodNotOver
    );
    assert!(guild.unbond_position(USER, 1).is_some());

    let paid = guild
        .unbond_farm(
            USER,
            &vec![unbond(1, 40_000_000), unbond(2, 60_000_000)],
            11,
        )
        .unwrap();
    assert_eq!(paid.token, RIDE);
    assert_eq!(paid.nonce, 0);
    assert_eq!(value(&paid.amount), 100_000_000);
    assert!(guild.unbond_position(USER, 1).is_none());
    assert!(guild.unbond_position(USER, 2).is_none());
}

#[test]
fn the_guild_master_waits_longer() {
    let mut guild = guild();
    let c = config();
    guild
        .stake_farm(OWNER, ride(500), &Vec::new(), &c, 0)
        .unwrap();
    let out = guild.unstake_farm(OWNER, farm(2, 500), &c, 0, 3).unwrap();
    let receipt = guild
        .unbond_position(OWNER, out.unbond_token.nonce)
        .unwrap();
    assert_eq!(receipt.unlock_epoch, 10);
}

#[test]
fn an_unlock_epoch_beyond_the_last_epoch_is_refused() {
    let mut guild = staked_guild();
    assert_eq!(
        guild
            .unstake_farm(USER, farm(2, 100_000_000), &config(), 10, u64::MAX - 4)
            .unwrap_err(),
        GuildError::EpochOutOfRange
    );
    assert_eq!(
        value(&guild.farm_position(USER, 2).unwrap().amount),
        100_000_000
    );
}

#[test]
fn cancelling_is_refused_in_a_closing_guild() {
    let mut guild = staked_guild();
    guild
        .unstake_farm(USER, farm(2, 100_000_000), &config(), 10, 5)
        .unwrap();
    assert_eq!(
        guild
            .cancel_unbond(USER, unbond(1, 99_999_999), 10)
            .unwrap_err(),
        GuildError::MustUseAllTokens
    );
    assert_eq!(
        guild
            .cancel_unbond(USER, farm(1, 100_000_000), 10)
            .unwrap_err(),
        GuildError::InvalidToken
    );
    assert_eq!(
        guild
            .cancel_unbond(STRANGER, unbond(1, 100_000_000), 10)
            .unwrap_err(),
        GuildError::UnknownReceipt
    );
    guild.close_guild(OWNER, 10).unwrap();
    assert_eq!(
        guild.close_guild(OWNER, 10).unwrap_err(),
        GuildError::GuildClosing
    );
    assert_eq!(
        guild
            .cancel_unbond(USER, unbond(1, 100_000_000), 10)
            .unwrap_err(),
        GuildError::GuildClosing
    );
    // Redeeming stays open.
    let paid = guild
        .unbond_farm(USER, &vec![unbond(1, 100_000_000)], 10)
        .unwrap();
    assert_eq!(value(&paid.amount), 100_000_000);
}

#[test]
fn a_closing_guild_lets_its_members_out_and_earns_nothing_more() {
    let mut guild = staked_guild();
    guild.close_guild(OWNER, 10).unwrap();
    let storage = guild.storage_cache();
    assert_eq!(value(&storage.reward_per_share), 399_999);
    assert_eq!(storage.last_reward_block_nonce, 10);

    let out = guild
        .claim_rewards(USER, &vec![farm(2, 100_000_000)], 50)
        .unwrap();
    assert_eq!(value(&out.rewards.amount), 39);
    let storage = guild.storage_cache();
    assert_eq!(value(&storage.reward_per_share), 399_999);
    assert_eq!(value(&storage.accumulated_rewards), 40);
    assert_eq!(storage.last_reward_block_nonce, 10);

    let out = guild
        .unstake_farm(USER, farm(3, 100_000_000), &config(), 60, 7)
        .unwrap();
    assert_eq!(value(&out.rewards.amount), 0);
    assert_eq!(value(&guild.farm_token_supply()), 1);
}

#[test]
fn moving_needs_a_closing_guild_and_an_open_one() {
    let mut first = staked_guild();
    let mut second = open_guild(OTHER_FARM, OTHER_UNBOND);
    let c = config();
    assert_eq!(
        first
            .migrate_to_other_guild(&mut second, USER, farm(2, 100_000_000), &c, 10)
            .unwrap_err(),
        GuildError::GuildNotClosing
    );
    first.close_guild(OWNER, 10).unwrap();
    assert_eq!(
        first
            .migrate_to_other_guild(&mut second, STRANGER, farm(2, 100_000_000), &c, 10)
            .unwrap_err(),
        GuildError::UnknownReceipt
    );
    assert_eq!(
        first
            .migrate_to_other_guild(&mut second, USER, farm(2, 500), &c, 10)
            .unwrap_err(),
        GuildError::InsufficientStake
    );
    second.close_guild(OWNER, 10).unwrap();
    assert_eq!(
        first
            .migrate_to_other_guild(&mut second, USER, farm(2, 100_000_000), &c, 10)
            .unwrap_err(),
        GuildError::GuildClosing
    );
    // Nothing moved in either guild.
    assert_eq!(value(&first.farm_token_supply()), 100_000_001);
    assert_eq!(value(&second.farm_token_supply()), 1);
    assert_eq!(
        value(&first.farm_position(USER, 2).unwrap().amount),
        100_000_000
    );
    assert_eq!(
        value(&first.get_user_total_farm_position(USER).total_farm_position),
        100_000_000
    );
}

#[test]
fn moving_a_part_conserves_the_stake_of_both_guilds() {
    let mut first = staked_guild();
    let mut second = open_guild(OTHER_FARM, OTHER_UNBOND);
    first.close_guild(OWNER, 10).unwrap();
    let out = first
        .migrate_to_other_guild(&mut second, USER, farm(2, 30_000_000), &config(), 12)
        .unwrap();
    // 399,999 * 30,000,000 / 10^12 = 11.99...
    assert_eq!(value(&out.rewards.amount), 11);
    assert_eq!(out.new_farm_token.token, OTHER_FARM);
    assert_eq!(out.new_farm_token.nonce, 2);
    assert_eq!(value(&out.new_farm_token.amount), 30_000_000);
    assert_eq!(value(&out.new_attributes.reward_per_share), 0);
    assert_eq!(out.old_attributes.len(), 1);
    assert_eq!(value(&out.old_attributes[0].current_farm_amount), 30_000_000);
    assert_eq!(value(&first.farm_token_supply()), 70_000_001);
    assert_eq!(value(&second.farm_token_supply()), 30_000_001);
    assert_eq!(
        value(&first.farm_token_supply()) + value(&second.farm_token_supply()),
        100_000_002
    );
    assert_eq!(
        value(&first.farm_position(USER, 2).unwrap().amount),
        70_000_000
    );
    let moved = second.farm_position(USER, 2).unwrap();
    assert_eq!(moved.owner, USER);
    assert_eq!(value(&moved.amount), 30_000_000);
    assert_eq!(
        value(&first.get_user_total_farm_position(USER).total_farm_position),
        70_000_000
    );
    assert_eq!(
        value(&second.get_user_total_farm_position(USER).total_farm_position),
        30_000_000
    );
}

#[test]
fn the_supply_is_the_sum_of_the_receipts_after_every_call() {
    let mut guild = guild();
    let c = config();
    assert_eq!(receipts_total(&guild, &[(OWNER, 1)]), 1);

    guild
        .stake_farm(USER, ride(100_000_000), &Vec::new(), &c, 0)
        .unwrap();
    assert_eq!(
        receipts_total(&guild, &[(OWNER, 1), (USER, 2)]),
        value(&guild.farm_token_supply())
    );

    guild
        .stake_farm(STRANGER, ride(7_000), &Vec::new(), &c, 3)
        .unwrap();
    assert_eq!(
        receipts_total(&guild, &[(OWNER, 1), (USER, 2), (STRANGER, 3)]),
        value(&guild.farm_token_supply())
    );

    guild
        .claim_rewards(USER, &vec![farm(2, 60_000_000)], 10)
        .unwrap();
    assert_eq!(
        receipts_total(&guild, &[(OWNER, 1), (USER, 2), (STRANGER, 3), (USER, 4)]),
        value(&guild.farm_token_supply())
    );
    assert_eq!(value(&guild.farm_token_supply()), 100_007_001);

    guild
        .compound_rewards_base(USER, &vec![farm(2, 40_000_000), farm(4, 60_000_000)], 20)
        .unwrap();
    let holdings = [(OWNER, 1), (STRANGER, 3), (USER, 5)];
    assert_eq!(
        receipts_total(&guild, &holdings),
        value(&guild.farm_token_supply())
    );

    guild
        .unstake_farm(STRANGER, farm(3, 2_000), &c, 30, 1)
        .unwrap();
    assert_eq!(
        receipts_total(&guild, &holdings),
        value(&guild.farm_token_supply())
    );
}

#[test]
fn the_reward_per_share_never_falls() {
    let mut guild = staked_guild();
    let c = config();
    let mut last = 0;
    let mut check = |guild: &Guild| {
        let now = value(&guild.storage_cache().reward_per_share);
        assert!(now >= last);
        last = now;
    };
    guild
        .claim_rewards(USER, &vec![farm(2, 100_000_000)], 10)
        .unwrap();
    check(&guild);
    guild
        .stake_farm(STRANGER, ride(50_000_000), &Vec::new(), &c, 12)
        .unwrap();
    check(&guild);
    guild
        .unstake_farm(USER, farm(3, 100_000_000), &c, 5, 1)
        .unwrap();
    check(&guild);
    guild
        .cancel_unbond(USER, unbond(1, 100_000_000), 40)
        .unwrap();
    check(&guild);
    guild.set_per_block_rewards(OWNER, amount(1), 50).unwrap();
    check(&guild);
    guild.close_guild(OWNER, 60).unwrap();
    check(&guild);
    guild
        .claim_rewards(STRANGER, &vec![farm(4, 50_000_000)], 70)
        .unwrap();
    check(&guild);
    assert_eq!(guild.storage_cache().last_reward_block_nonce, 60);
}

#[test]
fn merging_settles_each_receipt_and_sets_boosted_rewards_aside() {
    let mut guild = staked_guild();
    let c = config();
    guild
        .stake_farm(USER, ride(200_000_000), &Vec::new(), &c, 10)
        .unwrap();
    // The reserve holds 40 by block 10, 250 by block 25.
    assert_eq!(
        guild
            .merge_farm_tokens_endpoint(
                USER,
                &vec![farm(2, 100_000_000), farm(3, 200_000_000)],
                amount(41),
                25,
            )
            .unwrap_err(),
        GuildError::InsufficientReserve
    );
    assert_eq!(value(&guild.storage_cache().reward_reserve), 40);

    let out = guild
        .merge_farm_tokens_endpoint(
            USER,
            &vec![farm(2, 100_000_000), farm(3, 200_000_000)],
            amount(2),
            25,
        )
        .unwrap();
    assert_eq!(value(&out.rewards.amount), 248);
    assert_eq!(out.new_farm_token.nonce, 4);
    assert_eq!(value(&out.new_farm_token.amount), 300_000_000);
    let storage = guild.storage_cache();
    assert_eq!(value(&storage.reward_reserve), 0);
    assert_eq!(value(&storage.farm_token_supply), 300_000_001);

    // The boosted rewards wait for the user.
    let paid = guild
        .claim_boosted_rewards(USER, None, amount(0), 0)
        .unwrap();
    assert_eq!(paid.token, RIDE);
    assert_eq!(value(&paid.amount), 2);
    let paid = guild
        .claim_boosted_rewards(USER, None, amount(0), 0)
        .unwrap();
    assert_eq!(value(&paid.amount), 0);
}

#[test]
fn boosted_rewards_are_claimed_by_the_user_or_with_permission() {
    let mut guild = Guild::init(
        RIDE,
        amount(1_000_000_000_000),
        amount(2_500),
        5,
        OWNER,
        OWNER,
        4,
        Vec::new(),
        0,
    )
    .unwrap();
    guild.register_farm_token(OWNER, FARM).unwrap();
    guild.resume(OWNER).unwrap();
    guild.set_per_block_rewards(OWNER, amount(5_000), 0).unwrap();
    guild.top_up_rewards(OWNER, ride(1_000_000)).unwrap();
    guild
        .stake_farm(USER, ride(100_000_000), &Vec::new(), &config(), 0)
        .unwrap();
    guild
        .claim_rewards(USER, &vec![farm(1, 100_000_000)], 10)
        .unwrap();
    // 39 fell due, 39 were paid: the reserve is empty.
    assert_eq!(value(&guild.storage_cache().reward_reserve), 0);
    guild
        .stake_farm(USER, ride(1), &Vec::new(), &config(), 30)
        .unwrap();
    let reserve = value(&guild.storage_cache().reward_reserve);
    assert_eq!(reserve, 80);

    assert_eq!(
        guild
            .claim_boosted_rewards(USER, None, amount(5), 3)
            .unwrap_err(),
        GuildError::CannotClaimYet
    );
    assert_eq!(
        guild
            .claim_boosted_rewards(STRANGER, Some(USER), amount(5), 4)
            .unwrap_err(),
        GuildError::CannotClaimForAddress
    );
    assert_eq!(
        guild
            .claim_boosted_rewards(USER, None, amount(81), 4)
            .unwrap_err(),
        GuildError::InsufficientReserve
    );
    assert!(!guild.get_allow_external_claim_rewards(USER));
    guild.allow_external_claim_boosted_rewards(USER, true);
    assert!(guild.get_allow_external_claim_rewards(USER));
    assert!(!guild.get_allow_external_claim_rewards(STRANGER));

    guild.add_boosted_rewards(USER, &amount(7));
    let paid = guild
        .claim_boosted_rewards(STRANGER, Some(USER), amount(5), 4)
        .unwrap();
    assert_eq!(value(&paid.amount), 12);
    assert_eq!(value(&guild.storage_cache().reward_reserve), 75);

    assert_eq!(
        value(&guild.claim_only_boosted_payment(amount(75)).unwrap()),
        75
    );
    assert_eq!(value(&guild.storage_cache().reward_reserve), 0);
    assert_eq!(
        guild.claim_only_boosted_payment(amount(1)).unwrap_err(),
        GuildError::InsufficientReserve
    );
    assert_eq!(
        value(&guild.claim_only_boosted_payment(amount(0)).unwrap()),
        0
    );
}

#[test]
fn old_receipts_count_once_their_holder_hands_them_in() {
    let mut guild = staked_guild();
    let c = config();
    assert!(!guild.is_old_farm_position(2));
    guild.upgrade();
    // Receipts 1 and 2 are from before; the next one is not.
    assert!(guild.is_old_farm_position(1));
    assert!(guild.is_old_farm_position(2));
    assert!(!guild.is_old_farm_position(3));
    assert!(!guild.is_old_farm_position(0));
    guild
        .stake_farm(USER, ride(5_000), &Vec::new(), &c, 0)
        .unwrap();
    guild.upgrade();
    assert!(!guild.is_old_farm_position(3));
    assert_eq!(
        value(&guild.get_user_total_farm_position(USER).total_farm_position),
        100_005_000
    );

    let payments = vec![
        farm(2, 60_000_000),
        farm(3, 5_000),
        unbond(1, 9),
        farm(0, 8),
    ];
    let migrated = guild.migrate_old_farm_positions(USER, &payments);
    assert_eq!(value(&migrated), 60_000_000);
    assert_eq!(
        value(&guild.get_user_total_farm_position(USER).total_farm_position),
        160_005_000
    );
    let none = guild.migrate_old_farm_positions(USER, &vec![farm(3, 5_000)]);
    assert!(none.is_zero());

    assert_eq!(
        guild
            .decrease_old_farm_positions(amount(160_005_001), USER)
            .unwrap_err(),
        GuildError::InsufficientBalance
    );
    guild.decrease_old_farm_positions(amount(0), USER).unwrap();
    guild
        .decrease_old_farm_positions(amount(60_000_000), USER)
        .unwrap();
    assert_eq!(
        value(&guild.get_user_total_farm_position(USER).total_farm_position),
        100_005_000
    );

    // An old receipt that leaves takes nothing from the total; a new one
    // does, down to zero at the lowest.
    guild
        .unstake_farm(USER, farm(2, 100_000_000), &c, 0, 0)
        .unwrap();
    assert_eq!(
        value(&guild.get_user_total_farm_position(USER).total_farm_position),
        100_005_000
    );
    guild
        .decrease_old_farm_positions(amount(100_004_000), USER)
        .unwrap();
    guild.unstake_farm(USER, farm(3, 5_000), &c, 0, 0).unwrap();
    assert_eq!(
        value(&guild.get_user_total_farm_position(USER).total_farm_position),
        0
    );
}

#[test]
fn a_guild_says_what_it_needs_from_its_funder() {
    let mut guild = bare_guild();
    guild.register_farm_token(OWNER, FARM).unwrap();
    guild.resume(OWNER).unwrap();
    guild.set_per_block_rewards(OWNER, amount(5_000), 0).unwrap();
    guild
        .stake_farm(USER, ride(100_000_000), &Vec::new(), &config(), 0)
        .unwrap();
    assert_eq!(value(&guild.needed_rewards(10)), 40);
    guild.top_up_rewards(OWNER, ride(40)).unwrap();
    assert_eq!(value(&guild.needed_rewards(10)), 0);
    let out = guild
        .claim_rewards(USER, &vec![farm(1, 100_000_000)], 10)
        .unwrap();
    // 40 * 10^12 / 100,000,000 = 400,000 exactly
    assert_eq!(value(&out.rewards.amount), 40);
    assert_eq!(guild.min_unbond_epochs(), 5);
    assert_eq!(guild.first_week_start_epoch(), 0);
}

#[test]
fn a_guild_without_position_token_starts_counting_at_the_first_receipt() {
    let mut guild = bare_guild();
    guild.upgrade();
    assert!(!guild.is_old_farm_position(1));
    assert!(!guild.is_old_farm_position(0));
}

#[test]
fn rewards_of_a_position_can_be_simulated_by_the_guild_itself() {
    let guild = staked_guild();
    let sc = Address { w0: 9, w1: 9, w2: 9, w3: 9 };
    let attributes = || StakingFarmTokenAttributes {
        reward_per_share: amount(0),
        compounded_reward: amount(0),
        current_farm_amount: amount(100_000_000),
    };
    assert_eq!(
        guild
            .calculate_rewards_for_given_position(USER, sc, amount(100_000_000), attributes(), 10)
            .unwrap_err(),
        GuildError::NotQueried
    );
    let reward = guild
        .calculate_rewards_for_given_position(sc, sc, amount(100_000_000), attributes(), 10)
        .unwrap();
    assert_eq!(value(&reward), 39);
    // Nothing was set aside by asking.
    assert_eq!(value(&guild.storage_cache().reward_per_share), 0);
    let stale = StakingFarmTokenAttributes {
        reward_per_share: amount(400_000),
        compounded_reward: amount(0),
        current_farm_amount: amount(100_000_000),
    };
    assert_eq!(
        guild
            .calculate_rewards_for_given_position(sc, sc, amount(100_000_000), stale, 10)
            .unwrap_err(),
        GuildError::NegativeReward
    );
    assert_eq!(Guild::require_queried(sc, sc), Ok(()));
    assert_eq!(
        Guild::require_queried(Address::zero(), sc),
        Err(GuildError::NotQueried)
    );
}

#[test]
fn the_reserve_covers_what_every_receipt_has_earned() {
    let mut guild = guild();
    let c = config();
    let stakes: [(u64, u64); 5] = [
        (10, 33_333_333),
        (11, 7_777),
        (12, 123_456_789),
        (13, 1_001),
        (14, 99_999_999),
    ];
    let mut block = 0;
    let mut receipts = Vec::new();
    for (who, stake) in stakes {
        block += 7;
        let user = Address { w0: who, w1: 0, w2: 0, w3: 0 };
        let out = guild
            .stake_farm(user, ride(stake), &Vec::new(), &c, block)
            .unwrap();
        receipts.push((user, out.new_farm_token));
    }
    let mut paid = 0;
    for round in 0..3 {
        let mut next = Vec::new();
        for (user, receipt) in receipts {
            block += 13 + round;
            let out = guild.claim_rewards(user, &vec![receipt], block).unwrap();
            paid += value(&out.rewards.amount);
            next.push((user, out.new_farm_token));
        }
        receipts = next;
    }
    let storage = guild.storage_cache();
    assert_eq!(
        paid + value(&storage.reward_reserve),
        value(&storage.accumulated_rewards)
    );
    assert!(paid > 0);
}
