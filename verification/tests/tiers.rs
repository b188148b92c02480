use guild_sc::amount::Amount;
use guild_sc::common::{Address, GuildError};
use guild_sc::tiered_rewards::{
    GuildConfig, GuildMasterRewardTier, ReadConfigModule, RewardTier, UserRewardTier,
};

fn amount(v: u64) -> Amount {
    Amount::from_u64(v)
}

fn address(n: u64) -> Address {
    Address { w0: n, w1: 0, w2: 0, w3: 0 }
}

fn config() -> GuildConfig {
    GuildConfig {
        guild_master_tiers: vec![
            GuildMasterRewardTier { max_stake: amount(1_000), apr: 1_000 },
            GuildMasterRewardTier { max_stake: amount(5_000), apr: 2_000 },
            GuildMasterRewardTier { max_stake: amount(20_000), apr: 3_000 },
        ],
        user_tiers: vec![
            UserRewardTier { max_percentage_staked: 2_500, apr: 500 },
            UserRewardTier { max_percentage_staked: 5_000, apr: 800 },
            UserRewardTier { max_percentage_staked: 10_000, apr: 1_200 },
        ],
        max_staked_tokens: amount(1_000_000),
        min_unbond_epochs_user: 5,
        min_unbond_epochs_guild_master: 10,
        min_stake_user: amount(10),
        min_stake_guild_master: amount(1_000),
    }
}

#[test]
fn user_tier_is_the_first_that_covers_the_share() {
    let c = config();
    assert_eq!(c.find_user_tier_apr(0), Ok(500));
    assert_eq!(c.find_user_tier_apr(2_500), Ok(500));
    assert_eq!(c.find_user_tier_apr(2_501), Ok(800));
    assert_eq!(c.find_user_tier_apr(5_000), Ok(800));
    assert_eq!(c.find_user_tier_apr(10_000), Ok(1_200));
}

#[test]
fn guild_master_tier_is_the_first_that_covers_the_stake() {
    let c = config();
    assert_eq!(c.find_guild_master_tier_apr(&amount(0)), Ok(1_000));
    assert_eq!(c.find_guild_master_tier_apr(&amount(1_000)), Ok(1_000));
    assert_eq!(c.find_guild_master_tier_apr(&amount(1_001)), Ok(2_000));
    assert_eq!(c.find_guild_master_tier_apr(&amount(20_000)), Ok(3_000));
}

#[test]
fn an_input_that_no_tier_covers_is_refused() {
    let c = config();
    assert_eq!(c.find_user_tier_apr(10_001), Err(GuildError::TierNotFound));
    assert_eq!(
        c.find_guild_master_tier_apr(&amount(20_001)),
        Err(GuildError::TierNotFound)
    );
    let empty: Vec<UserRewardTier> = Vec::new();
    assert!(GuildConfig::find_tier_common(&amount(0), 0, &empty).is_err());
}

#[test]
fn the_first_match_wins_in_a_table_out_of_order() {
    let tiers = vec![
        UserRewardTier { max_percentage_staked: 5_000, apr: 1 },
        UserRewardTier { max_percentage_staked: 2_500, apr: 2 },
        UserRewardTier { max_percentage_staked: 10_000, apr: 3 },
    ];
    let found = GuildConfig::find_tier_common(&amount(0), 2_000, &tiers).unwrap();
    assert_eq!(found.get_apr(), 1);
    let found = GuildConfig::find_tier_common(&amount(0), 7_000, &tiers).unwrap();
    assert_eq!(found.get_apr(), 3);
    assert!(tiers[1].is_in_range(&amount(0), 2_500));
    assert!(!tiers[1].is_in_range(&amount(0), 2_501));
}

#[test]
fn the_guild_master_goes_by_stake_and_users_by_share() {
    let c = config();
    let guild_master = address(1);
    let user = address(2);
    assert_eq!(
        c.find_any_user_tier_apr(guild_master, guild_master, &amount(3_000), 10_000),
        Ok(2_000)
    );
    assert_eq!(
        c.find_any_user_tier_apr(guild_master, user, &amount(3_000), 10_000),
        Ok(1_200)
    );
    assert_eq!(
        c.find_any_user_tier_apr(guild_master, user, &amount(3_000), 10_001),
        Err(GuildError::TierNotFound)
    );
    assert_eq!(
        c.find_any_user_tier_apr(guild_master, guild_master, &amount(30_000), 0),
        Err(GuildError::TierNotFound)
    );
}

#[test]
fn limits_differ_for_guild_master_and_users() {
    let c = config();
    let guild_master = address(1);
    let user = address(2);
    assert_eq!(c.get_max_staked_tokens().to_u64(), Some(1_000_000));
    assert_eq!(c.get_min_stake_user().to_u64(), Some(10));
    assert_eq!(c.get_min_stake_guild_master().to_u64(), Some(1_000));
    assert_eq!(c.get_min_unbond_epochs_user(), 5);
    assert_eq!(c.get_min_unbond_epochs_guild_master(), 10);
    assert_eq!(
        c.get_min_stake_for_user(guild_master, user).to_u64(),
        Some(10)
    );
    assert_eq!(
        c.get_min_stake_for_user(guild_master, guild_master).to_u64(),
        Some(1_000)
    );
    assert_eq!(c.get_min_unbond_epochs_for_user(guild_master, user), 5);
    assert_eq!(
        c.get_min_unbond_epochs_for_user(guild_master, guild_master),
        10
    );
}

#[test]
fn a_table_is_in_order_when_its_thresholds_never_fall() {
    let mut c = config();
    assert!(c.tiers_are_monotonic());
    c.user_tiers.push(UserRewardTier { max_percentage_staked: 10_000, apr: 1 });
    assert!(c.tiers_are_monotonic());
    c.user_tiers.push(UserRewardTier { max_percentage_staked: 9_999, apr: 1 });
    assert!(!c.tiers_are_monotonic());
    c.user_tiers.clear();
    assert!(c.tiers_are_monotonic());
    c.guild_master_tiers
        .insert(0, GuildMasterRewardTier { max_stake: amount(1_001), apr: 1 });
    assert!(!c.tiers_are_monotonic());
    c.guild_master_tiers.clear();
    assert!(c.tiers_are_monotonic());
}
