use guild_sc::amount::Amount;
use guild_sc::base_impl_wrapper::FarmStakingWrapper;
use guild_sc::common::{GuildError, State, TokenId};
use guild_sc::storage_cache::StorageCache;
use guild_sc::token_attributes::StakingFarmTokenAttributes;

fn amount(v: u64) -> Amount {
    Amount::from_u64(v)
}

fn value(a: &Amount) -> u64 {
    a.to_u64().expect("amount fits a machine word")
}

fn cache(supply: u64, capacity: u64) -> StorageCache {
    StorageCache {
        contract_state: State::Active,
        farm_token_id: Some(TokenId { id: 2 }),
        farming_token_id: TokenId { id: 1 },
        reward_token_id: TokenId { id: 1 },
        farm_token_supply: amount(supply),
        reward_reserve: amount(0),
        reward_per_share: amount(0),
        division_safety_constant: amount(1_000_000_000_000),
        accumulated_rewards: amount(0),
        reward_capacity: amount(capacity),
        per_block_reward_amount: amount(5_000),
        max_annual_percentage_rewards: amount(2_500),
        last_reward_block_nonce: 0,
        guild_closing: false,
    }
}

#[test]
fn per_block_rewards_are_rate_times_blocks() {
    let c = cache(100_000_001, 1_000_000);
    assert_eq!(
        value(&FarmStakingWrapper::calculate_per_block_rewards(&c, 10, 0)),
        50_000
    );
    assert_eq!(
        value(&FarmStakingWrapper::calculate_per_block_rewards(&c, 7, 7)),
        0
    );
    assert_eq!(
        value(&FarmStakingWrapper::calculate_per_block_rewards(&c, 3, 7)),
        0
    );
}

#[test]
fn apr_bound_is_floored_per_block() {
    // 100,000,001 * 2,500 / 10,000 / 5,256,000 = 4.75...
    assert_eq!(
        value(&FarmStakingWrapper::get_amount_apr_bounded(&cache(100_000_001, 0))),
        4
    );
    // 300,000,001 * 2,500 / 10,000 / 5,256,000 = 14.26...
    assert_eq!(
        value(&FarmStakingWrapper::get_amount_apr_bounded(&cache(300_000_001, 0))),
        14
    );
    assert_eq!(
        value(&FarmStakingWrapper::get_amount_apr_bounded(&cache(0, 0))),
        0
    );
}

#[test]
fn due_rewards_are_the_smaller_of_rate_and_apr_bound() {
    let mut c = cache(100_000_001, 1_000_000);
    let due = FarmStakingWrapper::mint_per_block_rewards(&mut c, 10);
    assert_eq!(value(&due), 40);
    assert_eq!(c.last_reward_block_nonce, 10);

    // A small rate per block stays under the bound.
    let mut c = cache(100_000_001, 1_000_000);
    c.per_block_reward_amount = amount(3);
    let due = FarmStakingWrapper::mint_per_block_rewards(&mut c, 10);
    assert_eq!(value(&due), 30);
}

#[test]
fn aggregated_rewards_raise_the_reward_per_share() {
    let mut c = cache(100_000_001, 1_000_000);
    FarmStakingWrapper::generate_aggregated_rewards(&mut c, 10);
    assert_eq!(value(&c.reward_reserve), 40);
    assert_eq!(value(&c.accumulated_rewards), 40);
    // 40 * 10^12 / 100,000,001 = 399,999.99...
    assert_eq!(value(&c.reward_per_share), 399_999);
    assert_eq!(c.last_reward_block_nonce, 10);
}

#[test]
fn aggregating_twice_in_one_block_changes_nothing() {
    let mut c = cache(100_000_001, 1_000_000);
    FarmStakingWrapper::generate_aggregated_rewards(&mut c, 10);
    FarmStakingWrapper::generate_aggregated_rewards(&mut c, 10);
    assert_eq!(value(&c.reward_reserve), 40);
    assert_eq!(value(&c.accumulated_rewards), 40);
    assert_eq!(value(&c.reward_per_share), 399_999);
    FarmStakingWrapper::generate_aggregated_rewards(&mut c, 4);
    assert_eq!(value(&c.reward_per_share), 399_999);
    assert_eq!(c.last_reward_block_nonce, 10);
}

#[test]
fn rewards_stop_at_the_capacity() {
    let mut c = cache(100_000_001, 25);
    FarmStakingWrapper::generate_aggregated_rewards(&mut c, 10);
    assert_eq!(value(&c.reward_reserve), 25);
    assert_eq!(value(&c.accumulated_rewards), 25);
    // 25 * 10^12 / 100,000,001 = 249,999.99...
    assert_eq!(value(&c.reward_per_share), 249_999);

    FarmStakingWrapper::generate_aggregated_rewards(&mut c, 20);
    assert_eq!(value(&c.reward_reserve), 25);
    assert_eq!(value(&c.accumulated_rewards), 25);
    assert_eq!(value(&c.reward_per_share), 249_999);
    assert_eq!(c.last_reward_block_nonce, 20);
}

#[test]
fn nothing_falls_due_without_stake() {
    let mut c = cache(0, 1_000_000);
    FarmStakingWrapper::generate_aggregated_rewards(&mut c, 10);
    assert_eq!(value(&c.reward_reserve), 0);
    assert_eq!(value(&c.accumulated_rewards), 0);
    assert_eq!(value(&c.reward_per_share), 0);
    assert_eq!(c.last_reward_block_nonce, 10);
}

#[test]
fn a_closing_guild_sets_nothing_aside() {
    let mut c = cache(100_000_001, 1_000_000);
    c.guild_closing = true;
    let due = FarmStakingWrapper::mint_per_block_rewards(&mut c, 10);
    assert!(due.is_zero());
    assert_eq!(c.last_reward_block_nonce, 0);
    FarmStakingWrapper::generate_aggregated_rewards(&mut c, 10);
    assert_eq!(value(&c.reward_reserve), 0);
    assert_eq!(value(&c.reward_per_share), 0);
}

#[test]
fn rewards_of_a_position_are_floored() {
    let mut c = cache(100_000_001, 1_000_000);
    FarmStakingWrapper::generate_aggregated_rewards(&mut c, 10);
    let attributes = FarmStakingWrapper::create_enter_farm_initial_attributes(
        amount(100_000_000),
        amount(0),
    );
    // 399,999 * 100,000,000 / 10^12 = 39.9999
    let reward =
        FarmStakingWrapper::calculate_rewards(&amount(100_000_000), &attributes, &c).unwrap();
    assert_eq!(value(&reward), 39);

    let fresh = FarmStakingWrapper::create_enter_farm_initial_attributes(
        amount(100_000_000),
        amount(399_999),
    );
    let reward = FarmStakingWrapper::calculate_rewards(&amount(100_000_000), &fresh, &c).unwrap();
    assert_eq!(value(&reward), 0);
}

#[test]
fn a_price_above_the_guilds_is_refused() {
    let mut c = cache(100_000_001, 1_000_000);
    FarmStakingWrapper::generate_aggregated_rewards(&mut c, 10);
    let stale = FarmStakingWrapper::create_enter_farm_initial_attributes(
        amount(100_000_000),
        amount(400_000),
    );
    assert_eq!(
        FarmStakingWrapper::calculate_rewards(&amount(100_000_000), &stale, &c).unwrap_err(),
        GuildError::NegativeReward
    );
}

#[test]
fn receipts_are_written_at_the_current_price() {
    let entered =
        FarmStakingWrapper::create_enter_farm_initial_attributes(amount(500), amount(7));
    assert_eq!(value(&entered.reward_per_share), 7);
    assert_eq!(value(&entered.compounded_reward), 0);
    assert_eq!(value(&entered.current_farm_amount), 500);

    let old = StakingFarmTokenAttributes {
        reward_per_share: amount(7),
        compounded_reward: amount(20),
        current_farm_amount: amount(500),
    };
    let claimed = FarmStakingWrapper::create_claim_rewards_initial_attributes(old.dup(), amount(9));
    assert_eq!(value(&claimed.reward_per_share), 9);
    assert_eq!(value(&claimed.compounded_reward), 20);
    assert_eq!(value(&claimed.current_farm_amount), 500);

    let compounded = FarmStakingWrapper::create_compound_rewards_initial_attributes(
        old,
        amount(9),
        &amount(11),
    );
    assert_eq!(value(&compounded.reward_per_share), 9);
    assert_eq!(value(&compounded.compounded_reward), 31);
    assert_eq!(value(&compounded.current_farm_amount), 511);
}

#[test]
fn a_part_of_a_receipt_takes_its_share_of_the_compounded_rewards() {
    let whole = StakingFarmTokenAttributes {
        reward_per_share: amount(7),
        compounded_reward: amount(39),
        current_farm_amount: amount(100_000_039),
    };
    assert_eq!(value(&whole.get_total_supply()), 100_000_039);
    assert_eq!(value(&whole.get_initial_farming_tokens()), 100_000_000);
    assert_eq!(value(&whole.get_compounded_rewards()), 39);

    // 39 * 50,000,000 / 100,000,039 = 19.49...
    let part = whole.dup().into_part(&amount(50_000_000));
    assert_eq!(value(&part.reward_per_share), 7);
    assert_eq!(value(&part.compounded_reward), 19);
    assert_eq!(value(&part.current_farm_amount), 50_000_000);

    let all = whole.into_part(&amount(100_000_039));
    assert_eq!(value(&all.compounded_reward), 39);
    assert_eq!(value(&all.current_farm_amount), 100_000_039);
}

#[test]
fn the_shortfall_is_what_the_capacity_does_not_cover() {
    let c = cache(100_000_001, 25);
    assert_eq!(value(&FarmStakingWrapper::needed_rewards(&c, 10)), 15);
    assert_eq!(value(&FarmStakingWrapper::needed_rewards(&c, 6)), 0);
    assert_eq!(value(&FarmStakingWrapper::needed_rewards(&c, 0)), 0);
    assert_eq!(c.last_reward_block_nonce, 0);

    // With the shortfall deposited, all that is due is set aside.
    let mut funded = cache(100_000_001, 25 + 15);
    FarmStakingWrapper::generate_aggregated_rewards(&mut funded, 10);
    assert_eq!(value(&funded.accumulated_rewards), 40);
    assert_eq!(value(&FarmStakingWrapper::needed_rewards(&funded, 10)), 0);
}

#[test]
fn counters_are_sound_while_rewards_stay_within_the_capacity() {
    let mut c = cache(100_000_001, 1_000);
    assert!(c.is_well_formed());
    FarmStakingWrapper::generate_aggregated_rewards(&mut c, 10);
    assert!(c.is_well_formed());
    c.accumulated_rewards = amount(1_001);
    assert!(!c.is_well_formed());
    c.accumulated_rewards = amount(39);
    assert!(!c.is_well_formed());
    c.accumulated_rewards = amount(40);
    c.division_safety_constant = amount(0);
    assert!(!c.is_well_formed());
}
