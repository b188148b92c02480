//! The tier tables and limits that the guilds' configuration holds, and the
//! lookup of the tier that applies.
//!
//! A table is an ordered list of tiers; each tier covers the inputs up to its
//! threshold, and the first tier that covers an input is the one that
//! applies. An input that no tier covers shows a table that was set up
//! wrongly: the lookup refuses it.

use crate::amount::Amount;
use crate::common::{Address, Epoch, GuildError, Percent};
use vstd::prelude::*;

verus! {

/// A bracket of a tier table.
pub trait RewardTier: Sized {
    /// Whether the tier covers a stake of `base_farming_amount`, or a share
    /// `percentage_staked` of all that is staked.
    spec fn in_range(&self, base_farming_amount: nat, percentage_staked: Percent) -> bool;

    /// The yearly rate of the tier.
    spec fn apr(&self) -> Percent;

    fn is_in_range(&self, base_farming_amount: &Amount, percentage_staked: Percent) -> (r: bool)
        ensures
            r == self.in_range(base_farming_amount@, percentage_staked),
    ;

    fn get_apr(&self) -> (r: Percent)
        ensures
            r == self.apr(),
    ;
}

/// A tier for a guild master: it covers the stakes up to `max_stake`.
#[derive(Debug)]
pub struct GuildMasterRewardTier {
    pub max_stake: Amount,
    pub apr: Percent,
}

/// A tier for a user: it covers the shares up to `max_percentage_staked`.
#[derive(Debug, Clone, Copy)]
pub struct UserRewardTier {
    pub max_percentage_staked: Percent,
    pub apr: Percent,
}

impl RewardTier for GuildMasterRewardTier {
    open spec fn in_range(&self, base_farming_amount: nat, percentage_staked: Percent) -> bool {
        base_farming_amount <= self.max_stake@
    }

    open spec fn apr(&self) -> Percent {
        self.apr
    }

    fn is_in_range(&self, base_farming_amount: &Amount, percentage_staked: Percent) -> (r: bool) {
        base_farming_amount.le(&self.max_stake)
    }

    fn get_apr(&self) -> (r: Percent) {
        self.apr
    }
}

impl RewardTier for UserRewardTier {
    open spec fn in_range(&self, base_farming_amount: nat, percentage_staked: Percent) -> bool {
        percentage_staked <= self.max_percentage_staked
    }

    open spec fn apr(&self) -> Percent {
        self.apr
    }

    fn is_in_range(&self, base_farming_amount: &Amount, percentage_staked: Percent) -> (r: bool) {
        percentage_staked <= self.max_percentage_staked
    }

    fn get_apr(&self) -> (r: Percent) {
        self.apr
    }
}

/// The place of the first tier from `from` on that covers the input; the
/// length of the table where none does.
pub open spec fn first_tier_from<T: RewardTier>(
    tiers: Seq<T>,
    base_farming_amount: nat,
    percentage_staked: Percent,
    from: int,
) -> int
    decreases tiers.len() - from,
{
    if from < 0 || from >= tiers.len() {
        tiers.len() as int
    } else if tiers[from].in_range(base_farming_amount, percentage_staked) {
        from
    } else {
        first_tier_from(tiers, base_farming_amount, percentage_staked, from + 1)
    }
}

/// The place of the tier that applies; the length of the table where none
/// does.
pub open spec fn first_tier<T: RewardTier>(
    tiers: Seq<T>,
    base_farming_amount: nat,
    percentage_staked: Percent,
) -> int {
    first_tier_from(tiers, base_farming_amount, percentage_staked, 0)
}

/// The yearly rate of the tier that applies, if one does.
pub open spec fn tier_apr<T: RewardTier>(
    tiers: Seq<T>,
    base_farming_amount: nat,
    percentage_staked: Percent,
) -> Result<Percent, GuildError> {
    let i = first_tier(tiers, base_farming_amount, percentage_staked);
    if i < tiers.len() {
        Ok(tiers[i].apr())
    } else {
        Err(GuildError::TierNotFound)
    }
}

/// The tier that applies covers the input, and no tier before it does; where
/// none applies, no tier covers the input.
pub proof fn lemma_first_tier<T: RewardTier>(
    tiers: Seq<T>,
    base_farming_amount: nat,
    percentage_staked: Percent,
    from: int,
)
    requires
        0 <= from <= tiers.len(),
    ensures
        from <= first_tier_from(tiers, base_farming_amount, percentage_staked, from)
            <= tiers.len(),
        first_tier_from(tiers, base_farming_amount, percentage_staked, from) < tiers.len()
            ==> tiers[first_tier_from(
            tiers,
            base_farming_amount,
            percentage_staked,
            from,
        )].in_range(base_farming_amount, percentage_staked),
        forall|j: int|
            from <= j < first_tier_from(tiers, base_farming_amount, percentage_staked, from)
                ==> !(#[trigger] tiers[j]).in_range(base_farming_amount, percentage_staked),
    decreases tiers.len() - from,
{
    if from < tiers.len() && !tiers[from].in_range(base_farming_amount, percentage_staked) {
        lemma_first_tier(tiers, base_farming_amount, percentage_staked, from + 1);
    }
}

/// What the configuration holds for all guilds.
#[derive(Debug)]
pub struct GuildConfig {
    pub guild_master_tiers: Vec<GuildMasterRewardTier>,
    pub user_tiers: Vec<UserRewardTier>,
    /// The most that one guild may hold.
    pub max_staked_tokens: Amount,
    pub min_unbond_epochs_user: Epoch,
    pub min_unbond_epochs_guild_master: Epoch,
    pub min_stake_user: Amount,
    pub min_stake_guild_master: Amount,
}

/// The thresholds of a table of user tiers never fall from one tier to the
/// next.
pub open spec fn user_tiers_monotonic(tiers: Seq<UserRewardTier>) -> bool {
    forall|i: int, j: int|
        #![trigger tiers[i], tiers[j]]
        0 <= i <= j < tiers.len() ==> tiers[i].max_percentage_staked
            <= tiers[j].max_percentage_staked
}

/// In a table whose thresholds never fall, a share finds a tier exactly if it
/// is within the last threshold, and the tier it finds is the first whose
/// threshold reaches it.
pub proof fn lemma_monotonic_user_tiers(tiers: Seq<UserRewardTier>, percentage_staked: Percent)
    requires
        user_tiers_monotonic(tiers),
        tiers.len() > 0,
    ensures
        tier_apr(tiers, 0, percentage_staked) is Ok <==> percentage_staked
            <= tiers.last().max_percentage_staked,
        first_tier(tiers, 0, percentage_staked) < tiers.len() ==> forall|j: int|
            0 <= j < first_tier(tiers, 0, percentage_staked) ==> (
            #[trigger] tiers[j]).max_percentage_staked < percentage_staked,
{
    lemma_first_tier(tiers, 0, percentage_staked, 0);
    let i = first_tier(tiers, 0, percentage_staked);
    if i < tiers.len() {
        assert(tiers[i].max_percentage_staked <= tiers[tiers.len() - 1].max_percentage_staked);
    } else {
        assert(!tiers[tiers.len() - 1].in_range(0, percentage_staked));
    }
}

/// The thresholds of a table of guild master tiers never fall from one tier
/// to the next.
pub open spec fn guild_master_tiers_monotonic(tiers: Seq<GuildMasterRewardTier>) -> bool {
    forall|i: int, j: int|
        #![trigger tiers[i], tiers[j]]
        0 <= i <= j < tiers.len() ==> tiers[i].max_stake@ <= tiers[j].max_stake@
}

/// In a table whose thresholds never fall, a stake finds a tier exactly if it
/// is within the last threshold, and the tier it finds is the first whose
/// threshold reaches it.
pub proof fn lemma_monotonic_guild_master_tiers(
    tiers: Seq<GuildMasterRewardTier>,
    base_farming_amount: nat,
)
    requires
        guild_master_tiers_monotonic(tiers),
        tiers.len() > 0,
    ensures
        tier_apr(tiers, base_farming_amount, 0) is Ok <==> base_farming_amount
            <= tiers.last().max_stake@,
        first_tier(tiers, base_farming_amount, 0) < tiers.len() ==> forall|j: int|
            0 <= j < first_tier(tiers, base_farming_amount, 0) ==> (
            #[trigger] tiers[j]).max_stake@ < base_farming_amount,
{
    lemma_first_tier(tiers, base_farming_amount, 0, 0);
    let i = first_tier(tiers, base_farming_amount, 0);
    if i < tiers.len() {
        assert(tiers[i].max_stake@ <= tiers[tiers.len() - 1].max_stake@);
    } else {
        assert(!tiers[tiers.len() - 1].in_range(base_farming_amount, 0));
    }
}

impl GuildConfig {
    /// Whether the thresholds of both tier tables never fall from one tier
    /// to the next, as a table has to be set up.
    pub fn tiers_are_monotonic(&self) -> (r: bool)
        ensures
            r == (user_tiers_monotonic(self.user_tiers@) && guild_master_tiers_monotonic(
                self.guild_master_tiers@,
            )),
    {
        let mut i: usize = 1;
        while i < self.user_tiers.len()
            invariant
                1 <= i,
                forall|a: int, b: int|
                    #![trigger self.user_tiers@[a], self.user_tiers@[b]]
                    0 <= a <= b < i && b < self.user_tiers@.len()
                        ==> self.user_tiers@[a].max_percentage_staked
                        <= self.user_tiers@[b].max_percentage_staked,
            decreases self.user_tiers.len() - i,
        {
            if self.user_tiers[i - 1].max_percentage_staked
                > self.user_tiers[i].max_percentage_staked {
                assert(!(self.user_tiers@[i - 1].max_percentage_staked
                    <= self.user_tiers@[i as int].max_percentage_staked));
                return false;
            }
            assert forall|a: int, b: int|
                #![trigger self.user_tiers@[a], self.user_tiers@[b]]
                0 <= a <= b < i + 1 && b < self.user_tiers@.len()
                    implies self.user_tiers@[a].max_percentage_staked
                    <= self.user_tiers@[b].max_percentage_staked by {
                if b == i && a < i {
                    assert(self.user_tiers@[a].max_percentage_staked
                        <= self.user_tiers@[i - 1].max_percentage_staked);
                }
            }
            i = i + 1;
        }
        let mut j: usize = 1;
        while j < self.guild_master_tiers.len()
            invariant
                1 <= j,
                user_tiers_monotonic(self.user_tiers@),
                forall|a: int, b: int|
                    #![trigger self.guild_master_tiers@[a], self.guild_master_tiers@[b]]
                    0 <= a <= b < j && b < self.guild_master_tiers@.len()
                        ==> self.guild_master_tiers@[a].max_stake@
                        <= self.guild_master_tiers@[b].max_stake@,
            decreases self.guild_master_tiers.len() - j,
        {
            if !self.guild_master_tiers[j - 1].max_stake.le(&self.guild_master_tiers[j].max_stake) {
                assert(!(self.guild_master_tiers@[j - 1].max_stake@
                    <= self.guild_master_tiers@[j as int].max_stake@));
                return false;
            }
            assert forall|a: int, b: int|
                #![trigger self.guild_master_tiers@[a], self.guild_master_tiers@[b]]
                0 <= a <= b < j + 1 && b < self.guild_master_tiers@.len()
                    implies self.guild_master_tiers@[a].max_stake@
                    <= self.guild_master_tiers@[b].max_stake@ by {
                if b == j && a < j {
                    assert(self.guild_master_tiers@[a].max_stake@
                        <= self.guild_master_tiers@[j - 1].max_stake@);
                }
            }
            j = j + 1;
        }
        true
    }
}

/// Reading the configuration that all guilds share.
pub trait ReadConfigModule: Sized {
    /// The tier table for guild masters.
    spec fn guild_master_tiers(&self) -> Seq<GuildMasterRewardTier>;

    /// The tier table for users.
    spec fn user_tiers(&self) -> Seq<UserRewardTier>;

    /// The most that one guild may hold.
    spec fn max_staked_tokens(&self) -> nat;

    /// The least that a user, or with `true` a guild master, keeps staked.
    spec fn min_stake(&self, guild_master: bool) -> nat;

    /// The epochs that a user, or with `true` a guild master, waits between
    /// unstaking and redeeming.
    spec fn min_unbond_epochs(&self, guild_master: bool) -> Epoch;

    /// The yearly rate that applies to `user`: by the stake for the guild
    /// master, by the share of the stake for anyone else.
    fn find_any_user_tier_apr(
        &self,
        guild_master: Address,
        user: Address,
        base_farming_amount: &Amount,
        percentage_staked: Percent,
    ) -> (r: Result<Percent, GuildError>)
        ensures
            r == if user != guild_master {
                tier_apr(self.user_tiers(), 0, percentage_staked)
            } else {
                tier_apr(self.guild_master_tiers(), base_farming_amount@, 0)
            },
    ;

    /// The yearly rate of the guild master's tier at that stake.
    fn find_guild_master_tier_apr(&self, base_farming_amount: &Amount) -> (r: Result<
        Percent,
        GuildError,
    >)
        ensures
            r == tier_apr(self.guild_master_tiers(), base_farming_amount@, 0),
    ;

    /// The yearly rate of the users' tier at that share of the stake.
    fn find_user_tier_apr(&self, percentage_staked: Percent) -> (r: Result<Percent, GuildError>)
        ensures
            r == tier_apr(self.user_tiers(), 0, percentage_staked),
    ;

    /// Finds the tier that applies to the input: the first of the table that
    /// covers it.
    fn find_tier_common<'a, T: RewardTier>(
        base_farming_amount: &Amount,
        percentage_staked: Percent,
        tiers: &'a Vec<T>,
    ) -> (r: Result<&'a T, GuildError>)
        ensures
            match r {
                Ok(tier) => first_tier(tiers@, base_farming_amount@, percentage_staked)
                    < tiers@.len() && *tier == tiers@[first_tier(
                    tiers@,
                    base_farming_amount@,
                    percentage_staked,
                )],
                Err(e) => e == GuildError::TierNotFound && first_tier(
                    tiers@,
                    base_farming_amount@,
                    percentage_staked,
                ) == tiers@.len(),
            },
    ;

    fn get_max_staked_tokens(&self) -> (r: Amount)
        ensures
            r@ == self.max_staked_tokens(),
    ;

    fn get_min_unbond_epochs_user(&self) -> (r: Epoch)
        ensures
            r == self.min_unbond_epochs(false),
    ;

    fn get_min_unbond_epochs_guild_master(&self) -> (r: Epoch)
        ensures
            r == self.min_unbond_epochs(true),
    ;

    fn get_min_stake_user(&self) -> (r: Amount)
        ensures
            r@ == self.min_stake(false),
    ;

    fn get_min_stake_guild_master(&self) -> (r: Amount)
        ensures
            r@ == self.min_stake(true),
    ;

    /// The least that `user` has to keep staked.
    fn get_min_stake_for_user(&self, guild_master: Address, user: Address) -> (r: Amount)
        ensures
            r@ == self.min_stake(user == guild_master),
    ;

    /// The epochs that `user` waits between unstaking and redeeming.
    fn get_min_unbond_epochs_for_user(&self, guild_master: Address, user: Address) -> (r: Epoch)
        ensures
            r == self.min_unbond_epochs(user == guild_master),
    ;
}

impl ReadConfigModule for GuildConfig {
    open spec fn guild_master_tiers(&self) -> Seq<GuildMasterRewardTier> {
        self.guild_master_tiers@
    }

    open spec fn user_tiers(&self) -> Seq<UserRewardTier> {
        self.user_tiers@
    }

    open spec fn max_staked_tokens(&self) -> nat {
        self.max_staked_tokens@
    }

    open spec fn min_stake(&self, guild_master: bool) -> nat {
        if guild_master {
            self.min_stake_guild_master@
        } else {
            self.min_stake_user@
        }
    }

    open spec fn min_unbond_epochs(&self, guild_master: bool) -> Epoch {
        if guild_master {
            self.min_unbond_epochs_guild_master
        } else {
            self.min_unbond_epochs_user
        }
    }

    fn find_any_user_tier_apr(
        &self,
        guild_master: Address,
        user: Address,
        base_farming_amount: &Amount,
        percentage_staked: Percent,
    ) -> (r: Result<Percent, GuildError>) {
        if !(user == guild_master) {
            self.find_user_tier_apr(percentage_staked)
        } else {
            self.find_guild_master_tier_apr(base_farming_amount)
        }
    }

    fn find_guild_master_tier_apr(&self, base_farming_amount: &Amount) -> (r: Result<
        Percent,
        GuildError,
    >) {
        match Self::find_tier_common(base_farming_amount, 0, &self.guild_master_tiers) {
            Ok(tier) => Ok(tier.get_apr()),
            Err(e) => Err(e),
        }
    }

    fn find_user_tier_apr(&self, percentage_staked: Percent) -> (r: Result<Percent, GuildError>) {
        let zero = Amount::zero();
        match Self::find_tier_common(&zero, percentage_staked, &self.user_tiers) {
            Ok(tier) => Ok(tier.get_apr()),
            Err(e) => Err(e),
        }
    }

    fn find_tier_common<'a, T: RewardTier>(
        base_farming_amount: &Amount,
        percentage_staked: Percent,
        tiers: &'a Vec<T>,
    ) -> (r: Result<&'a T, GuildError>) {
        let mut i: usize = 0;
        while i < tiers.len()
            invariant
                i <= tiers.len(),
                first_tier(tiers@, base_farming_amount@, percentage_staked) == first_tier_from(
                    tiers@,
                    base_farming_amount@,
                    percentage_staked,
                    i as int,
                ),
            decreases tiers.len() - i,
        {
            if tiers[i].is_in_range(base_farming_amount, percentage_staked) {
                return Ok(&tiers[i]);
            }
            i = i + 1;
        }
        Err(GuildError::TierNotFound)
    }

    fn get_max_staked_tokens(&self) -> (r: Amount) {
        self.max_staked_tokens.dup()
    }

    fn get_min_unbond_epochs_user(&self) -> (r: Epoch) {
        self.min_unbond_epochs_user
    }

    fn get_min_unbond_epochs_guild_master(&self) -> (r: Epoch) {
        self.min_unbond_epochs_guild_master
    }

    fn get_min_stake_user(&self) -> (r: Amount) {
        self.min_stake_user.dup()
    }

    fn get_min_stake_guild_master(&self) -> (r: Amount) {
        self.min_stake_guild_master.dup()
    }

    fn get_min_stake_for_user(&self, guild_master: Address, user: Address) -> (r: Amount) {
        if !(user == guild_master) {
            self.get_min_stake_user()
        } else {
            self.get_min_stake_guild_master()
        }
    }

    fn get_min_unbond_epochs_for_user(&self, guild_master: Address, user: Address) -> (r: Epoch) {
        if !(user == guild_master) {
            self.get_min_unbond_epochs_user()
        } else {
            self.get_min_unbond_epochs_guild_master()
        }
    }
}

} // verus!
