//! What the guild keeps about each user.

use crate::amount::Amount;
use crate::common::{Address, Nonce, State};
use crate::guild::{Guild, GuildView};
use vstd::prelude::*;

verus! {

/// How many receipts one call may hand in.
pub const DEFAULT_NFT_DEPOSIT_MAX_LEN: usize = 10;

/// The first nonce that counts towards its holder's total position, where
/// the guild had given out no receipt before it began to keep totals.
pub const DEFAULT_FARM_POSITION_MIGRATION_NONCE: u64 = 1;

/// The sum of a user's positions, and whether others may claim boosted
/// rewards in the user's name.
#[derive(Debug)]
pub struct UserTotalFarmPosition {
    pub total_farm_position: Amount,
    pub allow_external_claim_boosted_rewards: bool,
}

/// A user's total position, as a number.
pub struct UserPositionView {
    pub total_farm_position: nat,
    pub allow_external_claim_boosted_rewards: bool,
}

impl View for UserTotalFarmPosition {
    type V = UserPositionView;

    open spec fn view(&self) -> UserPositionView {
        UserPositionView {
            total_farm_position: self.total_farm_position@,
            allow_external_claim_boosted_rewards: self.allow_external_claim_boosted_rewards,
        }
    }
}

impl UserPositionView {
    /// What is known of a user the guild has not seen: nothing staked, no
    /// permission given.
    pub open spec fn empty() -> UserPositionView {
        UserPositionView { total_farm_position: 0, allow_external_claim_boosted_rewards: false }
    }
}

impl Default for UserTotalFarmPosition {
    fn default() -> (r: Self)
        ensures
            r@ == UserPositionView::empty(),
    {
        UserTotalFarmPosition {
            total_farm_position: Amount::zero(),
            allow_external_claim_boosted_rewards: false,
        }
    }
}

impl UserTotalFarmPosition {
    /// A copy of the record.
    pub fn dup(&self) -> (r: UserTotalFarmPosition)
        ensures
            r@ == self@,
    {
        UserTotalFarmPosition {
            total_farm_position: self.total_farm_position.dup(),
            allow_external_claim_boosted_rewards: self.allow_external_claim_boosted_rewards,
        }
    }
}

/// Whether a receipt was minted before the guild began to keep totals.
pub open spec fn is_old_nonce(migration_nonce: Nonce, token_nonce: Nonce) -> bool {
    0 < token_nonce < migration_nonce
}

/// One user's entry in the guild's books.
#[derive(Debug)]
pub struct UserRecord {
    pub address: Address,
    pub position: UserTotalFarmPosition,
    /// Boosted rewards set aside for the user and not yet paid out.
    pub accumulated_boosted_rewards: Amount,
}

/// A user's entry, as numbers.
pub struct UserRecordView {
    pub address: Address,
    pub position: UserPositionView,
    pub accumulated_boosted_rewards: nat,
}

impl View for UserRecord {
    type V = UserRecordView;

    open spec fn view(&self) -> UserRecordView {
        UserRecordView {
            address: self.address,
            position: self.position@,
            accumulated_boosted_rewards: self.accumulated_boosted_rewards@,
        }
    }
}

impl UserRecordView {
    /// The entry of a user the guild has not seen.
    pub open spec fn empty(address: Address) -> UserRecordView {
        UserRecordView {
            address,
            position: UserPositionView::empty(),
            accumulated_boosted_rewards: 0,
        }
    }
}

/// Whether the books hold an entry for the user.
pub open spec fn has_user(s: Seq<UserRecordView>, user: Address) -> bool {
    exists|i: int| 0 <= i < s.len() && (#[trigger] s[i]).address == user
}

/// Where the user's entry stands, if there is one.
pub open spec fn user_index(s: Seq<UserRecordView>, user: Address) -> int {
    choose|i: int| 0 <= i < s.len() && (#[trigger] s[i]).address == user
}

/// No two entries are about the same user.
pub open spec fn distinct_users(s: Seq<UserRecordView>) -> bool {
    forall|i: int, j: int|
        #![trigger s[i], s[j]]
        0 <= i < j < s.len() ==> s[i].address != s[j].address
}

/// The user's entry; that of an unseen user where the books hold none.
pub open spec fn lookup_user(s: Seq<UserRecordView>, user: Address) -> UserRecordView {
    if has_user(s, user) {
        s[user_index(s, user)]
    } else {
        UserRecordView::empty(user)
    }
}

/// The books after the user's entry was written.
pub open spec fn store_user(s: Seq<UserRecordView>, record: UserRecordView) -> Seq<
    UserRecordView,
> {
    if has_user(s, record.address) {
        s.update(user_index(s, record.address), record)
    } else {
        s.push(record)
    }
}

/// Among distinct users, the place of a user is the one place that has it.
pub proof fn lemma_user_index_unique(s: Seq<UserRecordView>, i: int)
    requires
        distinct_users(s),
        0 <= i < s.len(),
    ensures
        has_user(s, s[i].address),
        user_index(s, s[i].address) == i,
{
    let k = user_index(s, s[i].address);
    assert(0 <= k < s.len() && s[k].address == s[i].address);
    if k < i {
        assert(s[k].address != s[i].address);
    } else if i < k {
        assert(s[i].address != s[k].address);
    }
}

/// Writing an entry keeps the users distinct, and the entry is then what a
/// lookup of its user finds.
pub proof fn lemma_store_user(s: Seq<UserRecordView>, record: UserRecordView)
    requires
        distinct_users(s),
    ensures
        distinct_users(store_user(s, record)),
        lookup_user(store_user(s, record), record.address) == record,
{
    let out = store_user(s, record);
    if has_user(s, record.address) {
        let i = user_index(s, record.address);
        assert forall|a: int, b: int|
            #![trigger out[a], out[b]]
            0 <= a < b < out.len() implies out[a].address != out[b].address by {
            assert(s[a].address != s[b].address);
        }
        assert(out[i] == record);
        lemma_user_index_unique(out, i);
    } else {
        assert forall|a: int, b: int|
            #![trigger out[a], out[b]]
            0 <= a < b < out.len() implies out[a].address != out[b].address by {
            if b < s.len() {
                assert(s[a].address != s[b].address);
            } else {
                assert(s[a].address != record.address);
            }
        }
        assert(out[s.len() as int] == record);
        lemma_user_index_unique(out, s.len() as int);
    }
}

/// The guild's books on its users.
#[derive(Debug)]
pub struct UserBook {
    records: Vec<UserRecord>,
}

impl View for UserBook {
    type V = Seq<UserRecordView>;

    closed spec fn view(&self) -> Seq<UserRecordView> {
        self.records@.map_values(|r: UserRecord| r@)
    }
}

impl UserBook {
    /// Books without entries.
    pub fn new() -> (r: UserBook)
        ensures
            r@.len() == 0,
            distinct_users(r@),
    {
        UserBook { records: Vec::new() }
    }

    /// A copy of the books.
    pub fn dup(&self) -> (r: UserBook)
        ensures
            r@ == self@,
    {
        let mut records: Vec<UserRecord> = Vec::new();
        let mut i: usize = 0;
        while i < self.records.len()
            invariant
                i <= self.records.len(),
                records.len() == i,
                forall|k: int| 0 <= k < i ==> (#[trigger] records[k])@ == self.records[k]@,
            decreases self.records.len() - i,
        {
            records.push(
                UserRecord {
                    address: self.records[i].address,
                    position: self.records[i].position.dup(),
                    accumulated_boosted_rewards: self.records[i].accumulated_boosted_rewards.dup(),
                },
            );
            i = i + 1;
        }
        assert(records@.map_values(|r: UserRecord| r@) =~= self.records@.map_values(
            |r: UserRecord| r@,
        ));
        UserBook { records }
    }

    /// Where the user's entry stands.
    fn find(&self, user: Address) -> (r: Option<usize>)
        ensures
            r is Some ==> r->0 < self@.len() && self@[r->0 as int].address == user,
            r is None ==> !has_user(self@, user),
    {
        let mut i: usize = 0;
        while i < self.records.len()
            invariant
                i <= self.records.len(),
                forall|k: int| 0 <= k < i ==> (#[trigger] self@[k]).address != user,
            decreases self.records.len() - i,
        {
            if self.records[i].address == user {
                return Some(i);
            }
            i = i + 1;
        }
        None
    }

    /// The user's entry.
    pub fn get(&self, user: Address) -> (r: UserRecord)
        requires
            distinct_users(self@),
        ensures
            r@ == lookup_user(self@, user),
    {
        match self.find(user) {
            Some(i) => {
                proof {
                    lemma_user_index_unique(self@, i as int);
                }
                UserRecord {
                    address: user,
                    position: self.records[i].position.dup(),
                    accumulated_boosted_rewards: self.records[i].accumulated_boosted_rewards.dup(),
                }
            },
            None => UserRecord {
                address: user,
                position: UserTotalFarmPosition::default(),
                accumulated_boosted_rewards: Amount::zero(),
            },
        }
    }

    /// Writes the user's entry.
    pub fn set(&mut self, record: UserRecord)
        requires
            distinct_users(old(self)@),
        ensures
            final(self)@ == store_user(old(self)@, record@),
            distinct_users(final(self)@),
    {
        proof {
            lemma_store_user(self@, record@);
        }
        let ghost before = self@;
        match self.find(record.address) {
            Some(i) => {
                proof {
                    lemma_user_index_unique(self@, i as int);
                }
                self.records.set(i, record);
                assert(self@ =~= before.update(i as int, record@));
            },
            None => {
                self.records.push(record);
                assert(self@ =~= before.push(record@));
            },
        }
    }
}

impl GuildView {
    /// The nonce that the guild would take as the first to count towards
    /// totals: the one after the last receipt it gave out, or the default
    /// where it has no position token yet.
    pub open spec fn next_migration_nonce(self) -> Nonce {
        if self.storage.farm_token_id is None {
            DEFAULT_FARM_POSITION_MIGRATION_NONCE
        } else if self.farm_token.last_nonce == u64::MAX {
            u64::MAX
        } else {
            (self.farm_token.last_nonce + DEFAULT_FARM_POSITION_MIGRATION_NONCE) as Nonce
        }
    }

    /// The guild after `caller` allowed or forbade others to claim boosted
    /// rewards in the caller's name.
    pub open spec fn allow_external_claim_boosted_rewards(self, caller: Address, allow: bool)
        -> GuildView {
        let r = lookup_user(self.users, caller);
        GuildView {
            users: store_user(
                self.users,
                UserRecordView {
                    position: UserPositionView {
                        allow_external_claim_boosted_rewards: allow,
                        ..r.position
                    },
                    ..r
                },
            ),
            ..self
        }
    }
}

/// What the guild is set up with and keeps about its users.
pub trait ConfigModule: View<V = GuildView> + Sized {
    /// Lets `caller` allow or forbid others to claim boosted rewards in the
    /// caller's name.
    fn allow_external_claim_boosted_rewards(&mut self, caller: Address, allow_external_claim: bool)
        requires
            old(self)@.wf(),
        ensures
            final(self)@.wf(),
            final(self)@ == old(self)@.allow_external_claim_boosted_rewards(
                caller,
                allow_external_claim,
            ),
    ;

    /// Whether others may claim boosted rewards in the name of `user`.
    fn get_allow_external_claim_rewards(&self, user: Address) -> (r: bool)
        requires
            self@.wf(),
        ensures
            r == lookup_user(self@.users, user).position.allow_external_claim_boosted_rewards,
    ;

    /// Whether the guild takes calls.
    fn is_active(&self) -> (r: bool)
        ensures
            r == (self@.storage.contract_state == State::Active),
    ;

    /// The total position of `user`; that of an unseen user where the guild
    /// has none on its books.
    fn get_user_total_farm_position(&self, user: Address) -> (r: UserTotalFarmPosition)
        requires
            self@.wf(),
        ensures
            r@ == lookup_user(self@.users, user).position,
    ;

    /// Whether the receipt was minted before the guild kept totals.
    fn is_old_farm_position(&self, token_nonce: Nonce) -> (r: bool)
        ensures
            r == is_old_nonce(self@.migration_nonce(), token_nonce),
    ;

    /// Fixes, once, the nonce from which receipts count towards totals.
    fn try_set_farm_position_migration_nonce(&mut self)
        requires
            old(self)@.wf(),
        ensures
            final(self)@.wf(),
            final(self)@ == (GuildView {
                farm_position_migration_nonce: if old(self)@.farm_position_migration_nonce
                    is Some {
                    old(self)@.farm_position_migration_nonce
                } else {
                    Some(old(self)@.next_migration_nonce())
                },
                ..old(self)@
            }),
    ;
}

impl ConfigModule for Guild {
    fn allow_external_claim_boosted_rewards(
        &mut self,
        caller: Address,
        allow_external_claim: bool,
    ) {
        let mut record = self.users.get(caller);
        record.position.allow_external_claim_boosted_rewards = allow_external_claim;
        self.users.set(record);
    }

    fn get_allow_external_claim_rewards(&self, user: Address) -> (r: bool) {
        let user_total_farm_position = self.get_user_total_farm_position(user);
        user_total_farm_position.allow_external_claim_boosted_rewards
    }

    fn is_active(&self) -> (r: bool) {
        self.storage.contract_state == State::Active
    }

    fn get_user_total_farm_position(&self, user: Address) -> (r: UserTotalFarmPosition) {
        self.users.get(user).position
    }

    fn is_old_farm_position(&self, token_nonce: Nonce) -> (r: bool) {
        let farm_position_migration_nonce = match self.farm_position_migration_nonce {
            Some(n) => n,
            None => 0,
        };
        token_nonce > 0 && token_nonce < farm_position_migration_nonce
    }

    fn try_set_farm_position_migration_nonce(&mut self) {
        if self.farm_position_migration_nonce.is_some() {
            return ;
        }
        let migration_farm_token_nonce = if self.storage.farm_token_id.is_some() {
            let current_nonce = self.farm_token.last_nonce();
            match current_nonce.checked_add(DEFAULT_FARM_POSITION_MIGRATION_NONCE) {
                Some(n) => n,
                None => u64::MAX,
            }
        } else {
            DEFAULT_FARM_POSITION_MIGRATION_NONCE
        };
        self.farm_position_migration_nonce = Some(migration_farm_token_nonce);
    }
}

} // verus!
