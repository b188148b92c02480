//! The receipts that a guild has outstanding.
//!
//! A position receipt is a numbered token: each mint takes a new nonce, the
//! receipt's amount is the stake it stands for, and a holder may hand in any
//! part of it. The sum of the amounts of all receipts is what the guild calls
//! its farm token supply.

use crate::amount::Amount;
use crate::common::{Address, GuildError, Nonce};
use crate::token_attributes::{AttributesView, StakingFarmTokenAttributes, lemma_part_wf};
use vstd::prelude::*;

verus! {

/// What one holder has of one position receipt.
#[derive(Debug)]
pub struct FarmPosition {
    pub nonce: Nonce,
    pub owner: Address,
    pub amount: Amount,
    pub attributes: StakingFarmTokenAttributes,
}

/// A holding of a position receipt, as numbers.
pub struct FarmPositionView {
    pub nonce: Nonce,
    pub owner: Address,
    pub amount: nat,
    pub attributes: AttributesView,
}

impl View for FarmPosition {
    type V = FarmPositionView;

    open spec fn view(&self) -> FarmPositionView {
        FarmPositionView {
            nonce: self.nonce,
            owner: self.owner,
            amount: self.amount@,
            attributes: self.attributes@,
        }
    }
}

impl FarmPositionView {
    /// A holding is not empty and is a part of what its receipt stands for.
    pub open spec fn wf(self) -> bool {
        &&& self.nonce > 0
        &&& 0 < self.amount <= self.attributes.current_farm_amount
        &&& self.attributes.wf()
    }
}

impl FarmPosition {
    /// A copy of the holding.
    pub fn dup(&self) -> (r: FarmPosition)
        ensures
            r@ == self@,
    {
        FarmPosition {
            nonce: self.nonce,
            owner: self.owner,
            amount: self.amount.dup(),
            attributes: self.attributes.dup(),
        }
    }
}

/// The sum of the amounts of the holdings.
pub open spec fn total_amount(s: Seq<FarmPositionView>) -> nat
    decreases s.len(),
{
    if s.len() == 0 {
        0
    } else {
        total_amount(s.drop_last()) + s.last().amount
    }
}

/// Whether a receipt of that nonce is outstanding.
pub open spec fn has_nonce(s: Seq<FarmPositionView>, nonce: Nonce) -> bool {
    exists|i: int| 0 <= i < s.len() && (#[trigger] s[i]).nonce == nonce
}

/// Where the receipt of that nonce stands, if it is outstanding.
pub open spec fn index_of(s: Seq<FarmPositionView>, nonce: Nonce) -> int {
    choose|i: int| 0 <= i < s.len() && (#[trigger] s[i]).nonce == nonce
}

/// No two holdings share a nonce.
pub open spec fn distinct_nonces(s: Seq<FarmPositionView>) -> bool {
    forall|i: int, j: int|
        #![trigger s[i], s[j]]
        0 <= i < j < s.len() ==> s[i].nonce != s[j].nonce
}

/// No holding was minted at a share price above `reward_per_share`.
pub open spec fn prices_at_most(s: Seq<FarmPositionView>, reward_per_share: nat) -> bool {
    forall|i: int|
        0 <= i < s.len() ==> (#[trigger] s[i]).attributes.reward_per_share <= reward_per_share
}

/// The outstanding position receipts, and the last nonce that was given out.
pub struct FarmLedgerView {
    pub positions: Seq<FarmPositionView>,
    pub last_nonce: Nonce,
}

impl FarmLedgerView {
    /// Every holding is well formed and has a nonce of its own that was given
    /// out before.
    pub open spec fn wf(self) -> bool {
        &&& forall|i: int|
            0 <= i < self.positions.len() ==> (#[trigger] self.positions[i]).wf()
                && self.positions[i].nonce <= self.last_nonce
        &&& distinct_nonces(self.positions)
    }

    /// The farm token supply that the receipts add up to.
    pub open spec fn total(self) -> nat {
        total_amount(self.positions)
    }

    /// The ledger after `amount` units of the receipt `nonce` were taken from
    /// `owner` and burned, with the attributes of the part taken; or why the
    /// receipt cannot be taken.
    pub open spec fn burn(self, owner: Address, nonce: Nonce, amount: nat) -> Result<
        (FarmLedgerView, AttributesView),
        GuildError,
    > {
        let i = index_of(self.positions, nonce);
        if amount == 0 {
            Err(GuildError::ZeroAmount)
        } else if !has_nonce(self.positions, nonce) || self.positions[i].owner != owner {
            Err(GuildError::UnknownReceipt)
        } else if amount > self.positions[i].amount {
            Err(GuildError::InsufficientBalance)
        } else {
            let p = self.positions[i];
            let rest = if amount == p.amount {
                self.positions.remove(i)
            } else {
                self.positions.update(
                    i,
                    FarmPositionView { amount: (p.amount - amount) as nat, ..p },
                )
            };
            Ok(
                (
                    FarmLedgerView { positions: rest, last_nonce: self.last_nonce },
                    p.attributes.part(amount),
                ),
            )
        }
    }

    /// The ledger after a new receipt was minted for `owner`.
    pub open spec fn mint(self, owner: Address, attributes: AttributesView) -> FarmLedgerView {
        let nonce = (self.last_nonce + 1) as Nonce;
        FarmLedgerView {
            positions: self.positions.push(
                FarmPositionView {
                    nonce,
                    owner,
                    amount: attributes.current_farm_amount,
                    attributes,
                },
            ),
            last_nonce: nonce,
        }
    }
}

/// A new holding adds its amount to the total.
pub proof fn lemma_total_push(s: Seq<FarmPositionView>, p: FarmPositionView)
    ensures
        total_amount(s.push(p)) == total_amount(s) + p.amount,
{
    assert(s.push(p).drop_last() =~= s);
}

/// A holding that leaves takes its amount from the total.
pub proof fn lemma_total_remove(s: Seq<FarmPositionView>, i: int)
    requires
        0 <= i < s.len(),
    ensures
        total_amount(s.remove(i)) + s[i].amount == total_amount(s),
    decreases s.len(),
{
    if i == s.len() - 1 {
        assert(s.remove(i) =~= s.drop_last());
    } else {
        lemma_total_remove(s.drop_last(), i);
        assert(s.remove(i).drop_last() =~= s.drop_last().remove(i));
    }
}

/// A holding that changes moves the total by the difference.
pub proof fn lemma_total_update(s: Seq<FarmPositionView>, i: int, p: FarmPositionView)
    requires
        0 <= i < s.len(),
    ensures
        total_amount(s.update(i, p)) + s[i].amount == total_amount(s) + p.amount,
    decreases s.len(),
{
    if i == s.len() - 1 {
        assert(s.update(i, p).drop_last() =~= s.drop_last());
    } else {
        lemma_total_update(s.drop_last(), i, p);
        assert(s.update(i, p).drop_last() =~= s.drop_last().update(i, p));
    }
}

/// Among distinct nonces, the place of a nonce is the one place that has it.
pub proof fn lemma_index_of_unique(s: Seq<FarmPositionView>, i: int)
    requires
        distinct_nonces(s),
        0 <= i < s.len(),
    ensures
        has_nonce(s, s[i].nonce),
        index_of(s, s[i].nonce) == i,
{
    let k = index_of(s, s[i].nonce);
    assert(0 <= k < s.len() && s[k].nonce == s[i].nonce);
    if k < i {
        assert(s[k].nonce != s[i].nonce);
    } else if i < k {
        assert(s[i].nonce != s[k].nonce);
    }
}

/// Burning keeps a ledger well formed and takes exactly the burned amount
/// from its total; the part taken is well formed, of that amount, and at the
/// receipt's share price.
pub proof fn lemma_burn(l: FarmLedgerView, owner: Address, nonce: Nonce, amount: nat)
    requires
        l.wf(),
        l.burn(owner, nonce, amount) is Ok,
    ensures
        l.burn(owner, nonce, amount)->Ok_0.0.wf(),
        l.burn(owner, nonce, amount)->Ok_0.0.total() + amount == l.total(),
        l.burn(owner, nonce, amount)->Ok_0.0.last_nonce == l.last_nonce,
        l.burn(owner, nonce, amount)->Ok_0.1.wf(),
        l.burn(owner, nonce, amount)->Ok_0.1.current_farm_amount == amount,
        has_nonce(l.positions, nonce),
        l.burn(owner, nonce, amount)->Ok_0.1.reward_per_share == l.positions[index_of(
            l.positions,
            nonce,
        )].attributes.reward_per_share,
{
    let i = index_of(l.positions, nonce);
    let p = l.positions[i];
    let out = l.burn(owner, nonce, amount)->Ok_0.0;
    assert(p.wf());
    lemma_part_wf(p.attributes, amount);
    if amount == p.amount {
        lemma_total_remove(l.positions, i);
        assert forall|a: int, b: int|
            #![trigger out.positions[a], out.positions[b]]
            0 <= a < b < out.positions.len() implies out.positions[a].nonce
            != out.positions[b].nonce by {
            let a0 = if a < i { a } else { a + 1 };
            let b0 = if b < i { b } else { b + 1 };
            assert(l.positions[a0].nonce != l.positions[b0].nonce);
        }
        assert forall|a: int| 0 <= a < out.positions.len() implies (#[trigger] out.positions[a]).wf()
            && out.positions[a].nonce <= out.last_nonce by {
            let a0 = if a < i { a } else { a + 1 };
            assert(l.positions[a0].wf());
        }
    } else {
        let q = FarmPositionView { amount: (p.amount - amount) as nat, ..p };
        lemma_total_update(l.positions, i, q);
        assert forall|a: int, b: int|
            #![trigger out.positions[a], out.positions[b]]
            0 <= a < b < out.positions.len() implies out.positions[a].nonce
            != out.positions[b].nonce by {
            assert(l.positions[a].nonce != l.positions[b].nonce);
        }
        assert forall|a: int| 0 <= a < out.positions.len() implies (#[trigger] out.positions[a]).wf()
            && out.positions[a].nonce <= out.last_nonce by {
            assert(l.positions[a].wf());
        }
    }
}

/// What is not above a share price is not above a higher one.
pub proof fn lemma_prices_rise(s: Seq<FarmPositionView>, low: nat, high: nat)
    requires
        prices_at_most(s, low),
        low <= high,
    ensures
        prices_at_most(s, high),
{
    assert forall|a: int| 0 <= a < s.len() implies (#[trigger] s[a]).attributes.reward_per_share
        <= high by {
        assert(s[a].attributes.reward_per_share <= low);
    }
}

/// Burning leaves no holding above a share price that none was above before,
/// and the part taken is not above it either.
pub proof fn lemma_burn_prices(
    l: FarmLedgerView,
    owner: Address,
    nonce: Nonce,
    amount: nat,
    reward_per_share: nat,
)
    requires
        l.wf(),
        prices_at_most(l.positions, reward_per_share),
        l.burn(owner, nonce, amount) is Ok,
    ensures
        prices_at_most(l.burn(owner, nonce, amount)->Ok_0.0.positions, reward_per_share),
        l.burn(owner, nonce, amount)->Ok_0.1.reward_per_share <= reward_per_share,
{
    let i = index_of(l.positions, nonce);
    let out = l.burn(owner, nonce, amount)->Ok_0.0;
    assert(l.positions[i].attributes.reward_per_share <= reward_per_share);
    assert forall|a: int| 0 <= a < out.positions.len() implies (
    #[trigger] out.positions[a]).attributes.reward_per_share <= reward_per_share by {
        if amount == l.positions[i].amount {
            let a0 = if a < i { a } else { a + 1 };
            assert(l.positions[a0].attributes.reward_per_share <= reward_per_share);
        } else {
            assert(l.positions[a].attributes.reward_per_share <= reward_per_share);
        }
    }
}

/// Minting at a share price leaves no holding above it that was not above it
/// before.
pub proof fn lemma_mint_prices(
    l: FarmLedgerView,
    owner: Address,
    attributes: AttributesView,
    reward_per_share: nat,
)
    requires
        prices_at_most(l.positions, reward_per_share),
        attributes.reward_per_share <= reward_per_share,
    ensures
        prices_at_most(l.mint(owner, attributes).positions, reward_per_share),
{
    let out = l.mint(owner, attributes);
    assert forall|a: int| 0 <= a < out.positions.len() implies (
    #[trigger] out.positions[a]).attributes.reward_per_share <= reward_per_share by {
        if a < l.positions.len() {
            assert(l.positions[a].attributes.reward_per_share <= reward_per_share);
        }
    }
}

/// Minting keeps a ledger well formed and adds the receipt's amount to its
/// total.
pub proof fn lemma_mint(l: FarmLedgerView, owner: Address, attributes: AttributesView)
    requires
        l.wf(),
        l.last_nonce < u64::MAX,
        attributes.wf(),
        attributes.current_farm_amount > 0,
    ensures
        l.mint(owner, attributes).wf(),
        l.mint(owner, attributes).total() == l.total() + attributes.current_farm_amount,
{
    let out = l.mint(owner, attributes);
    let p = out.positions.last();
    lemma_total_push(l.positions, p);
    assert forall|a: int, b: int|
        #![trigger out.positions[a], out.positions[b]]
        0 <= a < b < out.positions.len() implies out.positions[a].nonce
        != out.positions[b].nonce by {
        assert(l.positions[a].wf());
        if b < l.positions.len() {
            assert(l.positions[a].nonce != l.positions[b].nonce);
        }
    }
    assert forall|a: int| 0 <= a < out.positions.len() implies (#[trigger] out.positions[a]).wf()
        && out.positions[a].nonce <= out.last_nonce by {
        if a < l.positions.len() {
            assert(l.positions[a].wf());
        }
    }
}

/// The position receipts of a guild.
#[derive(Debug)]
pub struct FarmLedger {
    positions: Vec<FarmPosition>,
    last_nonce: Nonce,
}

impl View for FarmLedger {
    type V = FarmLedgerView;

    closed spec fn view(&self) -> FarmLedgerView {
        FarmLedgerView {
            positions: self.positions@.map_values(|p: FarmPosition| p@),
            last_nonce: self.last_nonce,
        }
    }
}

impl FarmLedger {
    /// A ledger without receipts.
    pub fn new() -> (r: FarmLedger)
        ensures
            r@.positions.len() == 0,
            r@.last_nonce == 0,
            r@.wf(),
            r@.total() == 0,
    {
        FarmLedger { positions: Vec::new(), last_nonce: 0 }
    }

    /// The last nonce that was given out.
    pub fn last_nonce(&self) -> (r: Nonce)
        ensures
            r == self@.last_nonce,
    {
        self.last_nonce
    }

    /// The number of holdings.
    pub fn len(&self) -> (r: usize)
        ensures
            r == self@.positions.len(),
    {
        self.positions.len()
    }

    /// A copy of the ledger.
    pub fn dup(&self) -> (r: FarmLedger)
        ensures
            r@ == self@,
    {
        let mut positions: Vec<FarmPosition> = Vec::new();
        let mut i: usize = 0;
        while i < self.positions.len()
            invariant
                i <= self.positions.len(),
                positions.len() == i,
                forall|k: int| 0 <= k < i ==> (#[trigger] positions[k])@ == self.positions[k]@,
            decreases self.positions.len() - i,
        {
            positions.push(self.positions[i].dup());
            i = i + 1;
        }
        assert(positions@.map_values(|p: FarmPosition| p@) =~= self.positions@.map_values(
            |p: FarmPosition| p@,
        ));
        FarmLedger { positions, last_nonce: self.last_nonce }
    }

    /// Where the receipt of that nonce stands.
    fn find(&self, nonce: Nonce) -> (r: Option<usize>)
        ensures
            r is Some ==> r->0 < self@.positions.len() && self@.positions[r->0 as int].nonce
                == nonce,
            r is None ==> !has_nonce(self@.positions, nonce),
    {
        let mut i: usize = 0;
        while i < self.positions.len()
            invariant
                i <= self.positions.len(),
                forall|k: int| 0 <= k < i ==> (#[trigger] self@.positions[k]).nonce != nonce,
            decreases self.positions.len() - i,
        {
            if self.positions[i].nonce == nonce {
                return Some(i);
            }
            i = i + 1;
        }
        None
    }

    /// What `owner` holds of the receipt `nonce`, if anything.
    pub fn get(&self, owner: Address, nonce: Nonce) -> (r: Option<FarmPosition>)
        requires
            self@.wf(),
        ensures
            r is Some <==> has_nonce(self@.positions, nonce) && self@.positions[index_of(
                self@.positions,
                nonce,
            )].owner == owner,
            r is Some ==> r->0@ == self@.positions[index_of(self@.positions, nonce)],
    {
        match self.find(nonce) {
            Some(i) => {
                proof {
                    lemma_index_of_unique(self@.positions, i as int);
                }
                if self.positions[i].owner == owner {
                    Some(self.positions[i].dup())
                } else {
                    None
                }
            },
            None => None,
        }
    }

    /// Takes `amount` units of the receipt `nonce` from `owner` and burns
    /// them. Returns the attributes of the part taken.
    pub fn burn(&mut self, owner: Address, nonce: Nonce, amount: &Amount) -> (r: Result<
        StakingFarmTokenAttributes,
        GuildError,
    >)
        requires
            old(self)@.wf(),
        ensures
            match r {
                Ok(part) => old(self)@.burn(owner, nonce, amount@) == Ok::<
                    (FarmLedgerView, AttributesView),
                    GuildError,
                >((final(self)@, part@)),
                Err(e) => old(self)@.burn(owner, nonce, amount@) == Err::<
                    (FarmLedgerView, AttributesView),
                    GuildError,
                >(e) && final(self)@ == old(self)@,
            },
            final(self)@.wf(),
    {
        if amount.is_zero() {
            return Err(GuildError::ZeroAmount);
        }
        let i = match self.find(nonce) {
            Some(i) => i,
            None => {
                return Err(GuildError::UnknownReceipt);
            },
        };
        proof {
            lemma_index_of_unique(self@.positions, i as int);
        }
        if !(self.positions[i].owner == owner) {
            return Err(GuildError::UnknownReceipt);
        }
        if self.positions[i].amount.lt(amount) {
            return Err(GuildError::InsufficientBalance);
        }
        proof {
            lemma_burn(self@, owner, nonce, amount@);
            assert(self@.positions[i as int].wf());
        }
        let ghost before = self@;
        let p = self.positions.remove(i);
        assert(p@ == before.positions[i as int]);
        let whole = p.amount.same(amount);
        let part = p.attributes.dup().into_part(amount);
        if whole {
            assert(self@.positions =~= before.positions.remove(i as int));
        } else {
            let rest = FarmPosition {
                nonce: p.nonce,
                owner: p.owner,
                amount: p.amount.minus(amount),
                attributes: p.attributes,
            };
            self.positions.insert(i, rest);
            assert(self@.positions =~= before.positions.update(
                i as int,
                FarmPositionView {
                    amount: (before.positions[i as int].amount - amount@) as nat,
                    ..before.positions[i as int]
                },
            ));
        }
        Ok(part)
    }

    /// Mints a receipt with the given attributes for `owner`, of the amount
    /// the attributes say. Returns its nonce.
    pub fn mint(&mut self, owner: Address, attributes: StakingFarmTokenAttributes) -> (r: Nonce)
        requires
            old(self)@.wf(),
            old(self)@.last_nonce < u64::MAX,
            attributes@.wf(),
            attributes@.current_farm_amount > 0,
        ensures
            final(self)@ == old(self)@.mint(owner, attributes@),
            r == old(self)@.last_nonce + 1,
            final(self)@.wf(),
    {
        proof {
            lemma_mint(self@, owner, attributes@);
        }
        let ghost before = self@;
        let nonce = self.last_nonce + 1;
        let amount = attributes.get_total_supply();
        self.positions.push(FarmPosition { nonce, owner, amount, attributes });
        self.last_nonce = nonce;
        assert(self@.positions =~= before.mint(owner, attributes@).positions);
        nonce
    }
}

} // verus!
