//! The unbond receipts that a guild has outstanding.
//!
//! An unbond receipt stands for tokens that left the farm and wait to be
//! paid out. It earns nothing, and is handed in whole.

use crate::amount::Amount;
use crate::common::{Address, GuildError, Nonce};
use crate::token_attributes::{UnbondSftAttributes, UnbondView};
use vstd::prelude::*;

verus! {

/// An unbond receipt and its holder.
#[derive(Debug)]
pub struct UnbondPosition {
    pub nonce: Nonce,
    pub owner: Address,
    pub attributes: UnbondSftAttributes,
}

/// An unbond receipt, as numbers.
pub struct UnbondPositionView {
    pub nonce: Nonce,
    pub owner: Address,
    pub attributes: UnbondView,
}

impl View for UnbondPosition {
    type V = UnbondPositionView;

    open spec fn view(&self) -> UnbondPositionView {
        UnbondPositionView { nonce: self.nonce, owner: self.owner, attributes: self.attributes@ }
    }
}

impl UnbondView {
    /// The receipt is not empty, and the position it may go back to is well
    /// formed and of the receipt's amount.
    pub open spec fn wf(self) -> bool {
        &&& self.supply > 0
        &&& match self.opt_original_attributes {
            Some(a) => a.wf() && a.current_farm_amount == self.supply,
            None => true,
        }
    }
}

/// Whether an unbond receipt of that nonce is outstanding.
pub open spec fn has_unbond(s: Seq<UnbondPositionView>, nonce: Nonce) -> bool {
    exists|i: int| 0 <= i < s.len() && (#[trigger] s[i]).nonce == nonce
}

/// Where the unbond receipt of that nonce stands, if it is outstanding.
pub open spec fn unbond_index(s: Seq<UnbondPositionView>, nonce: Nonce) -> int {
    choose|i: int| 0 <= i < s.len() && (#[trigger] s[i]).nonce == nonce
}

/// No two unbond receipts share a nonce.
pub open spec fn distinct_unbonds(s: Seq<UnbondPositionView>) -> bool {
    forall|i: int, j: int|
        #![trigger s[i], s[j]]
        0 <= i < j < s.len() ==> s[i].nonce != s[j].nonce
}

/// The outstanding unbond receipts, and the last nonce that was given out.
pub struct UnbondLedgerView {
    pub positions: Seq<UnbondPositionView>,
    pub last_nonce: Nonce,
}

impl UnbondLedgerView {
    /// Every receipt is well formed and has a nonce of its own that was given
    /// out before.
    pub open spec fn wf(self) -> bool {
        &&& forall|i: int|
            0 <= i < self.positions.len() ==> (#[trigger] self.positions[i]).attributes.wf()
                && 0 < self.positions[i].nonce <= self.last_nonce
        &&& distinct_unbonds(self.positions)
    }

    /// The ledger after `owner` handed in the receipt `nonce`, with the
    /// receipt's attributes; or why the receipt cannot be taken.
    pub open spec fn take(self, owner: Address, nonce: Nonce, amount: nat) -> Result<
        (UnbondLedgerView, UnbondView),
        GuildError,
    > {
        let i = unbond_index(self.positions, nonce);
        if !has_unbond(self.positions, nonce) || self.positions[i].owner != owner {
            Err(GuildError::UnknownReceipt)
        } else if amount != self.positions[i].attributes.supply {
            Err(GuildError::MustUseAllTokens)
        } else {
            Ok(
                (
                    UnbondLedgerView {
                        positions: self.positions.remove(i),
                        last_nonce: self.last_nonce,
                    },
                    self.positions[i].attributes,
                ),
            )
        }
    }

    /// The ledger after a new receipt was minted for `owner`.
    pub open spec fn mint(self, owner: Address, attributes: UnbondView) -> UnbondLedgerView {
        let nonce = (self.last_nonce + 1) as Nonce;
        UnbondLedgerView {
            positions: self.positions.push(UnbondPositionView { nonce, owner, attributes }),
            last_nonce: nonce,
        }
    }
}

/// Among distinct nonces, the place of a nonce is the one place that has it.
pub proof fn lemma_unbond_index_unique(s: Seq<UnbondPositionView>, i: int)
    requires
        distinct_unbonds(s),
        0 <= i < s.len(),
    ensures
        has_unbond(s, s[i].nonce),
        unbond_index(s, s[i].nonce) == i,
{
    let k = unbond_index(s, s[i].nonce);
    assert(0 <= k < s.len() && s[k].nonce == s[i].nonce);
    if k < i {
        assert(s[k].nonce != s[i].nonce);
    } else if i < k {
        assert(s[i].nonce != s[k].nonce);
    }
}

/// Handing a receipt in keeps the ledger well formed; the attributes that
/// come out are well formed and of the amount handed in.
pub proof fn lemma_take(l: UnbondLedgerView, owner: Address, nonce: Nonce, amount: nat)
    requires
        l.wf(),
        l.take(owner, nonce, amount) is Ok,
    ensures
        l.take(owner, nonce, amount)->Ok_0.0.wf(),
        l.take(owner, nonce, amount)->Ok_0.0.last_nonce == l.last_nonce,
        l.take(owner, nonce, amount)->Ok_0.1.wf(),
        l.take(owner, nonce, amount)->Ok_0.1.supply == amount,
{
    let i = unbond_index(l.positions, nonce);
    let out = l.take(owner, nonce, amount)->Ok_0.0;
    assert(l.positions[i].attributes.wf());
    assert forall|a: int, b: int|
        #![trigger out.positions[a], out.positions[b]]
        0 <= a < b < out.positions.len() implies out.positions[a].nonce
        != out.positions[b].nonce by {
        let a0 = if a < i { a } else { a + 1 };
        let b0 = if b < i { b } else { b + 1 };
        assert(l.positions[a0].nonce != l.positions[b0].nonce);
    }
    assert forall|a: int| 0 <= a < out.positions.len() implies (
    #[trigger] out.positions[a]).attributes.wf() && 0 < out.positions[a].nonce
        <= out.last_nonce by {
        let a0 = if a < i { a } else { a + 1 };
        assert(l.positions[a0].attributes.wf());
    }
}

/// Minting keeps the ledger well formed.
pub proof fn lemma_unbond_mint(l: UnbondLedgerView, owner: Address, attributes: UnbondView)
    requires
        l.wf(),
        l.last_nonce < u64::MAX,
        attributes.wf(),
    ensures
        l.mint(owner, attributes).wf(),
{
    let out = l.mint(owner, attributes);
    assert forall|a: int, b: int|
        #![trigger out.positions[a], out.positions[b]]
        0 <= a < b < out.positions.len() implies out.positions[a].nonce
        != out.positions[b].nonce by {
        assert(l.positions[a].attributes.wf());
        if b < l.positions.len() {
            assert(l.positions[a].nonce != l.positions[b].nonce);
        }
    }
    assert forall|a: int| 0 <= a < out.positions.len() implies (
    #[trigger] out.positions[a]).attributes.wf() && 0 < out.positions[a].nonce
        <= out.last_nonce by {
        if a < l.positions.len() {
            assert(l.positions[a].attributes.wf());
        }
    }
}

/// The unbond receipts of a guild.
#[derive(Debug)]
pub struct UnbondLedger {
    positions: Vec<UnbondPosition>,
    last_nonce: Nonce,
}

impl View for UnbondLedger {
    type V = UnbondLedgerView;

    closed spec fn view(&self) -> UnbondLedgerView {
        UnbondLedgerView {
            positions: self.positions@.map_values(|p: UnbondPosition| p@),
            last_nonce: self.last_nonce,
        }
    }
}

impl UnbondLedger {
    /// A ledger without receipts.
    pub fn new() -> (r: UnbondLedger)
        ensures
            r@.positions.len() == 0,
            r@.last_nonce == 0,
            r@.wf(),
    {
        UnbondLedger { positions: Vec::new(), last_nonce: 0 }
    }

    /// The last nonce that was given out.
    pub fn last_nonce(&self) -> (r: Nonce)
        ensures
            r == self@.last_nonce,
    {
        self.last_nonce
    }

    /// A copy of the ledger.
    pub fn dup(&self) -> (r: UnbondLedger)
        ensures
            r@ == self@,
    {
        let mut positions: Vec<UnbondPosition> = Vec::new();
        let mut i: usize = 0;
        while i < self.positions.len()
            invariant
                i <= self.positions.len(),
                positions.len() == i,
                forall|k: int| 0 <= k < i ==> (#[trigger] positions[k])@ == self.positions[k]@,
            decreases self.positions.len() - i,
        {
            positions.push(
                UnbondPosition {
                    nonce: self.positions[i].nonce,
                    owner: self.positions[i].owner,
                    attributes: self.positions[i].attributes.dup(),
                },
            );
            i = i + 1;
        }
        assert(positions@.map_values(|p: UnbondPosition| p@) =~= self.positions@.map_values(
            |p: UnbondPosition| p@,
        ));
        UnbondLedger { positions, last_nonce: self.last_nonce }
    }

    /// Where the receipt of that nonce stands.
    fn find(&self, nonce: Nonce) -> (r: Option<usize>)
        ensures
            r is Some ==> r->0 < self@.positions.len() && self@.positions[r->0 as int].nonce
                == nonce,
            r is None ==> !has_unbond(self@.positions, nonce),
    {
        let mut i: usize = 0;
        while i < self.positions.len()
            invariant
                i <= self.positions.len(),
                forall|k: int| 0 <= k < i ==> (#[trigger] self@.positions[k]).nonce != nonce,
            decreases self.positions.len() - i,
        {
            if self.positions[i].nonce == nonce {
                return Some(i);
            }
            i = i + 1;
        }
        None
    }

    /// The attributes of the receipt `nonce`, if `owner` holds it.
    pub fn get_token_attributes(&self, owner: Address, nonce: Nonce) -> (r: Option<
        UnbondSftAttributes,
    >)
        requires
            self@.wf(),
        ensures
            r is Some <==> has_unbond(self@.positions, nonce) && self@.positions[unbond_index(
                self@.positions,
                nonce,
            )].owner == owner,
            r is Some ==> r->0@ == self@.positions[unbond_index(
                self@.positions,
                nonce,
            )].attributes,
    {
        match self.find(nonce) {
            Some(i) => {
                proof {
                    lemma_unbond_index_unique(self@.positions, i as int);
                }
                if self.positions[i].owner == owner {
                    Some(self.positions[i].attributes.dup())
                } else {
                    None
                }
            },
            None => None,
        }
    }

    /// Takes the receipt `nonce` from `owner` and burns it. Returns its
    /// attributes.
    pub fn take(&mut self, owner: Address, nonce: Nonce, amount: &Amount) -> (r: Result<
        UnbondSftAttributes,
        GuildError,
    >)
        requires
            old(self)@.wf(),
        ensures
            match r {
                Ok(attributes) => old(self)@.take(owner, nonce, amount@) == Ok::<
                    (UnbondLedgerView, UnbondView),
                    GuildError,
                >((final(self)@, attributes@)),
                Err(e) => old(self)@.take(owner, nonce, amount@) == Err::<
                    (UnbondLedgerView, UnbondView),
                    GuildError,
                >(e) && final(self)@ == old(self)@,
            },
            final(self)@.wf(),
    {
        let i = match self.find(nonce) {
            Some(i) => i,
            None => {
                return Err(GuildError::UnknownReceipt);
            },
        };
        proof {
            lemma_unbond_index_unique(self@.positions, i as int);
        }
        if !(self.positions[i].owner == owner) {
            return Err(GuildError::UnknownReceipt);
        }
        if !self.positions[i].attributes.supply.same(amount) {
            return Err(GuildError::MustUseAllTokens);
        }
        proof {
            lemma_take(self@, owner, nonce, amount@);
        }
        let ghost before = self@;
        let p = self.positions.remove(i);
        assert(self@.positions =~= before.positions.remove(i as int));
        Ok(p.attributes)
    }

    /// Mints a receipt with the given attributes for `owner`. Returns its
    /// nonce.
    pub fn mint(&mut self, owner: Address, attributes: UnbondSftAttributes) -> (r: Nonce)
        requires
            old(self)@.wf(),
            old(self)@.last_nonce < u64::MAX,
            attributes@.wf(),
        ensures
            final(self)@ == old(self)@.mint(owner, attributes@),
            r == old(self)@.last_nonce + 1,
            final(self)@.wf(),
    {
        proof {
            lemma_unbond_mint(self@, owner, attributes@);
        }
        let ghost before = self@;
        let nonce = self.last_nonce + 1;
        self.positions.push(UnbondPosition { nonce, owner, attributes });
        self.last_nonce = nonce;
        assert(self@.positions =~= before.mint(owner, attributes@).positions);
        nonce
    }
}

} // verus!
