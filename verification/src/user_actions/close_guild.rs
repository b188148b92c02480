//! Closing a guild. A closing guild sets no more rewards aside and takes no
//! new entries; its members can still claim, unstake and redeem, or move to
//! another guild. Closing cannot be undone.

use crate::base_impl_wrapper::FarmStakingWrapper;
use crate::common::{Address, GuildError, Nonce};
use crate::guild::{Guild, GuildView};
use crate::ledger::lemma_prices_rise;
use crate::storage_cache::StorageView;
use vstd::prelude::*;

verus! {

impl GuildView {
    /// The guild after `caller` closed it in block `block`: the rewards up to
    /// the block are still set aside. Only the guild master, the owner and
    /// the admins may close, and only once.
    pub open spec fn close_guild(self, caller: Address, block: Nonce) -> Result<
        GuildView,
        GuildError,
    > {
        if self.storage.guild_closing {
            Err(GuildError::GuildClosing)
        } else if caller != self.guild_master && !self.is_admin(caller) {
            Err(GuildError::PermissionDenied)
        } else {
            Ok(
                GuildView {
                    storage: StorageView {
                        guild_closing: true,
                        ..self.storage.aggregated(block)
                    },
                    ..self
                },
            )
        }
    }
}

/// In a closing guild no rewards fall due, whatever the block.
pub proof fn lemma_closing_sets_nothing_aside(s: StorageView, block: Nonce)
    requires
        s.guild_closing,
    ensures
        s.due(block) == 0,
        s.granted(block) == 0,
        s.aggregated(block) == s,
{
    assert(0nat * s.division_safety_constant == 0) by (nonlinear_arith);
    assert(s.share_increase(0) == 0);
}

impl Guild {
    /// Closes the guild for good.
    pub fn close_guild(&mut self, caller: Address, current_block_nonce: Nonce) -> (r: Result<
        (),
        GuildError,
    >)
        requires
            old(self)@.wf(),
        ensures
            final(self)@.wf(),
            final(self)@.storage.reward_per_share >= old(self)@.storage.reward_per_share,
            match r {
                Ok(_) => old(self)@.close_guild(caller, current_block_nonce) == Ok::<
                    GuildView,
                    GuildError,
                >(final(self)@),
                Err(e) => old(self)@.close_guild(caller, current_block_nonce) == Err::<
                    GuildView,
                    GuildError,
                >(e) && final(self)@ == old(self)@,
            },
    {
        if self.storage.guild_closing {
            return Err(GuildError::GuildClosing);
        }
        if !(caller == self.guild_master) && !self.is_admin(caller) {
            return Err(GuildError::PermissionDenied);
        }
        FarmStakingWrapper::generate_aggregated_rewards(&mut self.storage, current_block_nonce);
        self.storage.guild_closing = true;
        proof {
            lemma_prices_rise(
                self@.farm_token.positions,
                old(self)@.storage.reward_per_share,
                self@.storage.reward_per_share,
            );
        }
        Ok(())
    }
}

} // verus!
