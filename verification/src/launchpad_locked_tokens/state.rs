//! The state of the launchpad with locked launchpad tokens.

use vstd::prelude::*;

use crate::launchpad_common::config::LaunchpadState;
use crate::launchpad_common::storage::Address;
use crate::launchpad_common::tickets::TicketsModule;
use crate::launchpad_locked_tokens::locked_launchpad_token_send::MAX_PERCENTAGE;

verus! {

/// The shared launchpad state, and how the launchpad tokens are locked.
pub struct LockedTokensLaunchpad {
    pub base: LaunchpadState,
    /// The part of the launchpad tokens that is locked, in hundredths of a percent.
    pub launchpad_tokens_lock_percentage: u32,
    /// The epoch until which the locked part stays locked.
    pub launchpad_tokens_unlock_epoch: u64,
    /// The contract that locks tokens.
    pub simple_lock_sc_address: Address,
}

impl LockedTokensLaunchpad {
    /// The ticket tables are well formed and the lock percentage is at most the whole.
    pub open spec fn wf(&self) -> bool {
        &&& self.base.tickets_wf()
        &&& self.launchpad_tokens_lock_percentage <= MAX_PERCENTAGE
    }
}

} // verus!
