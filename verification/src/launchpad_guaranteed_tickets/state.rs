//! The state of the launchpad with staking and migration guarantees.

use std::collections::HashMap;
use vstd::prelude::*;

use crate::launchpad_common::config::LaunchpadState;
use crate::launchpad_common::storage::Address;
use crate::launchpad_common::tickets::TicketsModule;
use crate::launchpad_guaranteed_tickets::guaranteed_tickets_init::UserTicketsStatus;
use crate::launchpad_guaranteed_tickets::token_release::VestingRelease;

verus! {

/// The shared launchpad state and what the guarantees, the top tier and the release keep.
pub struct GuaranteedTicketsLaunchpadV1 {
    pub base: LaunchpadState,
    /// The staking tickets that earn a guaranteed ticket.
    pub min_confirmed_for_guaranteed_ticket: usize,
    /// Users with a guaranteed ticket, kept as an unordered set.
    pub users_with_guaranteed_ticket: Vec<Address>,
    pub total_guaranteed_tickets: usize,
    pub user_ticket_status: HashMap<Address, UserTicketsStatus>,
    /// The tickets that users of the top tier hold.
    pub max_tier_tickets: usize,
    /// The users of the top tier, kept as an unordered set.
    pub max_tier_users: Vec<Address>,
    pub user_total_claimable_balance: HashMap<Address, u128>,
    pub user_claimed_balance: HashMap<Address, u128>,
    pub unlock_schedule: Option<Vec<VestingRelease>>,
}

impl GuaranteedTicketsLaunchpadV1 {
    /// The ticket tables are well formed and the sets of users hold no user twice.
    pub open spec fn wf(&self) -> bool {
        &&& self.base.tickets_wf()
        &&& self.users_with_guaranteed_ticket@.no_duplicates()
        &&& self.max_tier_users@.no_duplicates()
    }
}

} // verus!
