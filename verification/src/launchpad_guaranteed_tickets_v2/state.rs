//! The state of a launchpad with guaranteed tickets.

use std::collections::HashMap;
use std::collections::HashSet;
use vstd::prelude::*;

use crate::launchpad_common::config::LaunchpadState;
use crate::launchpad_common::storage::Address;
use crate::launchpad_guaranteed_tickets_v2::guaranteed_tickets_init::UserTicketsStatus;
use crate::launchpad_guaranteed_tickets_v2::token_release::UnlockSchedule;

verus! {

/// The shared launchpad state, and what the guaranteed tickets and the token release keep.
pub struct GuaranteedTicketsLaunchpad {
    pub base: LaunchpadState,
    /// Users holding a guaranteed ticket, in the order of an unordered set mapper:
    /// no user twice, and removing one moves the last into its place.
    pub users_with_guaranteed_ticket: Vec<Address>,
    pub total_guaranteed_tickets: usize,
    pub user_ticket_status: HashMap<Address, UserTicketsStatus>,
    pub blacklist_user_ticket_status: HashMap<Address, UserTicketsStatus>,
    pub user_total_claimable_balance: HashMap<Address, u128>,
    pub user_claimed_balance: HashMap<Address, u128>,
    pub unlock_schedule: Option<UnlockSchedule>,
    pub claim_list: HashSet<Address>,
}

} // verus!
