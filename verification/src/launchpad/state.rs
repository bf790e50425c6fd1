//! Everything the first launchpad keeps in storage.

use std::collections::HashMap;
use std::collections::HashSet;
use vstd::prelude::*;

use crate::launchpad::config::EpochsConfig;
use crate::launchpad::launch_stage::Flags;
use crate::launchpad_common::config::TokenAmountPair;
use crate::launchpad_common::ongoing_operation::OngoingOperationType;
use crate::launchpad_common::storage::Address;
use crate::launchpad_common::tickets::{range_wf, TicketBatch, TicketRange};

verus! {

/// The storage of the first launchpad.  An absent key of a map reads as the default
/// value of its type, as the contract's storage does; a user is blacklisted, or has
/// claimed, when the user is in the set.
pub struct EpochLaunchpad {
    pub launchpad_token_id: Vec<u8>,
    pub launchpad_tokens_per_winning_ticket: u128,
    pub ticket_price: TokenAmountPair,
    pub nr_winning_tickets: usize,
    pub configuration: EpochsConfig,
    pub flags: Flags,
    pub launchpad_tokens_deposited: bool,
    pub claimable_ticket_payment: u128,
    pub support_address: Address,
    pub last_ticket_id: usize,
    pub ticket_status: HashMap<usize, bool>,
    pub ticket_batch: HashMap<usize, TicketBatch>,
    pub ticket_range_for_address: HashMap<Address, TicketRange>,
    pub nr_confirmed_tickets: HashMap<Address, usize>,
    pub ticket_pos_to_id: HashMap<usize, usize>,
    pub claimed_tokens: HashSet<Address>,
    pub blacklisted: HashSet<Address>,
    pub current_ongoing_operation: OngoingOperationType,
}

impl EpochLaunchpad {
    /// The ticket tables hold well-formed ranges and room for one more id.
    pub open spec fn wf(&self) -> bool {
        &&& self.last_ticket_id < usize::MAX
        &&& forall|a: Address| #[trigger] self.ticket_range_for_address@.contains_key(a)
            ==> range_wf(self.ticket_range_for_address@[a])
    }
}

} // verus!
