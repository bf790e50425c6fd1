//! The configuration of a launchpad and the whole state that the shared modules keep.

use std::collections::HashMap;
use std::collections::HashSet;
use vstd::prelude::*;

use crate::launchpad_common::launch_stage::Flags;
use crate::launchpad_common::ongoing_operation::OngoingOperationType;
use crate::launchpad_common::storage::Address;
use crate::launchpad_common::tickets::{TicketBatch, TicketRange};
use crate::launchpad_common::user_interactions::ClaimType;

verus! {

/// A token and an amount of it, such as the price of one ticket.
pub struct TokenAmountPair {
    pub token_id: Vec<u8>,
    pub amount: u128,
}

/// The rounds at which the confirmation, winner selection and claim stages start.
#[derive(Debug, Clone, Copy, PartialEq, Eq, Structural)]
pub struct TimelineConfig {
    pub confirmation_period_start_round: u64,
    pub winner_selection_start_round: u64,
    pub claim_start_round: u64,
}

/// The chain's answers that a call may read: who calls, who owns the contract,
/// and where the chain stands.
#[derive(Debug, Clone, Copy, PartialEq, Eq, Structural)]
pub struct CallContext {
    pub caller: Address,
    pub owner: Address,
    pub block_round: u64,
    pub block_nonce: u64,
    pub block_epoch: u64,
}

/// A payment that comes with a call: EGLD (nonce 0) or one ESDT token.
pub struct Payment {
    pub token_id: Vec<u8>,
    pub token_nonce: u64,
    pub amount: u128,
}

/// A transfer that the contract makes.
pub struct Transfer {
    pub to: Address,
    pub token_id: Vec<u8>,
    pub token_nonce: u64,
    pub amount: u128,
}

/// Everything the shared launchpad modules keep in storage.  An absent key of a map
/// reads as the default value of its type, as the contract's storage does.
pub struct LaunchpadState {
    // configuration
    pub launchpad_token_id: Vec<u8>,
    pub launchpad_tokens_per_winning_ticket: u128,
    pub ticket_price: TokenAmountPair,
    pub nr_winning_tickets: usize,
    pub launchpad_tokens_deposited: bool,
    pub total_launchpad_tokens_deposited: u128,
    pub claimable_ticket_payment: u128,
    pub configuration: TimelineConfig,
    // launch stage
    pub flags: Flags,
    // permissions
    pub support_address: Address,
    // tickets
    pub last_ticket_id: usize,
    pub ticket_status: HashMap<usize, bool>,
    pub ticket_batch: HashMap<usize, TicketBatch>,
    pub ticket_range_for_address: HashMap<Address, TicketRange>,
    pub nr_confirmed_tickets: HashMap<Address, usize>,
    pub ticket_pos_to_id: HashMap<usize, usize>,
    // blacklist
    pub blacklist: HashSet<Address>,
    // user interactions
    pub claimed_tokens: HashMap<Address, ClaimType>,
    // ongoing operation
    pub current_ongoing_operation: OngoingOperationType,
    // pause
    pub paused: bool,
}

/// The views over the configuration.
pub trait ConfigModule {
    fn get_configuration(&self) -> TimelineConfig;

    fn get_launchpad_token_id(&self) -> Vec<u8>;

    fn get_launchpad_tokens_per_winning_ticket(&self) -> u128;

    fn get_ticket_price(&self) -> TokenAmountPair;

    fn get_number_of_winning_tickets(&self) -> usize;
}

impl ConfigModule for LaunchpadState {
    fn get_configuration(&self) -> (r: TimelineConfig)
        ensures
            r == self.configuration,
    {
        self.configuration
    }

    fn get_launchpad_token_id(&self) -> (r: Vec<u8>)
        ensures
            r@ == self.launchpad_token_id@,
    {
        self.launchpad_token_id.clone()
    }

    fn get_launchpad_tokens_per_winning_ticket(&self) -> (r: u128)
        ensures
            r == self.launchpad_tokens_per_winning_ticket,
    {
        self.launchpad_tokens_per_winning_ticket
    }

    fn get_ticket_price(&self) -> (r: TokenAmountPair)
        ensures
            r.token_id@ == self.ticket_price.token_id@,
            r.amount == self.ticket_price.amount,
    {
        TokenAmountPair { token_id: self.ticket_price.token_id.clone(), amount: self.ticket_price.amount }
    }

    fn get_number_of_winning_tickets(&self) -> (r: usize)
        ensures
            r == self.nr_winning_tickets,
    {
        self.nr_winning_tickets
    }
}

} // verus!
