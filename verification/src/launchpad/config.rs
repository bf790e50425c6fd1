//! The configuration of the first launchpad: the epochs at which its stages start.

use vstd::prelude::*;

use crate::launchpad::state::EpochLaunchpad;
use crate::launchpad_common::config::TokenAmountPair;

verus! {

/// The epochs at which the confirmation, winner selection and claim stages start.
#[derive(Debug, Clone, Copy, PartialEq, Eq, Structural)]
pub struct EpochsConfig {
    pub confirmation_period_start_epoch: u64,
    pub winner_selection_start_epoch: u64,
    pub claim_start_epoch: u64,
}

/// The views over the configuration.
pub trait ConfigModule {
    fn get_configuration(&self) -> EpochsConfig;

    fn get_launchpad_token_id(&self) -> Vec<u8>;

    fn get_launchpad_tokens_per_winning_ticket(&self) -> u128;

    fn get_ticket_price(&self) -> TokenAmountPair;

    fn get_number_of_winning_tickets(&self) -> usize;
}

impl ConfigModule for EpochLaunchpad {
    fn get_configuration(&self) -> (r: EpochsConfig)
        ensures
            r == self.configuration,
    {
        self.configuration
    }

    fn get_launchpad_token_id(&self) -> (r: Vec<u8>)
        ensures
            r@ == self.launchpad_token_id@,
    {
        self.launchpad_token_id.clone()
    }

    fn get_launchpad_tokens_per_winning_ticket(&self) -> (r: u128)
        ensures
            r == self.launchpad_tokens_per_winning_ticket,
    {
        self.launchpad_tokens_per_winning_ticket
    }

    fn get_ticket_price(&self) -> (r: TokenAmountPair)
        ensures
            r.token_id@ == self.ticket_price.token_id@,
            r.amount == self.ticket_price.amount,
    {
        TokenAmountPair { token_id: self.ticket_price.token_id.clone(), amount: self.ticket_price.amount }
    }

    fn get_number_of_winning_tickets(&self) -> (r: usize)
        ensures
            r == self.nr_winning_tickets,
    {
        self.nr_winning_tickets
    }
}

} // verus!
