//! The long operations of the first launchpad, the filtering and the selection of
//! winners, run over several calls; how far they got is saved between calls.

use vstd::prelude::*;

use crate::launchpad::state::EpochLaunchpad;
use crate::launchpad_common::errors::LaunchpadError;
use crate::launchpad_common::ongoing_operation::{spec_can_continue, MIN_GAS_TO_SAVE_PROGRESS, OngoingOperationType};
use crate::launchpad_common::random::Random;
use crate::launchpad_common::tickets::FIRST_TICKET_ID;

verus! {

/// Saving and loading the progress of the long operations.
pub trait OngoingOperationModule {
    fn can_continue_operation(&self, gas_left: u64, operation_cost: u64) -> bool;

    fn save_progress(&mut self, op: OngoingOperationType);

    fn clear_operation(&mut self);

    fn load_filter_tickets_operation(&self) -> Result<(usize, usize), LaunchpadError>;

    fn load_select_winners_operation(&self, fresh_seed: [u8; 32]) -> Result<(Random, usize), LaunchpadError>;
}

impl OngoingOperationModule for EpochLaunchpad {
    /// One more step fits: after it there is still gas to save the progress.
    fn can_continue_operation(&self, gas_left: u64, operation_cost: u64) -> (r: bool)
        ensures
            r == spec_can_continue(gas_left, operation_cost),
    {
        gas_left > MIN_GAS_TO_SAVE_PROGRESS && gas_left - MIN_GAS_TO_SAVE_PROGRESS > operation_cost
    }

    fn save_progress(&mut self, op: OngoingOperationType)
        ensures
            *final(self) == (EpochLaunchpad { current_ongoing_operation: op, ..*old(self) }),
    {
        self.current_ongoing_operation = op;
    }

    fn clear_operation(&mut self)
        ensures
            *final(self) == (EpochLaunchpad { current_ongoing_operation: OngoingOperationType::Idle, ..*old(self) }),
    {
        self.current_ongoing_operation = OngoingOperationType::Idle;
    }

    /// Where the filtering resumes: from the first ticket with nothing removed, or where
    /// it stopped; refused while another operation is in progress.
    fn load_filter_tickets_operation(&self) -> (r: Result<(usize, usize), LaunchpadError>)
        ensures
            self.current_ongoing_operation is Idle ==> r == Ok::<_, LaunchpadError>((FIRST_TICKET_ID, 0usize)),
            self.current_ongoing_operation matches OngoingOperationType::FilterTickets { first_ticket_id_in_batch, nr_removed }
                ==> r == Ok::<_, LaunchpadError>((first_ticket_id_in_batch, nr_removed)),
            (self.current_ongoing_operation is SelectWinners || self.current_ongoing_operation is AdditionalSelection)
                ==> r == Err::<(usize, usize), _>(LaunchpadError::AnotherOperationInProgress),
    {
        match &self.current_ongoing_operation {
            OngoingOperationType::Idle => Ok((FIRST_TICKET_ID, 0)),
            OngoingOperationType::FilterTickets { first_ticket_id_in_batch, nr_removed } => Ok((*first_ticket_id_in_batch, *nr_removed)),
            _ => Err(LaunchpadError::AnotherOperationInProgress),
        }
    }

    /// Where the selection resumes: a generator from the fresh seed at the first
    /// position, or where it stopped; refused while another operation is in progress.
    fn load_select_winners_operation(&self, fresh_seed: [u8; 32]) -> (r: Result<(Random, usize), LaunchpadError>)
        ensures
            self.current_ongoing_operation is Idle ==> r == Ok::<_, LaunchpadError>((Random { seed: fresh_seed, index: 0 }, FIRST_TICKET_ID)),
            self.current_ongoing_operation matches OngoingOperationType::SelectWinners { rng, ticket_position }
                ==> r == Ok::<_, LaunchpadError>((rng, ticket_position)),
            (self.current_ongoing_operation is FilterTickets || self.current_ongoing_operation is AdditionalSelection)
                ==> r == Err::<(Random, usize), _>(LaunchpadError::AnotherOperationInProgress),
    {
        match &self.current_ongoing_operation {
            OngoingOperationType::Idle => Ok((Random::from_hash(fresh_seed, 0), FIRST_TICKET_ID)),
            OngoingOperationType::SelectWinners { rng, ticket_position } => Ok((*rng, *ticket_position)),
            _ => Err(LaunchpadError::AnotherOperationInProgress),
        }
    }
}

} // verus!
