//! Long operations that run in several calls: how far they got is saved between calls,
//! and one call runs only while it has gas left to save its progress.

use vstd::prelude::*;

use crate::launchpad_common::config::LaunchpadState;
use crate::launchpad_common::errors::LaunchpadError;
use crate::launchpad_common::random::Random;
use crate::launchpad_common::tickets::FIRST_TICKET_ID;

verus! {

/// The gas that must be left to save the progress of an operation.
pub const MIN_GAS_TO_SAVE_PROGRESS: u64 = 10_000_000;

/// The operation in progress, with how far it got.
#[derive(Debug, Clone)]
pub enum OngoingOperationType {
    Idle,
    FilterTickets { first_ticket_id_in_batch: usize, nr_removed: usize },
    SelectWinners { rng: Random, ticket_position: usize },
    AdditionalSelection { encoded_data: Vec<u8> },
}

/// How a call of a long operation ended.
#[derive(Debug, Clone, Copy, PartialEq, Eq, Structural)]
pub enum OperationCompletionStatus {
    Completed,
    InterruptedBeforeOutOfGas,
}

/// The gas a call has left, and what one step of an operation costs.
#[derive(Debug, Clone, Copy, PartialEq, Eq, Structural)]
pub struct GasBudget {
    pub gas_left: u64,
    pub gas_per_iteration: u64,
}

/// One more step fits: after it there is still gas to save the progress.
pub open spec fn spec_can_continue(gas_left: u64, operation_cost: u64) -> bool {
    gas_left > MIN_GAS_TO_SAVE_PROGRESS + operation_cost
}

/// The gas left after one step.
pub open spec fn spec_gas_after(gas_left: u64, operation_cost: u64) -> u64 {
    if gas_left >= operation_cost {
        (gas_left - operation_cost) as u64
    } else {
        0
    }
}

/// The gas left after `n` steps.
pub open spec fn spec_gas_iter(gas_left: u64, cost: u64, n: nat) -> u64
    decreases n,
{
    if n == 0 {
        gas_left
    } else {
        spec_gas_after(spec_gas_iter(gas_left, cost, (n - 1) as nat), cost)
    }
}

/// Saving and loading the progress of long operations.
pub trait OngoingOperationModule {
    fn can_continue_operation(&self, gas_left: u64, operation_cost: u64) -> bool;

    fn save_progress(&mut self, op: OngoingOperationType);

    fn clear_operation(&mut self);

    fn load_filter_tickets_operation(&self) -> Result<(usize, usize), LaunchpadError>;

    fn load_select_winners_operation(&self, fresh_seed: [u8; 32]) -> Result<(Random, usize), LaunchpadError>;

    fn load_additional_selection_operation(&self) -> Result<Option<Vec<u8>>, LaunchpadError>;
}

/// The gas left after a step.
pub fn gas_after(gas_left: u64, operation_cost: u64) -> (r: u64)
    ensures
        r == spec_gas_after(gas_left, operation_cost),
{
    if gas_left >= operation_cost {
        gas_left - operation_cost
    } else {
        0
    }
}

impl OngoingOperationModule for LaunchpadState {
    fn can_continue_operation(&self, gas_left: u64, operation_cost: u64) -> (r: bool)
        ensures
            r == spec_can_continue(gas_left, operation_cost),
    {
        gas_left > MIN_GAS_TO_SAVE_PROGRESS && gas_left - MIN_GAS_TO_SAVE_PROGRESS > operation_cost
    }

    fn save_progress(&mut self, op: OngoingOperationType)
        ensures
            *final(self) == (LaunchpadState { current_ongoing_operation: op, ..*old(self) }),
    {
        self.current_ongoing_operation = op;
    }

    fn clear_operation(&mut self)
        ensures
            *final(self) == (LaunchpadState { current_ongoing_operation: OngoingOperationType::Idle, ..*old(self) }),
    {
        self.current_ongoing_operation = OngoingOperationType::Idle;
    }

    fn load_filter_tickets_operation(&self) -> (r: Result<(usize, usize), LaunchpadError>)
        ensures
            self.current_ongoing_operation is Idle ==> r == Ok::<_, LaunchpadError>((FIRST_TICKET_ID, 0usize)),
            self.current_ongoing_operation matches OngoingOperationType::FilterTickets { first_ticket_id_in_batch, nr_removed }
                ==> r == Ok::<_, LaunchpadError>((first_ticket_id_in_batch, nr_removed)),
            (self.current_ongoing_operation is SelectWinners || self.current_ongoing_operation is AdditionalSelection)
                ==> r == Err::<(usize, usize), _>(LaunchpadError::AnotherOperationInProgress),
    {
        match &self.current_ongoing_operation {
            OngoingOperationType::Idle => Ok((FIRST_TICKET_ID, 0)),
            OngoingOperationType::FilterTickets { first_ticket_id_in_batch, nr_removed } => Ok((*first_ticket_id_in_batch, *nr_removed)),
            _ => Err(LaunchpadError::AnotherOperationInProgress),
        }
    }

    fn load_select_winners_operation(&self, fresh_seed: [u8; 32]) -> (r: Result<(Random, usize), LaunchpadError>)
        ensures
            self.current_ongoing_operation is Idle ==> r == Ok::<_, LaunchpadError>((Random { seed: fresh_seed, index: 0 }, FIRST_TICKET_ID)),
            self.current_ongoing_operation matches OngoingOperationType::SelectWinners { rng, ticket_position }
                ==> r == Ok::<_, LaunchpadError>((rng, ticket_position)),
            (self.current_ongoing_operation is FilterTickets || self.current_ongoing_operation is AdditionalSelection)
                ==> r == Err::<(Random, usize), _>(LaunchpadError::AnotherOperationInProgress),
    {
        match &self.current_ongoing_operation {
            OngoingOperationType::Idle => Ok((Random::from_hash(fresh_seed, 0), FIRST_TICKET_ID)),
            OngoingOperationType::SelectWinners { rng, ticket_position } => Ok((*rng, *ticket_position)),
            _ => Err(LaunchpadError::AnotherOperationInProgress),
        }
    }

    fn load_additional_selection_operation(&self) -> (r: Result<Option<Vec<u8>>, LaunchpadError>)
        ensures
            self.current_ongoing_operation is Idle ==> r == Ok::<Option<Vec<u8>>, LaunchpadError>(None),
            self.current_ongoing_operation matches OngoingOperationType::AdditionalSelection { encoded_data }
                ==> r matches Ok(Some(d)) && d@ == encoded_data@,
            (self.current_ongoing_operation is FilterTickets || self.current_ongoing_operation is SelectWinners)
                ==> r == Err::<Option<Vec<u8>>, _>(LaunchpadError::AnotherOperationInProgress),
    {
        match &self.current_ongoing_operation {
            OngoingOperationType::Idle => Ok(None),
            OngoingOperationType::AdditionalSelection { encoded_data } => Ok(Some(encoded_data.clone())),
            _ => Err(LaunchpadError::AnotherOperationInProgress),
        }
    }
}

} // verus!
