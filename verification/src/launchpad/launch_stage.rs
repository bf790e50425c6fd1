//! The stages of the first launchpad, decided by the chain's epoch and the selection
//! flags.

use vstd::prelude::*;

use crate::launchpad::config::EpochsConfig;
use crate::launchpad::state::EpochLaunchpad;
use crate::launchpad_common::errors::LaunchpadError;
use crate::launchpad_common::launch_stage::{stage_index, stage_lt, LaunchStage};

verus! {

/// Where the winner selection stands.
#[derive(Debug, Clone, Copy, PartialEq, Eq, Structural)]
pub struct Flags {
    pub were_tickets_filtered: bool,
    pub were_winners_selected: bool,
    pub has_winner_selection_process_started: bool,
}

/// The stage at an epoch: tickets are added before the confirmation epoch and confirmed
/// before the selection epoch.  Then winners are selected: where the claim starts with
/// the selection, until the winners are known; where the claim epoch is later, until the
/// claim epoch.  After that users claim.
pub open spec fn spec_epoch_stage(config: EpochsConfig, flags: Flags, epoch: u64) -> LaunchStage {
    if epoch < config.confirmation_period_start_epoch {
        LaunchStage::AddTickets
    } else if epoch < config.winner_selection_start_epoch {
        LaunchStage::Confirm
    } else if config.claim_start_epoch <= config.winner_selection_start_epoch {
        if flags.were_winners_selected {
            LaunchStage::Claim
        } else {
            LaunchStage::WinnerSelection
        }
    } else if epoch < config.claim_start_epoch {
        LaunchStage::WinnerSelection
    } else {
        LaunchStage::Claim
    }
}

/// The stage never goes back as epochs pass, with configuration and flags unchanged.
pub proof fn lemma_epoch_stage_monotonic(config: EpochsConfig, flags: Flags, e1: u64, e2: u64)
    requires
        e1 <= e2,
    ensures
        stage_index(spec_epoch_stage(config, flags, e1)) <= stage_index(spec_epoch_stage(config, flags, e2)),
{
}

impl EpochLaunchpad {
    /// The stage of this launchpad at an epoch.
    pub open spec fn stage_at(&self, epoch: u64) -> LaunchStage {
        spec_epoch_stage(self.configuration, self.flags, epoch)
    }
}

/// The stage and the checks that endpoints make of it.
pub trait LaunchStageModule {
    fn get_launch_stage(&self, current_epoch: u64) -> LaunchStage;

    fn require_add_tickets_period(&self, current_epoch: u64) -> Result<(), LaunchpadError>;

    fn require_confirmation_period(&self, current_epoch: u64) -> Result<(), LaunchpadError>;

    fn require_before_winner_selection(&self, current_epoch: u64) -> Result<(), LaunchpadError>;

    fn require_winner_selection_period(&self, current_epoch: u64) -> Result<(), LaunchpadError>;

    fn require_claim_period(&self, current_epoch: u64) -> Result<(), LaunchpadError>;

    fn has_winner_selection_process_started(&self) -> bool;

    fn were_tickets_filtered(&self) -> bool;

    fn were_winners_selected(&self) -> bool;
}

impl LaunchStageModule for EpochLaunchpad {
    fn get_launch_stage(&self, current_epoch: u64) -> (r: LaunchStage)
        ensures
            r == self.stage_at(current_epoch),
    {
        let config = self.configuration;
        let flags = self.flags;
        if current_epoch < config.confirmation_period_start_epoch {
            return LaunchStage::AddTickets;
        }
        if current_epoch < config.winner_selection_start_epoch {
            return LaunchStage::Confirm;
        }
        if config.claim_start_epoch <= config.winner_selection_start_epoch {
            if flags.were_winners_selected {
                return LaunchStage::Claim;
            }
            return LaunchStage::WinnerSelection;
        }
        if current_epoch < config.claim_start_epoch {
            return LaunchStage::WinnerSelection;
        }
        LaunchStage::Claim
    }

    fn require_add_tickets_period(&self, current_epoch: u64) -> (r: Result<(), LaunchpadError>)
        ensures
            r is Ok <==> self.stage_at(current_epoch) == LaunchStage::AddTickets,
            r is Err ==> r == Err::<(), _>(LaunchpadError::AddTicketsPeriodPassed),
    {
        if self.get_launch_stage(current_epoch) == LaunchStage::AddTickets {
            Ok(())
        } else {
            Err(LaunchpadError::AddTicketsPeriodPassed)
        }
    }

    fn require_confirmation_period(&self, current_epoch: u64) -> (r: Result<(), LaunchpadError>)
        ensures
            r is Ok <==> self.stage_at(current_epoch) == LaunchStage::Confirm,
            r is Err ==> r == Err::<(), _>(LaunchpadError::NotInConfirmationPeriod),
    {
        if self.get_launch_stage(current_epoch) == LaunchStage::Confirm {
            Ok(())
        } else {
            Err(LaunchpadError::NotInConfirmationPeriod)
        }
    }

    fn require_before_winner_selection(&self, current_epoch: u64) -> (r: Result<(), LaunchpadError>)
        ensures
            r is Ok <==> stage_index(self.stage_at(current_epoch)) < stage_index(LaunchStage::WinnerSelection),
            r is Err ==> r == Err::<(), _>(LaunchpadError::BlacklistOnlyBeforeWinnerSelection),
    {
        if stage_lt(self.get_launch_stage(current_epoch), LaunchStage::WinnerSelection) {
            Ok(())
        } else {
            Err(LaunchpadError::BlacklistOnlyBeforeWinnerSelection)
        }
    }

    fn require_winner_selection_period(&self, current_epoch: u64) -> (r: Result<(), LaunchpadError>)
        ensures
            r is Ok <==> self.stage_at(current_epoch) == LaunchStage::WinnerSelection,
            r is Err ==> r == Err::<(), _>(LaunchpadError::NotInWinnerSelectionPeriod),
    {
        if self.get_launch_stage(current_epoch) == LaunchStage::WinnerSelection {
            Ok(())
        } else {
            Err(LaunchpadError::NotInWinnerSelectionPeriod)
        }
    }

    fn require_claim_period(&self, current_epoch: u64) -> (r: Result<(), LaunchpadError>)
        ensures
            r is Ok <==> self.stage_at(current_epoch) == LaunchStage::Claim,
            r is Err ==> r == Err::<(), _>(LaunchpadError::NotInClaimPeriod),
    {
        if self.get_launch_stage(current_epoch) == LaunchStage::Claim {
            Ok(())
        } else {
            Err(LaunchpadError::NotInClaimPeriod)
        }
    }

    fn has_winner_selection_process_started(&self) -> (r: bool)
        ensures
            r == self.flags.has_winner_selection_process_started,
    {
        self.flags.has_winner_selection_process_started
    }

    fn were_tickets_filtered(&self) -> (r: bool)
        ensures
            r == self.flags.were_tickets_filtered,
    {
        self.flags.were_tickets_filtered
    }

    fn were_winners_selected(&self) -> (r: bool)
        ensures
            r == self.flags.were_winners_selected,
    {
        self.flags.were_winners_selected
    }
}

} // verus!
