//! The stages through which a launchpad passes, decided by the chain's round and flags.

use vstd::prelude::*;

use crate::launchpad_common::config::{LaunchpadState, TimelineConfig};
use crate::launchpad_common::errors::LaunchpadError;

verus! {

/// The four stages of a launchpad, in the order in which they come.
#[derive(Debug, Clone, Copy, PartialEq, Eq, Structural)]
pub enum LaunchStage {
    AddTickets,
    Confirm,
    WinnerSelection,
    Claim,
}

/// Where the winner selection stands.
#[derive(Debug, Clone, Copy, PartialEq, Eq, Structural, Default)]
pub struct Flags {
    pub has_winner_selection_process_started: bool,
    pub were_tickets_filtered: bool,
    pub were_winners_selected: bool,
    pub was_additional_step_completed: bool,
}

/// The position of a stage in the order of stages.
pub open spec fn stage_index(s: LaunchStage) -> nat {
    match s {
        LaunchStage::AddTickets => 0,
        LaunchStage::Confirm => 1,
        LaunchStage::WinnerSelection => 2,
        LaunchStage::Claim => 3,
    }
}

/// Compares two stages by their order.
pub fn stage_lt(a: LaunchStage, b: LaunchStage) -> (r: bool)
    ensures
        r == (stage_index(a) < stage_index(b)),
{
    let ia: u8 = match a {
        LaunchStage::AddTickets => 0,
        LaunchStage::Confirm => 1,
        LaunchStage::WinnerSelection => 2,
        LaunchStage::Claim => 3,
    };
    let ib: u8 = match b {
        LaunchStage::AddTickets => 0,
        LaunchStage::Confirm => 1,
        LaunchStage::WinnerSelection => 2,
        LaunchStage::Claim => 3,
    };
    ia < ib
}

/// The stage of a launchpad at a round: before the confirmation round tickets are
/// added, before the selection round tickets are confirmed, winners are selected until
/// both selection steps are done and the claim round is reached, then users claim.
pub open spec fn spec_launch_stage(config: TimelineConfig, flags: Flags, round: u64) -> LaunchStage {
    if round < config.confirmation_period_start_round {
        LaunchStage::AddTickets
    } else if round < config.winner_selection_start_round {
        LaunchStage::Confirm
    } else if !(flags.were_winners_selected && flags.was_additional_step_completed) {
        LaunchStage::WinnerSelection
    } else if round < config.claim_start_round {
        LaunchStage::WinnerSelection
    } else {
        LaunchStage::Claim
    }
}

/// The stage never goes back as rounds pass, with configuration and flags unchanged.
pub proof fn lemma_launch_stage_monotonic(config: TimelineConfig, flags: Flags, r1: u64, r2: u64)
    requires
        r1 <= r2,
    ensures
        stage_index(spec_launch_stage(config, flags, r1)) <= stage_index(
            spec_launch_stage(config, flags, r2),
        ),
{
}

/// Completing the selection steps never moves a launchpad back to an earlier stage.
pub proof fn lemma_launch_stage_flags_monotonic(config: TimelineConfig, f1: Flags, f2: Flags, round: u64)
    requires
        f1.were_winners_selected ==> f2.were_winners_selected,
        f1.was_additional_step_completed ==> f2.was_additional_step_completed,
    ensures
        stage_index(spec_launch_stage(config, f1, round)) <= stage_index(
            spec_launch_stage(config, f2, round),
        ),
{
}

/// The stage and the checks that endpoints make of it.
pub trait LaunchStageModule {
    fn get_launch_stage(&self, current_round: u64) -> LaunchStage;

    fn require_add_tickets_period(&self, current_round: u64) -> Result<(), LaunchpadError>;

    fn require_confirmation_period(&self, current_round: u64) -> Result<(), LaunchpadError>;

    fn require_before_winner_selection(&self, current_round: u64) -> Result<(), LaunchpadError>;

    fn require_winner_selection_period(&self, current_round: u64) -> Result<(), LaunchpadError>;

    fn require_claim_period(&self, current_round: u64) -> Result<(), LaunchpadError>;

    fn get_launch_stage_flags(&self) -> Flags;
}

impl LaunchpadState {
    /// The stage of this launchpad at a round.
    pub open spec fn stage_at(&self, round: u64) -> LaunchStage {
        spec_launch_stage(self.configuration, self.flags, round)
    }
}

impl LaunchStageModule for LaunchpadState {
    fn get_launch_stage(&self, current_round: u64) -> (r: LaunchStage)
        ensures
            r == self.stage_at(current_round),
    {
        let config = self.configuration;
        let flags = self.flags;
        if current_round < config.confirmation_period_start_round {
            return LaunchStage::AddTickets;
        }
        if current_round < config.winner_selection_start_round {
            return LaunchStage::Confirm;
        }
        let both_selection_steps_completed = flags.were_winners_selected
            && flags.was_additional_step_completed;
        if current_round >= config.winner_selection_start_round && !both_selection_steps_completed {
            return LaunchStage::WinnerSelection;
        }
        if current_round >= config.winner_selection_start_round && current_round
            < config.claim_start_round {
            return LaunchStage::WinnerSelection;
        }
        LaunchStage::Claim
    }

    fn require_add_tickets_period(&self, current_round: u64) -> (r: Result<(), LaunchpadError>)
        ensures
            r is Ok <==> self.stage_at(current_round) == LaunchStage::AddTickets,
            r is Err ==> r == Err::<(), _>(LaunchpadError::AddTicketsPeriodPassed),
    {
        if self.get_launch_stage(current_round) == LaunchStage::AddTickets {
            Ok(())
        } else {
            Err(LaunchpadError::AddTicketsPeriodPassed)
        }
    }

    fn require_confirmation_period(&self, current_round: u64) -> (r: Result<(), LaunchpadError>)
        ensures
            r is Ok <==> self.stage_at(current_round) == LaunchStage::Confirm,
            r is Err ==> r == Err::<(), _>(LaunchpadError::NotInConfirmationPeriod),
    {
        if self.get_launch_stage(current_round) == LaunchStage::Confirm {
            Ok(())
        } else {
            Err(LaunchpadError::NotInConfirmationPeriod)
        }
    }

    fn require_before_winner_selection(&self, current_round: u64) -> (r: Result<(), LaunchpadError>)
        ensures
            r is Ok <==> stage_index(self.stage_at(current_round)) < stage_index(
                LaunchStage::WinnerSelection,
            ),
            r is Err ==> r == Err::<(), _>(LaunchpadError::BlacklistOnlyBeforeWinnerSelection),
    {
        if stage_lt(self.get_launch_stage(current_round), LaunchStage::WinnerSelection) {
            Ok(())
        } else {
            Err(LaunchpadError::BlacklistOnlyBeforeWinnerSelection)
        }
    }

    fn require_winner_selection_period(&self, current_round: u64) -> (r: Result<(), LaunchpadError>)
        ensures
            r is Ok <==> self.stage_at(current_round) == LaunchStage::WinnerSelection,
            r is Err ==> r == Err::<(), _>(LaunchpadError::NotInWinnerSelectionPeriod),
    {
        if self.get_launch_stage(current_round) == LaunchStage::WinnerSelection {
            Ok(())
        } else {
            Err(LaunchpadError::NotInWinnerSelectionPeriod)
        }
    }

    fn require_claim_period(&self, current_round: u64) -> (r: Result<(), LaunchpadError>)
        ensures
            r is Ok <==> self.stage_at(current_round) == LaunchStage::Claim,
            r is Err ==> r == Err::<(), _>(LaunchpadError::NotInClaimPeriod),
    {
        if self.get_launch_stage(current_round) == LaunchStage::Claim {
            Ok(())
        } else {
            Err(LaunchpadError::NotInClaimPeriod)
        }
    }

    fn get_launch_stage_flags(&self) -> (r: Flags)
        ensures
            r == self.flags,
    {
        self.flags
    }
}

} // verus!
