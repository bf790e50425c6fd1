//! The owner's setup of the first launchpad: the deposit of the launchpad tokens, the
//! ticket price and the epochs at which the stages start.

use vstd::prelude::*;

use crate::launchpad::config::EpochsConfig;
use crate::launchpad::launch_stage::LaunchStageModule;
use crate::launchpad::state::EpochLaunchpad;
use crate::launchpad_common::config::{CallContext, Payment, TokenAmountPair};
use crate::launchpad_common::errors::LaunchpadError;
use crate::launchpad_common::launch_stage::LaunchStage;
use crate::launchpad_common::storage::same_bytes;

verus! {

/// The number of winning tickets as the contract multiplies by it: a 32-bit number.
pub open spec fn spec_ticket_count_u32(n: usize) -> int {
    n as int % 0x1_0000_0000
}

/// The launchpad tokens that the winning tickets need.
pub open spec fn spec_tokens_needed(s: &EpochLaunchpad) -> int {
    s.launchpad_tokens_per_winning_ticket * spec_ticket_count_u32(s.nr_winning_tickets)
}

/// Why the stage epochs cannot stand: the selection does not come after the
/// confirmation, or the claim comes before the selection.
pub open spec fn spec_time_periods_error(confirm: u64, selection: u64, claim: u64) -> Option<LaunchpadError> {
    if !(confirm < selection) {
        Some(LaunchpadError::WinnerSelectionEpochBeforeConfirm)
    } else if !(selection <= claim) {
        Some(LaunchpadError::ClaimBeforeWinnerSelection)
    } else {
        None
    }
}

/// The number of winning tickets as a 32-bit number.
fn ticket_count_u32(n: usize) -> (r: u128)
    ensures
        r == spec_ticket_count_u32(n),
{
    ((n as u64) % 0x1_0000_0000) as u128
}

/// The owner's setup.
pub trait SetupModule {
    fn deposit_launchpad_tokens(&mut self, ctx: &CallContext, payment: &Payment) -> Result<(), LaunchpadError>;

    fn set_ticket_payment_token(&mut self, ctx: &CallContext, ticket_payment_token: Vec<u8>) -> Result<(), LaunchpadError>;

    fn set_ticket_price(&mut self, ctx: &CallContext, ticket_price: u128) -> Result<(), LaunchpadError>;

    fn set_launchpad_tokens_per_winning_ticket(&mut self, ctx: &CallContext, amount: u128) -> Result<(), LaunchpadError>;

    fn set_confirmation_period_start_epoch(&mut self, ctx: &CallContext, start_epoch: u64) -> Result<(), LaunchpadError>;

    fn set_winner_selection_start_epoch(&mut self, ctx: &CallContext, start_epoch: u64) -> Result<(), LaunchpadError>;

    fn set_claim_start_epoch(&mut self, ctx: &CallContext, claim_start_epoch: u64) -> Result<(), LaunchpadError>;

    fn get_exact_launchpad_tokens_needed(&self) -> Result<u128, LaunchpadError>;

    fn try_set_ticket_price(&mut self, ticket_price: u128) -> Result<(), LaunchpadError>;

    fn try_set_launchpad_tokens_per_winning_ticket(&mut self, amount: u128) -> Result<(), LaunchpadError>;

    fn try_set_nr_winning_tickets(&mut self, nr_winning_tickets: usize) -> Result<(), LaunchpadError>;

    fn try_set_confirmation_period_start_epoch(&mut self, current_epoch: u64, start_epoch: u64) -> Result<(), LaunchpadError>;

    fn try_set_winner_selection_start_epoch(&mut self, current_epoch: u64, start_epoch: u64) -> Result<(), LaunchpadError>;

    fn try_set_claim_start_epoch(&mut self, current_epoch: u64, claim_start_epoch: u64) -> Result<(), LaunchpadError>;

    fn require_valid_config_epoch_change(&self, current_epoch: u64, old_start_epoch: u64) -> Result<(), LaunchpadError>;

    fn require_valid_time_periods(
        &self,
        opt_confirm_start_epoch: Option<u64>,
        opt_winner_selection_start_epoch: Option<u64>,
        opt_claim_start: Option<u64>,
    ) -> Result<(), LaunchpadError>;

    fn were_launchpad_tokens_deposited(&self) -> bool;
}

impl SetupModule for EpochLaunchpad {
    /// The owner deposits exactly the launchpad tokens that the winning tickets need,
    /// once.
    fn deposit_launchpad_tokens(&mut self, ctx: &CallContext, payment: &Payment) -> (r: Result<(), LaunchpadError>)
        ensures
            r is Ok <==> {
                &&& ctx.caller == ctx.owner
                &&& !old(self).launchpad_tokens_deposited
                &&& payment.token_id@ == old(self).launchpad_token_id@
                &&& spec_tokens_needed(old(self)) <= u128::MAX
                &&& payment.amount == spec_tokens_needed(old(self))
            },
            ctx.caller != ctx.owner ==> r == Err::<(), _>(LaunchpadError::OnlyOwner),
            ctx.caller == ctx.owner && old(self).launchpad_tokens_deposited ==> r == Err::<(), _>(LaunchpadError::TokensAlreadyDeposited),
            ctx.caller == ctx.owner && !old(self).launchpad_tokens_deposited && payment.token_id@ != old(self).launchpad_token_id@
                ==> r == Err::<(), _>(LaunchpadError::WrongToken),
            ctx.caller == ctx.owner && !old(self).launchpad_tokens_deposited && payment.token_id@ == old(self).launchpad_token_id@
                && payment.amount != spec_tokens_needed(old(self)) ==> r == Err::<(), _>(LaunchpadError::WrongAmount),
            r is Ok ==> *final(self) == (EpochLaunchpad { launchpad_tokens_deposited: true, ..*old(self) }),
            r is Err ==> *final(self) == *old(self),
    {
        if ctx.caller != ctx.owner {
            return Err(LaunchpadError::OnlyOwner);
        }
        if self.launchpad_tokens_deposited {
            return Err(LaunchpadError::TokensAlreadyDeposited);
        }
        if !same_bytes(&payment.token_id, &self.launchpad_token_id) {
            return Err(LaunchpadError::WrongToken);
        }
        // an amount that leaves the integers is no amount that can be sent
        let amount_needed = match self.get_exact_launchpad_tokens_needed() {
            Ok(a) => a,
            Err(_) => return Err(LaunchpadError::WrongAmount),
        };
        if payment.amount != amount_needed {
            return Err(LaunchpadError::WrongAmount);
        }
        self.launchpad_tokens_deposited = true;
        Ok(())
    }

    /// While tickets are added, the owner sets the token in which tickets are paid.
    fn set_ticket_payment_token(&mut self, ctx: &CallContext, ticket_payment_token: Vec<u8>) -> (r: Result<(), LaunchpadError>)
        ensures
            r is Ok <==> ctx.caller == ctx.owner && old(self).stage_at(ctx.block_epoch) == LaunchStage::AddTickets,
            ctx.caller != ctx.owner ==> r == Err::<(), _>(LaunchpadError::OnlyOwner),
            ctx.caller == ctx.owner && r is Err ==> r == Err::<(), _>(LaunchpadError::AddTicketsPeriodPassed),
            r is Ok ==> final(self).ticket_price.token_id@ == ticket_payment_token@ && *final(self) == (EpochLaunchpad {
                ticket_price: TokenAmountPair { token_id: final(self).ticket_price.token_id, amount: old(self).ticket_price.amount },
                ..*old(self)
            }),
            r is Err ==> *final(self) == *old(self),
    {
        if ctx.caller != ctx.owner {
            return Err(LaunchpadError::OnlyOwner);
        }
        self.require_add_tickets_period(ctx.block_epoch)?;
        self.ticket_price.token_id = ticket_payment_token;
        Ok(())
    }

    /// While tickets are added, the owner sets a price above zero.
    fn set_ticket_price(&mut self, ctx: &CallContext, ticket_price: u128) -> (r: Result<(), LaunchpadError>)
        ensures
            r is Ok <==> ctx.caller == ctx.owner && old(self).stage_at(ctx.block_epoch) == LaunchStage::AddTickets && ticket_price > 0,
            ctx.caller != ctx.owner ==> r == Err::<(), _>(LaunchpadError::OnlyOwner),
            ctx.caller == ctx.owner && old(self).stage_at(ctx.block_epoch) != LaunchStage::AddTickets
                ==> r == Err::<(), _>(LaunchpadError::AddTicketsPeriodPassed),
            ctx.caller == ctx.owner && old(self).stage_at(ctx.block_epoch) == LaunchStage::AddTickets && ticket_price == 0
                ==> r == Err::<(), _>(LaunchpadError::TicketPriceZero),
            r is Ok ==> *final(self) == (EpochLaunchpad {
                ticket_price: TokenAmountPair { token_id: final(self).ticket_price.token_id, amount: ticket_price },
                ..*old(self)
            }) && final(self).ticket_price.token_id@ == old(self).ticket_price.token_id@,
            r is Err ==> *final(self) == *old(self),
    {
        if ctx.caller != ctx.owner {
            return Err(LaunchpadError::OnlyOwner);
        }
        self.require_add_tickets_period(ctx.block_epoch)?;
        self.try_set_ticket_price(ticket_price)
    }

    /// While tickets are added, the owner sets the launchpad tokens per winning ticket,
    /// above zero.
    fn set_launchpad_tokens_per_winning_ticket(&mut self, ctx: &CallContext, amount: u128) -> (r: Result<(), LaunchpadError>)
        ensures
            r is Ok <==> ctx.caller == ctx.owner && old(self).stage_at(ctx.block_epoch) == LaunchStage::AddTickets && amount > 0,
            ctx.caller != ctx.owner ==> r == Err::<(), _>(LaunchpadError::OnlyOwner),
            ctx.caller == ctx.owner && old(self).stage_at(ctx.block_epoch) != LaunchStage::AddTickets
                ==> r == Err::<(), _>(LaunchpadError::AddTicketsPeriodPassed),
            ctx.caller == ctx.owner && old(self).stage_at(ctx.block_epoch) == LaunchStage::AddTickets && amount == 0
                ==> r == Err::<(), _>(LaunchpadError::LaunchpadTokensPerTicketZero),
            r is Ok ==> *final(self) == (EpochLaunchpad { launchpad_tokens_per_winning_ticket: amount, ..*old(self) }),
            r is Err ==> *final(self) == *old(self),
    {
        if ctx.caller != ctx.owner {
            return Err(LaunchpadError::OnlyOwner);
        }
        self.require_add_tickets_period(ctx.block_epoch)?;
        self.try_set_launchpad_tokens_per_winning_ticket(amount)
    }

    /// The owner moves the start of the confirmation to a later epoch than the current.
    fn set_confirmation_period_start_epoch(&mut self, ctx: &CallContext, start_epoch: u64) -> (r: Result<(), LaunchpadError>)
        ensures
            r is Ok <==> ctx.caller == ctx.owner && start_epoch > ctx.block_epoch,
            ctx.caller != ctx.owner ==> r == Err::<(), _>(LaunchpadError::OnlyOwner),
            ctx.caller == ctx.owner && start_epoch <= ctx.block_epoch ==> r == Err::<(), _>(LaunchpadError::ConfirmationStartEpochInPast),
            r is Ok ==> *final(self) == (EpochLaunchpad {
                configuration: EpochsConfig { confirmation_period_start_epoch: start_epoch, ..old(self).configuration },
                ..*old(self)
            }),
            r is Err ==> *final(self) == *old(self),
    {
        if ctx.caller != ctx.owner {
            return Err(LaunchpadError::OnlyOwner);
        }
        self.try_set_confirmation_period_start_epoch(ctx.block_epoch, start_epoch)
    }

    /// The owner moves the start of the winner selection to a later epoch than the
    /// current.
    fn set_winner_selection_start_epoch(&mut self, ctx: &CallContext, start_epoch: u64) -> (r: Result<(), LaunchpadError>)
        ensures
            r is Ok <==> ctx.caller == ctx.owner && start_epoch > ctx.block_epoch,
            ctx.caller != ctx.owner ==> r == Err::<(), _>(LaunchpadError::OnlyOwner),
            ctx.caller == ctx.owner && start_epoch <= ctx.block_epoch ==> r == Err::<(), _>(LaunchpadError::StartEpochInPast),
            r is Ok ==> *final(self) == (EpochLaunchpad {
                configuration: EpochsConfig { winner_selection_start_epoch: start_epoch, ..old(self).configuration },
                ..*old(self)
            }),
            r is Err ==> *final(self) == *old(self),
    {
        if ctx.caller != ctx.owner {
            return Err(LaunchpadError::OnlyOwner);
        }
        self.try_set_winner_selection_start_epoch(ctx.block_epoch, start_epoch)
    }

    /// The owner moves the start of the claim to a later epoch than the current.
    fn set_claim_start_epoch(&mut self, ctx: &CallContext, claim_start_epoch: u64) -> (r: Result<(), LaunchpadError>)
        ensures
            r is Ok <==> ctx.caller == ctx.owner && claim_start_epoch > ctx.block_epoch,
            ctx.caller != ctx.owner ==> r == Err::<(), _>(LaunchpadError::OnlyOwner),
            ctx.caller == ctx.owner && claim_start_epoch <= ctx.block_epoch ==> r == Err::<(), _>(LaunchpadError::ClaimStartEpochInPast),
            r is Ok ==> *final(self) == (EpochLaunchpad {
                configuration: EpochsConfig { claim_start_epoch, ..old(self).configuration },
                ..*old(self)
            }),
            r is Err ==> *final(self) == *old(self),
    {
        if ctx.caller != ctx.owner {
            return Err(LaunchpadError::OnlyOwner);
        }
        self.try_set_claim_start_epoch(ctx.block_epoch, claim_start_epoch)
    }

    /// The launchpad tokens that the winning tickets need; refused where they leave
    /// the integers.
    fn get_exact_launchpad_tokens_needed(&self) -> (r: Result<u128, LaunchpadError>)
        ensures
            r is Ok <==> spec_tokens_needed(self) <= u128::MAX,
            r matches Ok(v) ==> v == spec_tokens_needed(self),
            r is Err ==> r == Err::<u128, _>(LaunchpadError::ArithmeticError),
    {
        let count = ticket_count_u32(self.nr_winning_tickets);
        match self.launchpad_tokens_per_winning_ticket.checked_mul(count) {
            Some(v) => Ok(v),
            None => Err(LaunchpadError::ArithmeticError),
        }
    }

    fn try_set_ticket_price(&mut self, ticket_price: u128) -> (r: Result<(), LaunchpadError>)
        ensures
            r is Ok <==> ticket_price > 0,
            r is Err ==> r == Err::<(), _>(LaunchpadError::TicketPriceZero) && *final(self) == *old(self),
            r is Ok ==> *final(self) == (EpochLaunchpad {
                ticket_price: TokenAmountPair { token_id: final(self).ticket_price.token_id, amount: ticket_price },
                ..*old(self)
            }) && final(self).ticket_price.token_id@ == old(self).ticket_price.token_id@,
    {
        if ticket_price == 0 {
            return Err(LaunchpadError::TicketPriceZero);
        }
        self.ticket_price.amount = ticket_price;
        Ok(())
    }

    fn try_set_launchpad_tokens_per_winning_ticket(&mut self, amount: u128) -> (r: Result<(), LaunchpadError>)
        ensures
            r is Ok <==> amount > 0,
            r is Err ==> r == Err::<(), _>(LaunchpadError::LaunchpadTokensPerTicketZero) && *final(self) == *old(self),
            r is Ok ==> *final(self) == (EpochLaunchpad { launchpad_tokens_per_winning_ticket: amount, ..*old(self) }),
    {
        if amount == 0 {
            return Err(LaunchpadError::LaunchpadTokensPerTicketZero);
        }
        self.launchpad_tokens_per_winning_ticket = amount;
        Ok(())
    }

    fn try_set_nr_winning_tickets(&mut self, nr_winning_tickets: usize) -> (r: Result<(), LaunchpadError>)
        ensures
            r is Ok <==> nr_winning_tickets > 0,
            r is Err ==> r == Err::<(), _>(LaunchpadError::WinningTicketsZero) && *final(self) == *old(self),
            r is Ok ==> *final(self) == (EpochLaunchpad { nr_winning_tickets, ..*old(self) }),
    {
        if nr_winning_tickets == 0 {
            return Err(LaunchpadError::WinningTicketsZero);
        }
        self.nr_winning_tickets = nr_winning_tickets;
        Ok(())
    }

    fn try_set_confirmation_period_start_epoch(&mut self, current_epoch: u64, start_epoch: u64) -> (r: Result<(), LaunchpadError>)
        ensures
            r is Ok <==> start_epoch > current_epoch,
            r is Err ==> r == Err::<(), _>(LaunchpadError::ConfirmationStartEpochInPast) && *final(self) == *old(self),
            r is Ok ==> *final(self) == (EpochLaunchpad {
                configuration: EpochsConfig { confirmation_period_start_epoch: start_epoch, ..old(self).configuration },
                ..*old(self)
            }),
    {
        if start_epoch <= current_epoch {
            return Err(LaunchpadError::ConfirmationStartEpochInPast);
        }
        self.configuration.confirmation_period_start_epoch = start_epoch;
        Ok(())
    }

    fn try_set_winner_selection_start_epoch(&mut self, current_epoch: u64, start_epoch: u64) -> (r: Result<(), LaunchpadError>)
        ensures
            r is Ok <==> start_epoch > current_epoch,
            r is Err ==> r == Err::<(), _>(LaunchpadError::StartEpochInPast) && *final(self) == *old(self),
            r is Ok ==> *final(self) == (EpochLaunchpad {
                configuration: EpochsConfig { winner_selection_start_epoch: start_epoch, ..old(self).configuration },
                ..*old(self)
            }),
    {
        if start_epoch <= current_epoch {
            return Err(LaunchpadError::StartEpochInPast);
        }
        self.configuration.winner_selection_start_epoch = start_epoch;
        Ok(())
    }

    fn try_set_claim_start_epoch(&mut self, current_epoch: u64, claim_start_epoch: u64) -> (r: Result<(), LaunchpadError>)
        ensures
            r is Ok <==> claim_start_epoch > current_epoch,
            r is Err ==> r == Err::<(), _>(LaunchpadError::ClaimStartEpochInPast) && *final(self) == *old(self),
            r is Ok ==> *final(self) == (EpochLaunchpad {
                configuration: EpochsConfig { claim_start_epoch, ..old(self).configuration },
                ..*old(self)
            }),
    {
        if claim_start_epoch <= current_epoch {
            return Err(LaunchpadError::ClaimStartEpochInPast);
        }
        self.configuration.claim_start_epoch = claim_start_epoch;
        Ok(())
    }

    /// A start epoch may change only while it lies ahead.
    fn require_valid_config_epoch_change(&self, current_epoch: u64, old_start_epoch: u64) -> (r: Result<(), LaunchpadError>)
        ensures
            r is Ok <==> old_start_epoch > current_epoch,
            r is Err ==> r == Err::<(), _>(LaunchpadError::StartEpochInProgressOrPassed),
    {
        if old_start_epoch > current_epoch {
            Ok(())
        } else {
            Err(LaunchpadError::StartEpochInProgressOrPassed)
        }
    }

    /// The stage epochs, each the one given or else the stored one, are in order.
    fn require_valid_time_periods(
        &self,
        opt_confirm_start_epoch: Option<u64>,
        opt_winner_selection_start_epoch: Option<u64>,
        opt_claim_start: Option<u64>,
    ) -> (r: Result<(), LaunchpadError>)
        ensures
            ({
                let confirm = match opt_confirm_start_epoch { Some(e) => e, None => self.configuration.confirmation_period_start_epoch };
                let selection = match opt_winner_selection_start_epoch { Some(e) => e, None => self.configuration.winner_selection_start_epoch };
                let claim = match opt_claim_start { Some(e) => e, None => self.configuration.claim_start_epoch };
                &&& r is Ok <==> spec_time_periods_error(confirm, selection, claim) is None
                &&& r matches Err(e) ==> spec_time_periods_error(confirm, selection, claim) == Some(e)
            }),
    {
        let confirm_start_epoch = match opt_confirm_start_epoch {
            Some(e) => e,
            None => self.configuration.confirmation_period_start_epoch,
        };
        let winner_selection_start_epoch = match opt_winner_selection_start_epoch {
            Some(e) => e,
            None => self.configuration.winner_selection_start_epoch,
        };
        let claim_start = match opt_claim_start {
            Some(e) => e,
            None => self.configuration.claim_start_epoch,
        };
        if !(confirm_start_epoch < winner_selection_start_epoch) {
            return Err(LaunchpadError::WinnerSelectionEpochBeforeConfirm);
        }
        if !(winner_selection_start_epoch <= claim_start) {
            return Err(LaunchpadError::ClaimBeforeWinnerSelection);
        }
        Ok(())
    }

    fn were_launchpad_tokens_deposited(&self) -> (r: bool)
        ensures
            r == self.launchpad_tokens_deposited,
    {
        self.launchpad_tokens_deposited
    }
}

} // verus!
