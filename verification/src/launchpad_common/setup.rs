//! Setting a launchpad up: its prices, its timeline and the deposit of the tokens it sells.

use vstd::prelude::*;

use crate::launchpad_common::common_events::{CommonEventsModule, SetTicketPriceEvent, stamped};
use crate::launchpad_common::config::{CallContext, LaunchpadState, Payment, TimelineConfig, TokenAmountPair};
use crate::launchpad_common::errors::LaunchpadError;
use crate::launchpad_common::launch_stage::{LaunchStage, LaunchStageModule};
use crate::launchpad_common::storage::same_bytes;
use crate::launchpad_common::token_id::{is_valid_egld_or_esdt, spec_valid_egld_or_esdt};

verus! {

/// The stages come in order: confirmation starts before winner selection, which
/// starts no later than the claim.
pub open spec fn spec_valid_time_periods(config: TimelineConfig) -> bool {
    &&& config.confirmation_period_start_round < config.winner_selection_start_round
    &&& config.winner_selection_start_round <= config.claim_start_round
}

/// A start round may change only while it is still ahead, and only to a round ahead.
pub open spec fn spec_valid_timeline_change(current_round: u64, old_start: u64, new_start: u64) -> bool {
    old_start > current_round && new_start > current_round
}

/// Setting a launchpad up.
pub trait SetupModule {
    fn deposit_launchpad_tokens(&mut self, total_winning_tickets: usize, payment: &Payment) -> Result<(), LaunchpadError>;

    fn set_ticket_price(&mut self, ctx: &CallContext, token_id: Vec<u8>, amount: u128) -> Result<SetTicketPriceEvent, LaunchpadError>;

    fn set_launchpad_tokens_per_winning_ticket(&mut self, ctx: &CallContext, amount: u128) -> Result<(), LaunchpadError>;

    fn set_confirmation_period_start_round(&mut self, ctx: &CallContext, new_start_round: u64) -> Result<(), LaunchpadError>;

    fn set_winner_selection_start_round(&mut self, ctx: &CallContext, new_start_round: u64) -> Result<(), LaunchpadError>;

    fn set_claim_start_round(&mut self, ctx: &CallContext, new_start_round: u64) -> Result<(), LaunchpadError>;

    fn try_set_ticket_price(&mut self, token_id: Vec<u8>, amount: u128) -> Result<(), LaunchpadError>;

    fn try_set_launchpad_tokens_per_winning_ticket(&mut self, amount: u128) -> Result<(), LaunchpadError>;

    fn try_set_nr_winning_tickets(&mut self, nr_winning_tickets: usize) -> Result<(), LaunchpadError>;

    fn require_valid_config_timeline_change(&self, current_round: u64, old_start_round: u64, new_start_round: u64) -> Result<(), LaunchpadError>;

    fn require_valid_time_periods(&self, config: &TimelineConfig) -> Result<(), LaunchpadError>;

    fn were_launchpad_tokens_deposited(&self) -> bool;

    fn get_exact_launchpad_tokens_needed(&self) -> Result<u128, LaunchpadError>;
}

impl SetupModule for LaunchpadState {
    fn deposit_launchpad_tokens(&mut self, total_winning_tickets: usize, payment: &Payment) -> (r: Result<(), LaunchpadError>)
        ensures
            r is Ok <==> {
                &&& !old(self).launchpad_tokens_deposited
                &&& payment.token_id@ == old(self).launchpad_token_id@
                &&& old(self).launchpad_tokens_per_winning_ticket * total_winning_tickets <= u128::MAX
                &&& payment.amount == old(self).launchpad_tokens_per_winning_ticket * total_winning_tickets
            },
            old(self).launchpad_tokens_deposited ==> r == Err::<(), _>(LaunchpadError::TokensAlreadyDeposited),
            !old(self).launchpad_tokens_deposited && payment.token_id@ != old(self).launchpad_token_id@
                ==> r == Err::<(), _>(LaunchpadError::WrongToken),
            !old(self).launchpad_tokens_deposited && payment.token_id@ == old(self).launchpad_token_id@
                && payment.amount != old(self).launchpad_tokens_per_winning_ticket * total_winning_tickets
                ==> r == Err::<(), _>(LaunchpadError::WrongAmount),
            r is Ok ==> *final(self) == (LaunchpadState {
                launchpad_tokens_deposited: true,
                total_launchpad_tokens_deposited: payment.amount,
                ..*old(self)
            }),
            r is Err ==> *final(self) == *old(self),
    {
        if self.launchpad_tokens_deposited {
            return Err(LaunchpadError::TokensAlreadyDeposited);
        }
        if !same_bytes(&payment.token_id, &self.launchpad_token_id) {
            return Err(LaunchpadError::WrongToken);
        }
        // an amount that leaves the integers is no amount that can be sent
        let amount_needed = match self.launchpad_tokens_per_winning_ticket.checked_mul(total_winning_tickets as u128) {
            Some(a) => a,
            None => return Err(LaunchpadError::WrongAmount),
        };
        if payment.amount != amount_needed {
            return Err(LaunchpadError::WrongAmount);
        }
        self.launchpad_tokens_deposited = true;
        self.total_launchpad_tokens_deposited = payment.amount;
        Ok(())
    }

    fn set_ticket_price(&mut self, ctx: &CallContext, token_id: Vec<u8>, amount: u128) -> (r: Result<SetTicketPriceEvent, LaunchpadError>)
        ensures
            r is Ok <==> {
                &&& ctx.caller == ctx.owner
                &&& old(self).stage_at(ctx.block_round) == LaunchStage::AddTickets
                &&& spec_valid_egld_or_esdt(token_id@)
                &&& amount > 0
            },
            r matches Ok(e) ==> {
                &&& final(self).ticket_price.token_id@ == token_id@
                &&& final(self).ticket_price.amount == amount
                &&& *final(self) == (LaunchpadState { ticket_price: final(self).ticket_price, ..*old(self) })
                &&& stamped(e.user, e.block, e.epoch, *ctx)
                &&& e.ticket_price.token_id@ == token_id@
                &&& e.ticket_price.token_nonce == 0
                &&& e.ticket_price.amount == amount
            },
            r is Err ==> *final(self) == *old(self),
    {
        if ctx.caller != ctx.owner {
            return Err(LaunchpadError::OnlyOwner);
        }
        self.require_add_tickets_period(ctx.block_round)?;
        let price_token = token_id.clone();
        self.try_set_ticket_price(token_id, amount)?;
        let ticket_price = Payment { token_id: price_token, token_nonce: 0, amount };
        Ok(self.emit_set_ticket_price_event(ctx, ticket_price))
    }

    fn set_launchpad_tokens_per_winning_ticket(&mut self, ctx: &CallContext, amount: u128) -> (r: Result<(), LaunchpadError>)
        ensures
            r is Ok <==> {
                &&& ctx.caller == ctx.owner
                &&& old(self).stage_at(ctx.block_round) == LaunchStage::AddTickets
                &&& !old(self).launchpad_tokens_deposited
                &&& amount > 0
            },
            r is Ok ==> *final(self) == (LaunchpadState { launchpad_tokens_per_winning_ticket: amount, ..*old(self) }),
            r is Err ==> *final(self) == *old(self),
    {
        if ctx.caller != ctx.owner {
            return Err(LaunchpadError::OnlyOwner);
        }
        self.require_add_tickets_period(ctx.block_round)?;
        if self.launchpad_tokens_deposited {
            return Err(LaunchpadError::TokensAlreadyDeposited);
        }
        self.try_set_launchpad_tokens_per_winning_ticket(amount)
    }

    fn set_confirmation_period_start_round(&mut self, ctx: &CallContext, new_start_round: u64) -> (r: Result<(), LaunchpadError>)
        ensures
            r is Ok <==> {
                let config = TimelineConfig { confirmation_period_start_round: new_start_round, ..old(self).configuration };
                &&& ctx.caller == ctx.owner
                &&& spec_valid_timeline_change(ctx.block_round, old(self).configuration.confirmation_period_start_round, new_start_round)
                &&& spec_valid_time_periods(config)
            },
            r is Ok ==> *final(self) == (LaunchpadState {
                configuration: TimelineConfig { confirmation_period_start_round: new_start_round, ..old(self).configuration },
                ..*old(self)
            }),
            r is Err ==> *final(self) == *old(self),
    {
        if ctx.caller != ctx.owner {
            return Err(LaunchpadError::OnlyOwner);
        }
        let mut config = self.configuration;
        self.require_valid_config_timeline_change(ctx.block_round, config.confirmation_period_start_round, new_start_round)?;
        config.confirmation_period_start_round = new_start_round;
        self.require_valid_time_periods(&config)?;
        self.configuration = config;
        Ok(())
    }

    fn set_winner_selection_start_round(&mut self, ctx: &CallContext, new_start_round: u64) -> (r: Result<(), LaunchpadError>)
        ensures
            r is Ok <==> {
                let config = TimelineConfig { winner_selection_start_round: new_start_round, ..old(self).configuration };
                &&& ctx.caller == ctx.owner
                &&& spec_valid_timeline_change(ctx.block_round, old(self).configuration.winner_selection_start_round, new_start_round)
                &&& spec_valid_time_periods(config)
            },
            r is Ok ==> *final(self) == (LaunchpadState {
                configuration: TimelineConfig { winner_selection_start_round: new_start_round, ..old(self).configuration },
                ..*old(self)
            }),
            r is Err ==> *final(self) == *old(self),
    {
        if ctx.caller != ctx.owner {
            return Err(LaunchpadError::OnlyOwner);
        }
        let mut config = self.configuration;
        self.require_valid_config_timeline_change(ctx.block_round, config.winner_selection_start_round, new_start_round)?;
        config.winner_selection_start_round = new_start_round;
        self.require_valid_time_periods(&config)?;
        self.configuration = config;
        Ok(())
    }

    fn set_claim_start_round(&mut self, ctx: &CallContext, new_start_round: u64) -> (r: Result<(), LaunchpadError>)
        ensures
            r is Ok <==> {
                let config = TimelineConfig { claim_start_round: new_start_round, ..old(self).configuration };
                &&& ctx.caller == ctx.owner
                &&& spec_valid_timeline_change(ctx.block_round, old(self).configuration.claim_start_round, new_start_round)
                &&& spec_valid_time_periods(config)
            },
            r is Ok ==> *final(self) == (LaunchpadState {
                configuration: TimelineConfig { claim_start_round: new_start_round, ..old(self).configuration },
                ..*old(self)
            }),
            r is Err ==> *final(self) == *old(self),
    {
        if ctx.caller != ctx.owner {
            return Err(LaunchpadError::OnlyOwner);
        }
        let mut config = self.configuration;
        self.require_valid_config_timeline_change(ctx.block_round, config.claim_start_round, new_start_round)?;
        config.claim_start_round = new_start_round;
        self.require_valid_time_periods(&config)?;
        self.configuration = config;
        Ok(())
    }

    fn try_set_ticket_price(&mut self, token_id: Vec<u8>, amount: u128) -> (r: Result<(), LaunchpadError>)
        ensures
            r is Ok <==> spec_valid_egld_or_esdt(token_id@) && amount > 0,
            !spec_valid_egld_or_esdt(token_id@) ==> r == Err::<(), _>(LaunchpadError::InvalidTokenId),
            spec_valid_egld_or_esdt(token_id@) && amount == 0 ==> r == Err::<(), _>(LaunchpadError::TicketPriceZero),
            r is Ok ==> {
                &&& final(self).ticket_price.token_id@ == token_id@
                &&& final(self).ticket_price.amount == amount
                &&& *final(self) == (LaunchpadState { ticket_price: final(self).ticket_price, ..*old(self) })
            },
            r is Err ==> *final(self) == *old(self),
    {
        if !is_valid_egld_or_esdt(&token_id) {
            return Err(LaunchpadError::InvalidTokenId);
        }
        if amount == 0 {
            return Err(LaunchpadError::TicketPriceZero);
        }
        self.ticket_price = TokenAmountPair { token_id, amount };
        Ok(())
    }

    fn try_set_launchpad_tokens_per_winning_ticket(&mut self, amount: u128) -> (r: Result<(), LaunchpadError>)
        ensures
            r is Ok <==> amount > 0,
            r is Err ==> r == Err::<(), _>(LaunchpadError::LaunchpadTokensPerTicketZero),
            r is Ok ==> *final(self) == (LaunchpadState { launchpad_tokens_per_winning_ticket: amount, ..*old(self) }),
            r is Err ==> *final(self) == *old(self),
    {
        if amount == 0 {
            return Err(LaunchpadError::LaunchpadTokensPerTicketZero);
        }
        self.launchpad_tokens_per_winning_ticket = amount;
        Ok(())
    }

    fn try_set_nr_winning_tickets(&mut self, nr_winning_tickets: usize) -> (r: Result<(), LaunchpadError>)
        ensures
            r is Ok <==> nr_winning_tickets > 0,
            r is Err ==> r == Err::<(), _>(LaunchpadError::WinningTicketsZero),
            r is Ok ==> *final(self) == (LaunchpadState { nr_winning_tickets, ..*old(self) }),
            r is Err ==> *final(self) == *old(self),
    {
        if nr_winning_tickets == 0 {
            return Err(LaunchpadError::WinningTicketsZero);
        }
        self.nr_winning_tickets = nr_winning_tickets;
        Ok(())
    }

    fn require_valid_config_timeline_change(&self, current_round: u64, old_start_round: u64, new_start_round: u64) -> (r: Result<(), LaunchpadError>)
        ensures
            r is Ok <==> spec_valid_timeline_change(current_round, old_start_round, new_start_round),
            old_start_round <= current_round ==> r == Err::<(), _>(LaunchpadError::StartRoundInProgressOrPassed),
            old_start_round > current_round && new_start_round <= current_round ==> r == Err::<(), _>(LaunchpadError::StartRoundInPast),
    {
        if old_start_round <= current_round {
            return Err(LaunchpadError::StartRoundInProgressOrPassed);
        }
        if new_start_round <= current_round {
            return Err(LaunchpadError::StartRoundInPast);
        }
        Ok(())
    }

    fn require_valid_time_periods(&self, config: &TimelineConfig) -> (r: Result<(), LaunchpadError>)
        ensures
            r is Ok <==> spec_valid_time_periods(*config),
            config.confirmation_period_start_round >= config.winner_selection_start_round ==> r == Err::<(), _>(LaunchpadError::WinnerSelectionBeforeConfirm),
            config.confirmation_period_start_round < config.winner_selection_start_round
                && config.winner_selection_start_round > config.claim_start_round ==> r == Err::<(), _>(LaunchpadError::ClaimBeforeWinnerSelection),
    {
        if config.confirmation_period_start_round >= config.winner_selection_start_round {
            return Err(LaunchpadError::WinnerSelectionBeforeConfirm);
        }
        if config.winner_selection_start_round > config.claim_start_round {
            return Err(LaunchpadError::ClaimBeforeWinnerSelection);
        }
        Ok(())
    }

    fn were_launchpad_tokens_deposited(&self) -> (r: bool)
        ensures
            r == self.launchpad_tokens_deposited,
    {
        self.launchpad_tokens_deposited
    }

    fn get_exact_launchpad_tokens_needed(&self) -> (r: Result<u128, LaunchpadError>)
        ensures
            r is Ok <==> self.launchpad_tokens_per_winning_ticket * self.nr_winning_tickets <= u128::MAX,
            r matches Ok(v) ==> v == self.launchpad_tokens_per_winning_ticket * self.nr_winning_tickets,
            r is Err ==> r == Err::<u128, _>(LaunchpadError::ArithmeticError),
    {
        match self.launchpad_tokens_per_winning_ticket.checked_mul(self.nr_winning_tickets as u128) {
            Some(v) => Ok(v),
            None => Err(LaunchpadError::ArithmeticError),
        }
    }
}

} // verus!
