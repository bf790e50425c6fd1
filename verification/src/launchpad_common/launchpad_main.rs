//! Creating a launchpad, and the owner's final claim of the ticket payments.

use std::collections::HashMap;
use std::collections::HashSet;
use vstd::prelude::*;

use crate::launchpad_common::config::{CallContext, LaunchpadState, TimelineConfig, TokenAmountPair, Transfer};
use crate::launchpad_common::errors::LaunchpadError;
use crate::launchpad_common::launch_stage::{Flags, LaunchStage, LaunchStageModule};
use crate::launchpad_common::ongoing_operation::OngoingOperationType;
use crate::launchpad_common::setup::{spec_valid_time_periods, SetupModule};
use crate::launchpad_common::tickets::TicketsModule;
use crate::launchpad_common::token_id::spec_valid_egld_or_esdt;

verus! {

/// The arguments with which a launchpad is created.
pub struct LaunchpadInitArgs {
    pub launchpad_token_id: Vec<u8>,
    pub launchpad_tokens_per_winning_ticket: u128,
    pub ticket_payment_token: Vec<u8>,
    pub ticket_price: u128,
    pub nr_winning_tickets: usize,
    pub confirmation_period_start_round: u64,
    pub winner_selection_start_round: u64,
    pub claim_start_round: u64,
    pub flags: Flags,
}

/// Whether a launchpad can be created from these arguments.
pub open spec fn spec_valid_init_args(args: &LaunchpadInitArgs) -> bool {
    &&& args.launchpad_tokens_per_winning_ticket > 0
    &&& spec_valid_egld_or_esdt(args.ticket_payment_token@)
    &&& args.ticket_price > 0
    &&& args.nr_winning_tickets > 0
    &&& spec_valid_time_periods(TimelineConfig {
        confirmation_period_start_round: args.confirmation_period_start_round,
        winner_selection_start_round: args.winner_selection_start_round,
        claim_start_round: args.claim_start_round,
    })
}

/// Why a launchpad cannot be created from these arguments: the first check that fails.
pub open spec fn spec_init_error(args: &LaunchpadInitArgs) -> LaunchpadError {
    if args.launchpad_tokens_per_winning_ticket == 0 {
        LaunchpadError::LaunchpadTokensPerTicketZero
    } else if !spec_valid_egld_or_esdt(args.ticket_payment_token@) {
        LaunchpadError::InvalidTokenId
    } else if args.ticket_price == 0 {
        LaunchpadError::TicketPriceZero
    } else if args.nr_winning_tickets == 0 {
        LaunchpadError::WinningTicketsZero
    } else if args.confirmation_period_start_round >= args.winner_selection_start_round {
        LaunchpadError::WinnerSelectionBeforeConfirm
    } else {
        LaunchpadError::ClaimBeforeWinnerSelection
    }
}

/// The state of a launchpad that nobody has used yet.
pub open spec fn spec_fresh(s: &LaunchpadState) -> bool {
    &&& s.last_ticket_id == 0
    &&& s.ticket_status@ == Map::<usize, bool>::empty()
    &&& s.ticket_batch@.is_empty()
    &&& s.ticket_range_for_address@.is_empty()
    &&& s.nr_confirmed_tickets@.is_empty()
    &&& s.ticket_pos_to_id@.is_empty()
    &&& s.blacklist@.is_empty()
    &&& s.claimed_tokens@.is_empty()
    &&& s.current_ongoing_operation is Idle
    &&& !s.launchpad_tokens_deposited
    &&& s.total_launchpad_tokens_deposited == 0
    &&& s.claimable_ticket_payment == 0
    &&& !s.paused
}

/// What the owner's claim hands out: the payments of the winning tickets, if any, then
/// the launchpad tokens beyond what the winning tickets need, if any, both to the caller.
pub open spec fn spec_ticket_payment_transfers(s: &LaunchpadState, ctx: CallContext, launchpad_tokens_balance: u128, transfers: Seq<Transfer>) -> bool {
    let needed = s.launchpad_tokens_per_winning_ticket * s.nr_winning_tickets;
    let extra = launchpad_tokens_balance - needed;
    let pays = s.claimable_ticket_payment > 0;
    &&& transfers.len() == (if pays { 1int } else { 0 }) + (if extra > 0 { 1int } else { 0 })
    &&& pays ==> transfers[0].to == ctx.caller && transfers[0].token_id@ == s.ticket_price.token_id@
        && transfers[0].token_nonce == 0 && transfers[0].amount == s.claimable_ticket_payment
    &&& extra > 0 ==> {
        let t = transfers[transfers.len() - 1];
        t.to == ctx.caller && t.token_id@ == s.launchpad_token_id@ && t.token_nonce == 0 && t.amount == extra
    }
}

/// Why the owner's claim is refused: the first check that fails.
pub open spec fn spec_claim_payment_error(s: &LaunchpadState, ctx: CallContext) -> LaunchpadError {
    if ctx.caller != ctx.owner {
        LaunchpadError::OnlyOwner
    } else if s.stage_at(ctx.block_round) != LaunchStage::Claim {
        LaunchpadError::NotInClaimPeriod
    } else {
        LaunchpadError::ArithmeticError
    }
}

/// The part that every launchpad flavour shares.
pub trait LaunchpadMain {
    fn claim_ticket_payment(&mut self, ctx: &CallContext, launchpad_tokens_balance: u128) -> Result<Vec<Transfer>, LaunchpadError>;
}

impl LaunchpadState {
    /// Creates a launchpad: checks the prices, the number of winning tickets and the
    /// timeline, and makes the caller the support address.
    pub fn init_base(ctx: &CallContext, args: LaunchpadInitArgs) -> (r: Result<LaunchpadState, LaunchpadError>)
        ensures
            r is Ok <==> spec_valid_init_args(&args),
            r matches Err(e) ==> e == spec_init_error(&args),
            r matches Ok(s) ==> {
                &&& spec_fresh(&s)
                &&& s.tickets_wf()
                &&& s.launchpad_token_id@ == args.launchpad_token_id@
                &&& s.launchpad_tokens_per_winning_ticket == args.launchpad_tokens_per_winning_ticket
                &&& s.ticket_price.token_id@ == args.ticket_payment_token@
                &&& s.ticket_price.amount == args.ticket_price
                &&& s.nr_winning_tickets == args.nr_winning_tickets
                &&& s.configuration == (TimelineConfig {
                    confirmation_period_start_round: args.confirmation_period_start_round,
                    winner_selection_start_round: args.winner_selection_start_round,
                    claim_start_round: args.claim_start_round,
                })
                &&& s.flags == args.flags
                &&& s.support_address == ctx.caller
            },
    {
        let config = TimelineConfig {
            confirmation_period_start_round: args.confirmation_period_start_round,
            winner_selection_start_round: args.winner_selection_start_round,
            claim_start_round: args.claim_start_round,
        };
        let mut state = LaunchpadState {
            launchpad_token_id: args.launchpad_token_id,
            launchpad_tokens_per_winning_ticket: 0,
            ticket_price: TokenAmountPair { token_id: Vec::new(), amount: 0 },
            nr_winning_tickets: 0,
            launchpad_tokens_deposited: false,
            total_launchpad_tokens_deposited: 0,
            claimable_ticket_payment: 0,
            configuration: config,
            flags: args.flags,
            support_address: ctx.caller,
            last_ticket_id: 0,
            ticket_status: HashMap::new(),
            ticket_batch: HashMap::new(),
            ticket_range_for_address: HashMap::new(),
            nr_confirmed_tickets: HashMap::new(),
            ticket_pos_to_id: HashMap::new(),
            blacklist: HashSet::new(),
            claimed_tokens: HashMap::new(),
            current_ongoing_operation: OngoingOperationType::Idle,
            paused: false,
        };
        state.try_set_launchpad_tokens_per_winning_ticket(args.launchpad_tokens_per_winning_ticket)?;
        state.try_set_ticket_price(args.ticket_payment_token, args.ticket_price)?;
        state.try_set_nr_winning_tickets(args.nr_winning_tickets)?;
        state.require_valid_time_periods(&config)?;
        Ok(state)
    }
}

impl LaunchpadMain for LaunchpadState {
    /// The owner takes the payments of the winning tickets and the launchpad tokens that
    /// no winning ticket needs; `launchpad_tokens_balance` is what the contract holds.
    fn claim_ticket_payment(&mut self, ctx: &CallContext, launchpad_tokens_balance: u128) -> (r: Result<Vec<Transfer>, LaunchpadError>)
        ensures
            r is Ok <==> {
                let needed = old(self).launchpad_tokens_per_winning_ticket * old(self).nr_winning_tickets;
                &&& ctx.caller == ctx.owner
                &&& old(self).stage_at(ctx.block_round) == LaunchStage::Claim
                &&& needed <= launchpad_tokens_balance
            },
            r matches Ok(transfers) ==> {
                &&& *final(self) == (LaunchpadState { claimable_ticket_payment: 0, ..*old(self) })
                &&& spec_ticket_payment_transfers(old(self), *ctx, launchpad_tokens_balance, transfers@)
            },
            r matches Err(e) ==> e == spec_claim_payment_error(old(self), *ctx),
            r is Err ==> *final(self) == *old(self),
    {
        if ctx.caller != ctx.owner {
            return Err(LaunchpadError::OnlyOwner);
        }
        self.require_claim_period(ctx.block_round)?;
        let launchpad_tokens_needed = self.get_exact_launchpad_tokens_needed()?;
        if launchpad_tokens_balance < launchpad_tokens_needed {
            return Err(LaunchpadError::ArithmeticError);
        }
        let owner = ctx.caller;
        let mut transfers: Vec<Transfer> = Vec::new();
        let claimable_ticket_payment = self.claimable_ticket_payment;
        if claimable_ticket_payment > 0 {
            self.claimable_ticket_payment = 0;
            transfers.push(Transfer {
                to: owner,
                token_id: self.ticket_price.token_id.clone(),
                token_nonce: 0,
                amount: claimable_ticket_payment,
            });
        }
        let extra_launchpad_tokens = launchpad_tokens_balance - launchpad_tokens_needed;
        if extra_launchpad_tokens > 0 {
            transfers.push(Transfer {
                to: owner,
                token_id: self.launchpad_token_id.clone(),
                token_nonce: 0,
                amount: extra_launchpad_tokens,
            });
        }
        Ok(transfers)
    }
}

} // verus!
