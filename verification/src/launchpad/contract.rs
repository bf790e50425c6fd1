//! The endpoints of the first launchpad: creation, the owner's payment and blacklist,
//! and the users' confirmation and claim.

use std::collections::HashMap;
use std::collections::HashSet;
use vstd::prelude::*;

use crate::launchpad::config::EpochsConfig;
use crate::launchpad::launch_stage::{Flags, LaunchStageModule};
use crate::launchpad::setup::{spec_ticket_count_u32, spec_time_periods_error, spec_tokens_needed, SetupModule};
use crate::launchpad::state::EpochLaunchpad;
use crate::launchpad::tickets::TicketsModule;
use crate::launchpad_common::config::{CallContext, Payment, TokenAmountPair, Transfer};
use crate::launchpad_common::errors::LaunchpadError;
use crate::launchpad_common::launch_stage::{stage_index, LaunchStage};
use crate::launchpad_common::ongoing_operation::OngoingOperationType;
use crate::launchpad_common::storage::{get_by_address, same_bytes, set_contains, stored_or, Address};
use crate::launchpad_common::tickets::{range_len, range_wf};
use crate::launchpad_common::user_interactions::{
    clear_range_keys, range_ids, remove_ids, spec_winning_ids, winning_ids_in_table,
};

verus! {

broadcast use vstd::std_specs::hash::group_hash_axioms;

/// The ticket payment that `nr` tickets are worth, the count taken as a 32-bit number.
pub open spec fn spec_refund_u32(s: &EpochLaunchpad, nr: usize) -> int {
    s.ticket_price.amount * spec_ticket_count_u32(nr)
}

/// The launchpad tokens that `nr` winning tickets earn, the count taken as a 32-bit
/// number.
pub open spec fn spec_tokens_u32(s: &EpochLaunchpad, nr: usize) -> int {
    s.launchpad_tokens_per_winning_ticket * spec_ticket_count_u32(nr)
}

/// The tickets a user confirmed so far.
pub open spec fn epoch_confirmed_of(s: &EpochLaunchpad, a: Address) -> usize {
    stored_or(s.nr_confirmed_tickets@, a, 0usize)
}

/// Why a launchpad cannot be created: a zero amount of launchpad tokens per winning
/// ticket, a zero ticket price, no winning tickets, or stage epochs out of order.
pub open spec fn spec_epoch_init_error(
    launchpad_tokens_per_winning_ticket: u128,
    ticket_price: u128,
    nr_winning_tickets: usize,
    config: EpochsConfig,
) -> Option<LaunchpadError> {
    if launchpad_tokens_per_winning_ticket == 0 {
        Some(LaunchpadError::LaunchpadTokensPerTicketZero)
    } else if ticket_price == 0 {
        Some(LaunchpadError::TicketPriceZero)
    } else if nr_winning_tickets == 0 {
        Some(LaunchpadError::WinningTicketsZero)
    } else {
        spec_time_periods_error(
            config.confirmation_period_start_epoch,
            config.winner_selection_start_epoch,
            config.claim_start_epoch,
        )
    }
}

/// Why a user cannot confirm tickets: not the confirmation stage, no tokens deposited,
/// blacklisted, more tickets than held, or a payment other than the price of the tickets.
pub open spec fn spec_epoch_confirm_error(s: &EpochLaunchpad, ctx: CallContext, payment: &Payment, nr: usize) -> Option<LaunchpadError> {
    let total_confirmed = epoch_confirmed_of(s, ctx.caller) + nr;
    if s.stage_at(ctx.block_epoch) != LaunchStage::Confirm {
        Some(LaunchpadError::NotInConfirmationPeriod)
    } else if !s.launchpad_tokens_deposited {
        Some(LaunchpadError::LaunchpadTokensNotDeposited)
    } else if s.blacklisted@.contains(ctx.caller) {
        Some(LaunchpadError::Blacklisted)
    } else if total_confirmed > s.total_tickets_of(ctx.caller) {
        Some(LaunchpadError::TooManyTicketsConfirmed)
    } else if payment.token_id@ != s.ticket_price.token_id@ {
        Some(LaunchpadError::WrongPaymentToken)
    } else if payment.amount != spec_refund_u32(s, nr) {
        Some(LaunchpadError::WrongAmountSent)
    } else {
        None
    }
}

/// A user's winning ticket ids.
pub open spec fn epoch_winning_ids_of(s: &EpochLaunchpad, a: Address) -> Seq<usize> {
    let r = s.ticket_range_for_address@[a];
    spec_winning_ids(s.ticket_status@, r.first_id as int, r.last_id as int)
}

/// Why a user cannot claim: not the claim stage, claimed already, no tickets, or a
/// count or an amount that leaves the integers.
pub open spec fn spec_epoch_claim_error(s: &EpochLaunchpad, ctx: CallContext) -> Option<LaunchpadError> {
    let caller = ctx.caller;
    let nr = epoch_winning_ids_of(s, caller).len();
    let confirmed = epoch_confirmed_of(s, caller);
    if s.stage_at(ctx.block_epoch) != LaunchStage::Claim {
        Some(LaunchpadError::NotInClaimPeriod)
    } else if s.claimed_tokens@.contains(caller) {
        Some(LaunchpadError::AlreadyClaimed)
    } else if !s.ticket_range_for_address@.contains_key(caller) {
        Some(LaunchpadError::NoTickets)
    } else if nr > s.nr_winning_tickets || nr > confirmed || spec_refund_u32(s, (confirmed - nr) as usize) > u128::MAX
        || spec_tokens_u32(s, nr as usize) > u128::MAX {
        Some(LaunchpadError::ArithmeticError)
    } else {
        None
    }
}

/// Why the owner cannot blacklist a user: not the owner, winner selection has started,
/// or the refund leaves the integers.
pub open spec fn spec_epoch_blacklist_error(s: &EpochLaunchpad, ctx: CallContext, address: Address) -> Option<LaunchpadError> {
    if ctx.caller != ctx.owner {
        Some(LaunchpadError::OnlyOwner)
    } else if stage_index(s.stage_at(ctx.block_epoch)) >= stage_index(LaunchStage::WinnerSelection) {
        Some(LaunchpadError::BlacklistOnlyBeforeWinnerSelection)
    } else if spec_refund_u32(s, epoch_confirmed_of(s, address)) > u128::MAX {
        Some(LaunchpadError::ArithmeticError)
    } else {
        None
    }
}

/// The first launchpad's endpoints.
pub trait Launchpad {
    /// The ticket tables hold well-formed ranges and room for one more id.
    spec fn launchpad_wf(&self) -> bool;

    fn claim_ticket_payment(&mut self, ctx: &CallContext, launchpad_tokens_balance: u128) -> Result<Vec<Transfer>, LaunchpadError>;

    fn confirm_tickets(&mut self, ctx: &CallContext, payment: &Payment, nr_tickets_to_confirm: usize) -> Result<(), LaunchpadError>
        requires
            old(self).launchpad_wf(),
    ;

    fn claim_launchpad_tokens(&mut self, ctx: &CallContext) -> Result<(Option<Transfer>, Option<Transfer>), LaunchpadError>
        requires
            old(self).launchpad_wf(),
    ;

    fn add_address_to_blacklist(&mut self, ctx: &CallContext, address: Address) -> Result<Option<Transfer>, LaunchpadError>;

    fn remove_address_from_blacklist(&mut self, ctx: &CallContext, address: Address) -> Result<(), LaunchpadError>;

    fn has_user_claimed(&self, address: Address) -> bool;

    fn is_user_blacklisted(&self, address: Address) -> bool;

    fn refund_ticket_payment(&self, address: Address, nr_tickets_to_refund: usize) -> Result<Option<Transfer>, LaunchpadError>;

    fn send_launchpad_tokens(&self, address: Address, nr_claimed_tickets: usize) -> Result<Option<Transfer>, LaunchpadError>;
}

impl EpochLaunchpad {
    /// Creates the launchpad: positive amounts, some winning tickets and stage epochs in
    /// order; no ticket, flag or payment yet, and the caller as the support address.
    pub fn init(
        ctx: &CallContext,
        launchpad_token_id: Vec<u8>,
        launchpad_tokens_per_winning_ticket: u128,
        ticket_payment_token: Vec<u8>,
        ticket_price: u128,
        nr_winning_tickets: usize,
        confirmation_period_start_epoch: u64,
        winner_selection_start_epoch: u64,
        claim_start_epoch: u64,
    ) -> (r: Result<EpochLaunchpad, LaunchpadError>)
        ensures
            ({
                let config = EpochsConfig { confirmation_period_start_epoch, winner_selection_start_epoch, claim_start_epoch };
                &&& r is Err <==> spec_epoch_init_error(launchpad_tokens_per_winning_ticket, ticket_price, nr_winning_tickets, config) is Some
                &&& r matches Err(e) ==> spec_epoch_init_error(launchpad_tokens_per_winning_ticket, ticket_price, nr_winning_tickets, config) == Some(e)
                &&& r matches Ok(s) ==> {
                    &&& s.launchpad_token_id@ == launchpad_token_id@
                    &&& s.launchpad_tokens_per_winning_ticket == launchpad_tokens_per_winning_ticket
                    &&& s.ticket_price.token_id@ == ticket_payment_token@
                    &&& s.ticket_price.amount == ticket_price
                    &&& s.nr_winning_tickets == nr_winning_tickets
                    &&& s.configuration == config
                    &&& s.flags == (Flags { were_tickets_filtered: false, were_winners_selected: false, has_winner_selection_process_started: false })
                    &&& !s.launchpad_tokens_deposited
                    &&& s.claimable_ticket_payment == 0
                    &&& s.support_address == ctx.caller
                    &&& s.last_ticket_id == 0
                    &&& s.ticket_status@.is_empty()
                    &&& s.ticket_batch@.is_empty()
                    &&& s.ticket_range_for_address@.is_empty()
                    &&& s.nr_confirmed_tickets@.is_empty()
                    &&& s.ticket_pos_to_id@.is_empty()
                    &&& s.claimed_tokens@.is_empty()
                    &&& s.blacklisted@.is_empty()
                    &&& s.current_ongoing_operation is Idle
                    &&& s.wf()
                }
            }),
    {
        let mut s = EpochLaunchpad {
            launchpad_token_id,
            launchpad_tokens_per_winning_ticket: 0,
            ticket_price: TokenAmountPair { token_id: Vec::new(), amount: 0 },
            nr_winning_tickets: 0,
            configuration: EpochsConfig { confirmation_period_start_epoch, winner_selection_start_epoch, claim_start_epoch },
            flags: Flags { were_tickets_filtered: false, were_winners_selected: false, has_winner_selection_process_started: false },
            launchpad_tokens_deposited: false,
            claimable_ticket_payment: 0,
            support_address: ctx.caller,
            last_ticket_id: 0,
            ticket_status: HashMap::new(),
            ticket_batch: HashMap::new(),
            ticket_range_for_address: HashMap::new(),
            nr_confirmed_tickets: HashMap::new(),
            ticket_pos_to_id: HashMap::new(),
            claimed_tokens: HashSet::new(),
            blacklisted: HashSet::new(),
            current_ongoing_operation: OngoingOperationType::Idle,
        };
        s.try_set_launchpad_tokens_per_winning_ticket(launchpad_tokens_per_winning_ticket)?;
        s.ticket_price.token_id = ticket_payment_token;
        s.try_set_ticket_price(ticket_price)?;
        s.try_set_nr_winning_tickets(nr_winning_tickets)?;
        s.require_valid_time_periods(None, None, None)?;
        Ok(s)
    }
}

impl Launchpad for EpochLaunchpad {
    open spec fn launchpad_wf(&self) -> bool {
        self.wf()
    }

    /// In the claim stage the owner takes the payment of the winning tickets and the
    /// launchpad tokens beyond what the winning tickets need; `launchpad_tokens_balance`
    /// is what the contract holds of them.
    fn claim_ticket_payment(&mut self, ctx: &CallContext, launchpad_tokens_balance: u128) -> (r: Result<Vec<Transfer>, LaunchpadError>)
        ensures
            r is Ok <==> {
                &&& ctx.caller == ctx.owner
                &&& old(self).stage_at(ctx.block_epoch) == LaunchStage::Claim
                &&& spec_tokens_needed(old(self)) <= launchpad_tokens_balance
            },
            ctx.caller != ctx.owner ==> r == Err::<Vec<Transfer>, _>(LaunchpadError::OnlyOwner),
            ctx.caller == ctx.owner && old(self).stage_at(ctx.block_epoch) != LaunchStage::Claim
                ==> r == Err::<Vec<Transfer>, _>(LaunchpadError::NotInClaimPeriod),
            r matches Ok(transfers) ==> {
                let extra = launchpad_tokens_balance - spec_tokens_needed(old(self));
                let pays = old(self).claimable_ticket_payment > 0;
                &&& *final(self) == (EpochLaunchpad { claimable_ticket_payment: 0, ..*old(self) })
                &&& transfers@.len() == (if pays { 1int } else { 0 }) + (if extra > 0 { 1int } else { 0 })
                &&& pays ==> transfers@[0].to == ctx.caller && transfers@[0].token_id@ == old(self).ticket_price.token_id@
                    && transfers@[0].token_nonce == 0 && transfers@[0].amount == old(self).claimable_ticket_payment
                &&& extra > 0 ==> {
                    let t = transfers@[transfers@.len() - 1];
                    t.to == ctx.caller && t.token_id@ == old(self).launchpad_token_id@ && t.token_nonce == 0 && t.amount == extra
                }
            },
            r is Err ==> *final(self) == *old(self),
    {
        if ctx.caller != ctx.owner {
            return Err(LaunchpadError::OnlyOwner);
        }
        self.require_claim_period(ctx.block_epoch)?;
        let launchpad_tokens_needed = match self.get_exact_launchpad_tokens_needed() {
            Ok(v) => v,
            Err(e) => return Err(e),
        };
        if launchpad_tokens_balance < launchpad_tokens_needed {
            return Err(LaunchpadError::ArithmeticError);
        }
        let owner = ctx.caller;
        let mut transfers: Vec<Transfer> = Vec::new();
        let claimable_ticket_payment = self.claimable_ticket_payment;
        if claimable_ticket_payment > 0 {
            self.claimable_ticket_payment = 0;
            transfers.push(Transfer {
                to: owner,
                token_id: self.ticket_price.token_id.clone(),
                token_nonce: 0,
                amount: claimable_ticket_payment,
            });
        }
        let extra_launchpad_tokens = launchpad_tokens_balance - launchpad_tokens_needed;
        if extra_launchpad_tokens > 0 {
            transfers.push(Transfer {
                to: owner,
                token_id: self.launchpad_token_id.clone(),
                token_nonce: 0,
                amount: extra_launchpad_tokens,
            });
        }
        Ok(transfers)
    }

    /// In the confirmation stage a user pays for some of the user's tickets, in the
    /// ticket payment token and at the ticket price.
    fn confirm_tickets(&mut self, ctx: &CallContext, payment: &Payment, nr_tickets_to_confirm: usize) -> (r: Result<(), LaunchpadError>)
        ensures
            r is Err <==> spec_epoch_confirm_error(old(self), *ctx, payment, nr_tickets_to_confirm) is Some,
            r matches Err(e) ==> spec_epoch_confirm_error(old(self), *ctx, payment, nr_tickets_to_confirm) == Some(e),
            r is Err ==> *final(self) == *old(self),
            r is Ok ==> {
                let total_confirmed = (epoch_confirmed_of(old(self), ctx.caller) + nr_tickets_to_confirm) as usize;
                &&& final(self).nr_confirmed_tickets@ == old(self).nr_confirmed_tickets@.insert(ctx.caller, total_confirmed)
                &&& *final(self) == (EpochLaunchpad { nr_confirmed_tickets: final(self).nr_confirmed_tickets, ..*old(self) })
            },
    {
        self.require_confirmation_period(ctx.block_epoch)?;
        if !self.were_launchpad_tokens_deposited() {
            return Err(LaunchpadError::LaunchpadTokensNotDeposited);
        }
        let caller = ctx.caller;
        if self.is_user_blacklisted(caller) {
            return Err(LaunchpadError::Blacklisted);
        }
        let total_tickets = self.get_total_number_of_tickets_for_address(caller);
        let nr_confirmed = get_by_address(&self.nr_confirmed_tickets, caller, 0);
        if nr_tickets_to_confirm > usize::MAX - nr_confirmed {
            return Err(LaunchpadError::TooManyTicketsConfirmed);
        }
        let total_confirmed = nr_confirmed + nr_tickets_to_confirm;
        if total_confirmed > total_tickets {
            return Err(LaunchpadError::TooManyTicketsConfirmed);
        }
        if !same_bytes(&payment.token_id, &self.ticket_price.token_id) {
            return Err(LaunchpadError::WrongPaymentToken);
        }
        // a price that leaves the integers is no amount that can be sent
        let count = ((nr_tickets_to_confirm as u64) % 0x1_0000_0000) as u128;
        let total_ticket_price = match self.ticket_price.amount.checked_mul(count) {
            Some(p) => p,
            None => return Err(LaunchpadError::WrongAmountSent),
        };
        if payment.amount != total_ticket_price {
            return Err(LaunchpadError::WrongAmountSent);
        }
        self.nr_confirmed_tickets.insert(caller, total_confirmed);
        Ok(())
    }

    /// In the claim stage a user, once, gets the launchpad tokens of the user's winning
    /// tickets and the payment back for the other confirmed ones; the user's tickets
    /// leave the tables and the winning ones leave the count of winning tickets.
    fn claim_launchpad_tokens(&mut self, ctx: &CallContext) -> (r: Result<(Option<Transfer>, Option<Transfer>), LaunchpadError>)
        ensures
            r is Err <==> spec_epoch_claim_error(old(self), *ctx) is Some,
            r matches Err(e) ==> spec_epoch_claim_error(old(self), *ctx) == Some(e),
            r is Err ==> *final(self) == *old(self),
            r matches Ok((refund, tokens)) ==> {
                let caller = ctx.caller;
                let range = old(self).ticket_range_for_address@[caller];
                let ids = epoch_winning_ids_of(old(self), caller);
                let nr = ids.len();
                let nr_refund = (epoch_confirmed_of(old(self), caller) - nr) as usize;
                &&& final(self).ticket_status@ == old(self).ticket_status@.remove_keys(ids.to_set())
                &&& final(self).ticket_pos_to_id@ == old(self).ticket_pos_to_id@.remove_keys(range_ids(range))
                &&& final(self).nr_confirmed_tickets@ == old(self).nr_confirmed_tickets@.remove(caller)
                &&& final(self).ticket_range_for_address@ == old(self).ticket_range_for_address@.remove(caller)
                &&& final(self).ticket_batch@ == old(self).ticket_batch@.remove(range.first_id)
                &&& final(self).claimed_tokens@ == old(self).claimed_tokens@.insert(caller)
                &&& final(self).nr_winning_tickets == old(self).nr_winning_tickets - nr
                &&& *final(self) == (EpochLaunchpad {
                    ticket_status: final(self).ticket_status,
                    ticket_pos_to_id: final(self).ticket_pos_to_id,
                    nr_confirmed_tickets: final(self).nr_confirmed_tickets,
                    ticket_range_for_address: final(self).ticket_range_for_address,
                    ticket_batch: final(self).ticket_batch,
                    claimed_tokens: final(self).claimed_tokens,
                    nr_winning_tickets: final(self).nr_winning_tickets,
                    ..*old(self)
                })
                &&& (refund is Some <==> nr_refund > 0)
                &&& refund matches Some(t) ==> t.to == caller && t.token_id@ == old(self).ticket_price.token_id@
                    && t.token_nonce == 0 && t.amount == spec_refund_u32(old(self), nr_refund)
                &&& (tokens is Some <==> nr > 0)
                &&& tokens matches Some(t) ==> t.to == caller && t.token_id@ == old(self).launchpad_token_id@
                    && t.token_nonce == 0 && t.amount == spec_tokens_u32(old(self), nr as usize)
            },
            final(self).wf(),
    {
        self.require_claim_period(ctx.block_epoch)?;
        let caller = ctx.caller;
        if self.has_user_claimed(caller) {
            return Err(LaunchpadError::AlreadyClaimed);
        }
        let ticket_range = self.try_get_ticket_range(caller)?;
        assert(range_wf(ticket_range));
        let nr_confirmed_tickets = get_by_address(&self.nr_confirmed_tickets, caller, 0);
        let ids = winning_ids_in_table(&self.ticket_status, ticket_range);
        let nr_redeemable_tickets = ids.len();
        if nr_redeemable_tickets > self.nr_winning_tickets || nr_redeemable_tickets > nr_confirmed_tickets {
            return Err(LaunchpadError::ArithmeticError);
        }
        let nr_tickets_to_refund = nr_confirmed_tickets - nr_redeemable_tickets;
        let refund = self.refund_ticket_payment(caller, nr_tickets_to_refund)?;
        let tokens = self.send_launchpad_tokens(caller, nr_redeemable_tickets)?;
        remove_ids(&mut self.ticket_status, &ids);
        clear_range_keys(&mut self.ticket_pos_to_id, ticket_range);
        self.nr_confirmed_tickets.remove(&caller);
        self.ticket_range_for_address.remove(&caller);
        self.ticket_batch.remove(&ticket_range.first_id);
        self.nr_winning_tickets = self.nr_winning_tickets - nr_redeemable_tickets;
        self.claimed_tokens.insert(caller);
        Ok((refund, tokens))
    }

    /// Before winner selection the owner blacklists a user, who is paid back the
    /// confirmed tickets and loses them.
    fn add_address_to_blacklist(&mut self, ctx: &CallContext, address: Address) -> (r: Result<Option<Transfer>, LaunchpadError>)
        ensures
            r is Err <==> spec_epoch_blacklist_error(old(self), *ctx, address) is Some,
            r matches Err(e) ==> spec_epoch_blacklist_error(old(self), *ctx, address) == Some(e),
            r is Err ==> *final(self) == *old(self),
            r matches Ok(refund) ==> {
                let nr = epoch_confirmed_of(old(self), address);
                &&& final(self).blacklisted@ == old(self).blacklisted@.insert(address)
                &&& final(self).nr_confirmed_tickets@ == if nr > 0 {
                    old(self).nr_confirmed_tickets@.remove(address)
                } else {
                    old(self).nr_confirmed_tickets@
                }
                &&& *final(self) == (EpochLaunchpad {
                    blacklisted: final(self).blacklisted,
                    nr_confirmed_tickets: final(self).nr_confirmed_tickets,
                    ..*old(self)
                })
                &&& (refund is Some <==> nr > 0)
                &&& refund matches Some(t) ==> t.to == address && t.token_id@ == old(self).ticket_price.token_id@
                    && t.token_nonce == 0 && t.amount == spec_refund_u32(old(self), nr)
            },
    {
        if ctx.caller != ctx.owner {
            return Err(LaunchpadError::OnlyOwner);
        }
        self.require_before_winner_selection(ctx.block_epoch)?;
        let nr_confirmed_tickets = get_by_address(&self.nr_confirmed_tickets, address, 0);
        let refund = self.refund_ticket_payment(address, nr_confirmed_tickets)?;
        if nr_confirmed_tickets > 0 {
            self.nr_confirmed_tickets.remove(&address);
        }
        self.blacklisted.insert(address);
        Ok(refund)
    }

    /// Before winner selection the owner takes a user off the blacklist.
    fn remove_address_from_blacklist(&mut self, ctx: &CallContext, address: Address) -> (r: Result<(), LaunchpadError>)
        ensures
            r is Ok <==> ctx.caller == ctx.owner
                && stage_index(old(self).stage_at(ctx.block_epoch)) < stage_index(LaunchStage::WinnerSelection),
            ctx.caller != ctx.owner ==> r == Err::<(), _>(LaunchpadError::OnlyOwner),
            ctx.caller == ctx.owner && r is Err ==> r == Err::<(), _>(LaunchpadError::BlacklistOnlyBeforeWinnerSelection),
            r is Err ==> *final(self) == *old(self),
            r is Ok ==> final(self).blacklisted@ == old(self).blacklisted@.remove(address)
                && *final(self) == (EpochLaunchpad { blacklisted: final(self).blacklisted, ..*old(self) }),
    {
        if ctx.caller != ctx.owner {
            return Err(LaunchpadError::OnlyOwner);
        }
        self.require_before_winner_selection(ctx.block_epoch)?;
        self.blacklisted.remove(&address);
        Ok(())
    }

    fn has_user_claimed(&self, address: Address) -> (r: bool)
        ensures
            r == self.claimed_tokens@.contains(address),
    {
        set_contains(&self.claimed_tokens, address)
    }

    fn is_user_blacklisted(&self, address: Address) -> (r: bool)
        ensures
            r == self.blacklisted@.contains(address),
    {
        set_contains(&self.blacklisted, address)
    }

    /// The transfer that pays back tickets, in the ticket payment token; none for no
    /// tickets.
    fn refund_ticket_payment(&self, address: Address, nr_tickets_to_refund: usize) -> (r: Result<Option<Transfer>, LaunchpadError>)
        ensures
            r is Err <==> spec_refund_u32(self, nr_tickets_to_refund) > u128::MAX,
            r is Err ==> r == Err::<Option<Transfer>, _>(LaunchpadError::ArithmeticError),
            r matches Ok(o) ==> (o is None <==> nr_tickets_to_refund == 0),
            r matches Ok(Some(t)) ==> t.to == address && t.token_id@ == self.ticket_price.token_id@ && t.token_nonce == 0
                && t.amount == spec_refund_u32(self, nr_tickets_to_refund),
    {
        let count = ((nr_tickets_to_refund as u64) % 0x1_0000_0000) as u128;
        let amount = match self.ticket_price.amount.checked_mul(count) {
            Some(a) => a,
            None => return Err(LaunchpadError::ArithmeticError),
        };
        if nr_tickets_to_refund == 0 {
            return Ok(None);
        }
        Ok(Some(Transfer { to: address, token_id: self.ticket_price.token_id.clone(), token_nonce: 0, amount }))
    }

    /// The transfer of the launchpad tokens that winning tickets earn; none for no
    /// tickets.
    fn send_launchpad_tokens(&self, address: Address, nr_claimed_tickets: usize) -> (r: Result<Option<Transfer>, LaunchpadError>)
        ensures
            r is Err <==> spec_tokens_u32(self, nr_claimed_tickets) > u128::MAX,
            r is Err ==> r == Err::<Option<Transfer>, _>(LaunchpadError::ArithmeticError),
            r matches Ok(o) ==> (o is None <==> nr_claimed_tickets == 0),
            r matches Ok(Some(t)) ==> t.to == address && t.token_id@ == self.launchpad_token_id@ && t.token_nonce == 0
                && t.amount == spec_tokens_u32(self, nr_claimed_tickets),
    {
        let count = ((nr_claimed_tickets as u64) % 0x1_0000_0000) as u128;
        let amount = match self.launchpad_tokens_per_winning_ticket.checked_mul(count) {
            Some(a) => a,
            None => return Err(LaunchpadError::ArithmeticError),
        };
        if nr_claimed_tickets == 0 {
            return Ok(None);
        }
        Ok(Some(Transfer { to: address, token_id: self.launchpad_token_id.clone(), token_nonce: 0, amount }))
    }
}

} // verus!
