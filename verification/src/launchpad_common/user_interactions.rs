//! What users do: confirm (pay for) tickets, then claim a refund for the tickets that
//! did not win and launchpad tokens for those that did.

use std::collections::HashMap;
use vstd::prelude::*;

use crate::launchpad_common::blacklist::{confirmed_of, spec_confirmed_after_blacklist, BlacklistModule};
use crate::launchpad_common::common_events::{stamped, CommonEventsModule, ConfirmTicketsEvent};
use crate::launchpad_common::config::{CallContext, LaunchpadState, Payment, Transfer};
use crate::launchpad_common::errors::LaunchpadError;
use crate::launchpad_common::launch_stage::{LaunchStage, LaunchStageModule};
use crate::launchpad_common::storage::{get_by_address, get_by_index, same_bytes, stored_or, Address};
use crate::launchpad_common::tickets::{range_wf, TicketRange, TicketsModule, WINNING_TICKET};
use crate::launchpad_common::token_send::{spec_launchpad_tokens_for, spec_refund_amount, TokenSendModule};

verus! {

broadcast use vstd::std_specs::hash::group_hash_axioms;

/// How far a user has claimed.
#[derive(Debug, Clone, Copy, PartialEq, Eq, Structural)]
pub enum ClaimType {
    NotClaimed,
    RefundedTickets,
    All,
}

/// The winning tickets of a user, found while paying back the others.
pub struct ClaimRefundedTicketsResultType {
    pub winning_ticket_ids: Vec<usize>,
}

/// What a full claim hands out: the refund and the launchpad tokens to send.
pub struct ClaimResult {
    pub refund: Option<Transfer>,
    pub launchpad_tokens: Option<Payment>,
}

/// The winning ids among `first..=last`, in increasing order.
pub open spec fn spec_winning_ids(status: Map<usize, bool>, first: int, last: int) -> Seq<usize>
    decreases last - first + 1,
{
    if last < first {
        seq![]
    } else {
        let prev = spec_winning_ids(status, first, last - 1);
        if stored_or(status, last as usize, false) {
            prev.push(last as usize)
        } else {
            prev
        }
    }
}

/// The ids of a range, as a set.
pub open spec fn range_ids(r: TicketRange) -> Set<usize> {
    Set::new(|id: usize| r.first_id <= id <= r.last_id)
}

/// The winning ids among a range of a status table, in increasing order.
pub fn winning_ids_in_table(status: &HashMap<usize, bool>, ticket_range: TicketRange) -> (ids: Vec<usize>)
    requires
        range_wf(ticket_range),
    ensures
        ids@ == spec_winning_ids(status@, ticket_range.first_id as int, ticket_range.last_id as int),
{
    let mut ids: Vec<usize> = Vec::new();
    let mut id = ticket_range.first_id;
    while id <= ticket_range.last_id
        invariant
            range_wf(ticket_range),
            ticket_range.first_id <= id <= ticket_range.last_id + 1,
            ids@ == spec_winning_ids(status@, ticket_range.first_id as int, id - 1),
        decreases ticket_range.last_id + 1 - id,
    {
        let st = get_by_index(status, id, false);
        if st == WINNING_TICKET {
            ids.push(id);
        }
        id = id + 1;
    }
    ids
}

/// Removes the ids of a range from a position table.
pub fn clear_range_keys(pos_map: &mut HashMap<usize, usize>, ticket_range: TicketRange)
    requires
        range_wf(ticket_range),
    ensures
        final(pos_map)@ == old(pos_map)@.remove_keys(range_ids(ticket_range)),
{
    let ghost old_map = pos_map@;
    let mut id = ticket_range.first_id;
    while id <= ticket_range.last_id
        invariant
            range_wf(ticket_range),
            ticket_range.first_id <= id <= ticket_range.last_id + 1,
            pos_map@ == old_map.remove_keys(Set::new(|i: usize| ticket_range.first_id <= i < id)),
        decreases ticket_range.last_id + 1 - id,
    {
        pos_map.remove(&id);
        id = id + 1;
        assert(pos_map@ =~= old_map.remove_keys(Set::new(|i: usize| ticket_range.first_id <= i < id)));
    }
    assert(Set::new(|i: usize| ticket_range.first_id <= i < id) =~= range_ids(ticket_range));
}

/// Removes a list of ids from a status table.
pub fn remove_ids(status: &mut HashMap<usize, bool>, ids: &Vec<usize>)
    ensures
        final(status)@ == old(status)@.remove_keys(ids@.to_set()),
{
    let ghost old_map = status@;
    let n = ids.len();
    let mut i: usize = 0;
    while i < n
        invariant
            n == ids@.len(),
            i <= n,
            status@ == old_map.remove_keys(ids@.take(i as int).to_set()),
        decreases n - i,
    {
        let ghost prefix = ids@.take(i as int);
        let id = ids[i];
        status.remove(&id);
        i = i + 1;
        proof {
            let pk = ids@.take(i as int);
            assert forall|a: usize| pk.to_set().contains(a) <==> (prefix.to_set().contains(a) || a == id) by {
                if pk.contains(a) && a != id {
                    let j = choose|j: int| 0 <= j < pk.len() && pk[j] == a;
                    assert(prefix[j] == a);
                }
                if prefix.contains(a) {
                    let j = choose|j: int| 0 <= j < prefix.len() && prefix[j] == a;
                    assert(pk[j] == a);
                }
                if a == id {
                    assert(pk[i - 1] == a);
                }
            }
            assert(status@ =~= old_map.remove_keys(pk.to_set()));
        }
    }
    assert(ids@.take(n as int) =~= ids@);
}

/// Users confirming and claiming.
pub trait UserInteractionsModule: TicketsModule {
    fn confirm_tickets(&mut self, ctx: &CallContext, payment: Payment, nr_tickets_to_confirm: usize) -> Result<ConfirmTicketsEvent, LaunchpadError>
        requires
            old(self).tickets_wf(),
    ;

    fn claim_refunded_tickets_and_launchpad_tokens(&mut self, ctx: &CallContext) -> Result<ClaimResult, LaunchpadError>
        requires
            old(self).tickets_wf(),
    ;

    fn claim_refunded_tickets(&mut self, ctx: &CallContext) -> Result<(ClaimRefundedTicketsResultType, Option<Transfer>), LaunchpadError>
        requires
            old(self).tickets_wf(),
    ;

    fn claim_launchpad_tokens(&mut self, ctx: &CallContext, winning_ticket_ids: &Vec<usize>) -> Result<Option<Payment>, LaunchpadError>;

    fn get_winning_ticket_ids(&mut self, ticket_range: TicketRange) -> Vec<usize>
        requires
            range_wf(ticket_range),
    ;

    fn get_claim_type_for_user(&self, user: Address) -> ClaimType;
}

impl LaunchpadState {
    /// How far a user has claimed.
    pub open spec fn claim_type_of(&self, a: Address) -> ClaimType {
        stored_or(self.claimed_tokens@, a, ClaimType::NotClaimed)
    }

    /// The winning ids in a user's range.
    pub open spec fn winning_ids_of(&self, r: TicketRange) -> Seq<usize> {
        spec_winning_ids(self.ticket_status@, r.first_id as int, r.last_id as int)
    }

    /// The winning ids among a range, read without changing anything.
    pub fn winning_ticket_ids_in(&self, ticket_range: TicketRange) -> (ids: Vec<usize>)
        requires
            range_wf(ticket_range),
        ensures
            ids@ == self.winning_ids_of(ticket_range),
    {
        winning_ids_in_table(&self.ticket_status, ticket_range)
    }

    /// Forgets where the shuffle moved the tickets of a range.
    pub fn clear_positions(&mut self, ticket_range: TicketRange)
        requires
            range_wf(ticket_range),
        ensures
            final(self).ticket_pos_to_id@ == old(self).ticket_pos_to_id@.remove_keys(range_ids(ticket_range)),
            *final(self) == (LaunchpadState { ticket_pos_to_id: final(self).ticket_pos_to_id, ..*old(self) }),
    {
        clear_range_keys(&mut self.ticket_pos_to_id, ticket_range);
    }

    /// Whether a full claim can go through for the caller.
    pub open spec fn can_claim_all(&self, ctx: CallContext) -> bool {
        let caller = ctx.caller;
        let range = self.ticket_range_for_address@[caller];
        let nr = self.winning_ids_of(range).len();
        &&& self.flags.were_winners_selected && self.flags.was_additional_step_completed
        &&& self.ticket_range_for_address@.contains_key(caller)
        &&& self.claim_type_of(caller) != ClaimType::All
        &&& self.stage_at(ctx.block_round) == LaunchStage::Claim
        &&& self.claim_type_of(caller) == ClaimType::NotClaimed ==> {
            &&& nr <= self.nr_winning_tickets
            &&& nr <= confirmed_of(self, caller)
            &&& spec_refund_amount(self, (confirmed_of(self, caller) - nr) as usize) <= u128::MAX
        }
        &&& spec_launchpad_tokens_for(self, nr as usize) <= u128::MAX
    }
}

/// What a full claim changes in storage: the caller's winning tickets, positions, range,
/// batch and confirmations are gone, the claim is recorded, and on the first claim the
/// winning tickets leave the count of those still to be claimed.
pub open spec fn spec_claim_all_state(s0: &LaunchpadState, s1: &LaunchpadState, ctx: CallContext) -> bool {
    let caller = ctx.caller;
    let range = s0.ticket_range_for_address@[caller];
    let ids = s0.winning_ids_of(range);
    let nr = ids.len();
    let first_claim = s0.claim_type_of(caller) == ClaimType::NotClaimed;
    &&& s1.ticket_status@ =~= s0.ticket_status@.remove_keys(ids.to_set())
    &&& s1.ticket_pos_to_id@ =~= s0.ticket_pos_to_id@.remove_keys(range_ids(range))
    &&& s1.nr_confirmed_tickets@ =~= s0.nr_confirmed_tickets@.remove(caller)
    &&& s1.ticket_range_for_address@ =~= s0.ticket_range_for_address@.remove(caller)
    &&& s1.ticket_batch@ =~= s0.ticket_batch@.remove(range.first_id)
    &&& s1.claimed_tokens@ =~= s0.claimed_tokens@.insert(caller, ClaimType::All)
    &&& s1.nr_winning_tickets == if first_claim { s0.nr_winning_tickets - nr } else { s0.nr_winning_tickets as int }
    &&& *s1 == (LaunchpadState {
        ticket_status: s1.ticket_status,
        ticket_pos_to_id: s1.ticket_pos_to_id,
        nr_confirmed_tickets: s1.nr_confirmed_tickets,
        ticket_range_for_address: s1.ticket_range_for_address,
        ticket_batch: s1.ticket_batch,
        claimed_tokens: s1.claimed_tokens,
        nr_winning_tickets: s1.nr_winning_tickets,
        ..*s0
    })
}

/// The refund of a full claim: on the first claim, the confirmed tickets that did not
/// win are paid back to the caller.
pub open spec fn spec_claim_refund(s0: &LaunchpadState, ctx: CallContext, refund: Option<Transfer>) -> bool {
    let caller = ctx.caller;
    let nr = s0.winning_ids_of(s0.ticket_range_for_address@[caller]).len();
    let first_claim = s0.claim_type_of(caller) == ClaimType::NotClaimed;
    &&& (refund is Some <==> first_claim && confirmed_of(s0, caller) > nr)
    &&& refund matches Some(t) ==> t.to == caller && t.token_id@ == s0.ticket_price.token_id@
        && t.token_nonce == 0 && t.amount == spec_refund_amount(s0, (confirmed_of(s0, caller) - nr) as usize)
}

/// What a full claim changes and hands out: the storage changes, the refund, and the
/// launchpad tokens of the winning tickets.
pub open spec fn spec_claimed_all(s0: &LaunchpadState, s1: &LaunchpadState, ctx: CallContext, res: ClaimResult) -> bool {
    let nr = s0.winning_ids_of(s0.ticket_range_for_address@[ctx.caller]).len();
    &&& spec_claim_all_state(s0, s1, ctx)
    &&& spec_claim_refund(s0, ctx, res.refund)
    &&& (res.launchpad_tokens is Some <==> nr > 0)
    &&& res.launchpad_tokens matches Some(p) ==> p.token_id@ == s0.launchpad_token_id@
        && p.token_nonce == 0 && p.amount == spec_launchpad_tokens_for(s0, nr as usize)
}

/// Why a full claim is refused: the first check that fails.
pub open spec fn spec_claim_all_error(s: &LaunchpadState, ctx: CallContext) -> LaunchpadError {
    if !(s.flags.were_winners_selected && s.flags.was_additional_step_completed) {
        LaunchpadError::NotInClaimPeriod
    } else if !s.ticket_range_for_address@.contains_key(ctx.caller) {
        LaunchpadError::NoTickets
    } else if s.claim_type_of(ctx.caller) == ClaimType::All {
        LaunchpadError::AlreadyClaimed
    } else if s.stage_at(ctx.block_round) != LaunchStage::Claim {
        LaunchpadError::NotInClaimPeriod
    } else {
        LaunchpadError::ArithmeticError
    }
}

/// A user claims once: after a full claim the caller holds no tickets any more, so a
/// second claim by the same caller is refused for want of tickets.
pub proof fn lemma_claim_all_only_once(s0: &LaunchpadState, s1: &LaunchpadState, ctx: CallContext, res: ClaimResult)
    requires
        s0.can_claim_all(ctx),
        spec_claimed_all(s0, s1, ctx, res),
    ensures
        !s1.can_claim_all(ctx),
        spec_claim_all_error(s1, ctx) == LaunchpadError::NoTickets,
{
    assert(!s1.ticket_range_for_address@.contains_key(ctx.caller));
}

/// Why a confirmation is refused, checked in this order: the contract is paused, it is
/// not the confirmation period, the launchpad tokens are not deposited, the caller is
/// blacklisted, the caller would confirm more tickets than it holds, the payment is in
/// another token, or it is not the price of the tickets.  `None` where it goes through.
pub open spec fn spec_confirm_error(s: &LaunchpadState, ctx: CallContext, payment: Payment, n: usize) -> Option<LaunchpadError> {
    let caller = ctx.caller;
    if s.paused {
        Some(LaunchpadError::ContractPaused)
    } else if s.stage_at(ctx.block_round) != LaunchStage::Confirm {
        Some(LaunchpadError::NotInConfirmationPeriod)
    } else if !s.launchpad_tokens_deposited {
        Some(LaunchpadError::LaunchpadTokensNotDeposited)
    } else if s.blacklist@.contains(caller) {
        Some(LaunchpadError::Blacklisted)
    } else if confirmed_of(s, caller) + n > s.total_tickets_of(caller) {
        Some(LaunchpadError::TooManyTicketsConfirmed)
    } else if payment.token_id@ != s.ticket_price.token_id@ {
        Some(LaunchpadError::WrongPaymentToken)
    } else if payment.amount != s.ticket_price.amount * n {
        Some(LaunchpadError::WrongAmountSent)
    } else {
        None
    }
}

/// A user taken off the blacklist may confirm again, from nothing: when a user was
/// blacklisted (`s0` to `s1`) and taken off the blacklist (`s1` to `s2`), the user is no
/// longer blacklisted, the confirmations paid back by the blacklisting stay gone, and in
/// the confirmation period, once the tokens are deposited, a confirmation of at most
/// the user's tickets paid at the ticket price goes through.
pub proof fn lemma_unblacklisted_user_may_confirm_again(
    s0: LaunchpadState,
    s1: LaunchpadState,
    s2: LaunchpadState,
    ctx: CallContext,
    payment: Payment,
    n: usize,
)
    requires
        s1.blacklist@ == s0.blacklist@.union(seq![ctx.caller].to_set()),
        s1.nr_confirmed_tickets@ == spec_confirmed_after_blacklist(s0.nr_confirmed_tickets@, seq![ctx.caller]),
        s1 == (LaunchpadState { blacklist: s1.blacklist, nr_confirmed_tickets: s1.nr_confirmed_tickets, ..s0 }),
        s2.blacklist@ == s1.blacklist@.difference(seq![ctx.caller].to_set()),
        s2 == (LaunchpadState { blacklist: s2.blacklist, ..s1 }),
    ensures
        !s2.blacklist@.contains(ctx.caller),
        s2.blacklist@ == s0.blacklist@.remove(ctx.caller),
        confirmed_of(&s2, ctx.caller) == 0,
        !s2.paused && s2.stage_at(ctx.block_round) == LaunchStage::Confirm && s2.launchpad_tokens_deposited
            && n <= s2.total_tickets_of(ctx.caller)
            && payment.token_id@ == s2.ticket_price.token_id@ && payment.amount == s2.ticket_price.amount * n
            ==> spec_confirm_error(&s2, ctx, payment, n) is None,
{
    let u = ctx.caller;
    assert(seq![u].contains(u)) by {
        assert(seq![u][0] == u);
    }
    assert(seq![u].to_set() =~= set![u]) by {
        assert forall|a: Address| seq![u].contains(a) implies a == u by {
            let i = choose|i: int| 0 <= i < seq![u].len() && seq![u][i] == a;
        }
    }
    assert(s2.blacklist@ =~= s0.blacklist@.remove(u));
}

impl UserInteractionsModule for LaunchpadState {
    fn confirm_tickets(&mut self, ctx: &CallContext, payment: Payment, nr_tickets_to_confirm: usize) -> (r: Result<ConfirmTicketsEvent, LaunchpadError>)
        ensures
            r is Ok <==> {
                let caller = ctx.caller;
                let total_confirmed = confirmed_of(old(self), caller) + nr_tickets_to_confirm;
                &&& !old(self).paused
                &&& old(self).stage_at(ctx.block_round) == LaunchStage::Confirm
                &&& old(self).launchpad_tokens_deposited
                &&& !old(self).blacklist@.contains(caller)
                &&& total_confirmed <= old(self).total_tickets_of(caller)
                &&& payment.token_id@ == old(self).ticket_price.token_id@
                &&& payment.amount == old(self).ticket_price.amount * nr_tickets_to_confirm
            },
            old(self).paused ==> r == Err::<ConfirmTicketsEvent, _>(LaunchpadError::ContractPaused),
            r is Ok <==> spec_confirm_error(old(self), *ctx, payment, nr_tickets_to_confirm) is None,
            r matches Err(e) ==> spec_confirm_error(old(self), *ctx, payment, nr_tickets_to_confirm) == Some(e),
            r matches Ok(e) ==> {
                let caller = ctx.caller;
                let total_confirmed = (confirmed_of(old(self), caller) + nr_tickets_to_confirm) as usize;
                &&& final(self).nr_confirmed_tickets@ == old(self).nr_confirmed_tickets@.insert(caller, total_confirmed)
                &&& *final(self) == (LaunchpadState { nr_confirmed_tickets: final(self).nr_confirmed_tickets, ..*old(self) })
                &&& stamped(e.user, e.block, e.epoch, *ctx)
                &&& e.tickets_confirmed == nr_tickets_to_confirm
                &&& e.total_confirmed == total_confirmed
                &&& e.total_tickets == old(self).total_tickets_of(caller)
                &&& e.token_payment == payment
            },
            r is Err ==> *final(self) == *old(self),
    {
        if self.paused {
            return Err(LaunchpadError::ContractPaused);
        }
        self.require_confirmation_period(ctx.block_round)?;
        if !self.launchpad_tokens_deposited {
            return Err(LaunchpadError::LaunchpadTokensNotDeposited);
        }
        let caller = ctx.caller;
        if self.is_user_blacklisted(caller) {
            return Err(LaunchpadError::Blacklisted);
        }
        let total_tickets = self.get_total_number_of_tickets_for_address(caller);
        let nr_confirmed = get_by_address(&self.nr_confirmed_tickets, caller, 0);
        if nr_tickets_to_confirm > usize::MAX - nr_confirmed {
            return Err(LaunchpadError::TooManyTicketsConfirmed);
        }
        let total_confirmed = nr_confirmed + nr_tickets_to_confirm;
        if total_confirmed > total_tickets {
            return Err(LaunchpadError::TooManyTicketsConfirmed);
        }
        if !same_bytes(&payment.token_id, &self.ticket_price.token_id) {
            return Err(LaunchpadError::WrongPaymentToken);
        }
        // a price that leaves the integers is no amount that can be sent
        let total_ticket_price = match self.ticket_price.amount.checked_mul(nr_tickets_to_confirm as u128) {
            Some(p) => p,
            None => return Err(LaunchpadError::WrongAmountSent),
        };
        if payment.amount != total_ticket_price {
            return Err(LaunchpadError::WrongAmountSent);
        }
        self.nr_confirmed_tickets.insert(caller, total_confirmed);
        Ok(self.emit_confirm_tickets_event(ctx, nr_tickets_to_confirm, total_confirmed, total_tickets, payment))
    }

    fn claim_refunded_tickets_and_launchpad_tokens(&mut self, ctx: &CallContext) -> (r: Result<ClaimResult, LaunchpadError>)
        ensures
            r is Ok <==> old(self).can_claim_all(*ctx),
            r matches Ok(res) ==> spec_claimed_all(old(self), final(self), *ctx, res),
            r matches Err(e) ==> e == spec_claim_all_error(old(self), *ctx),
            r is Err ==> *final(self) == *old(self),
    {
        let flags = self.flags;
        if !(flags.were_winners_selected && flags.was_additional_step_completed) {
            return Err(LaunchpadError::NotInClaimPeriod);
        }
        let caller = ctx.caller;
        let range = self.try_get_ticket_range(caller)?;
        let claim_status = get_by_address(&self.claimed_tokens, caller, ClaimType::NotClaimed);
        if claim_status == ClaimType::All {
            return Err(LaunchpadError::AlreadyClaimed);
        }
        // the claim step below can no longer refuse once the period and the token amount are checked
        self.require_claim_period(ctx.block_round)?;
        let ids = self.winning_ticket_ids_in(range);
        let _ = match self.send_launchpad_tokens(ids.len()) {
            Ok(p) => p,
            Err(e) => return Err(e),
        };
        let (result, refund) = self.claim_refunded_tickets(ctx)?;
        let launchpad_tokens = match self.claim_launchpad_tokens(ctx, &result.winning_ticket_ids) {
            Ok(p) => p,
            Err(e) => {
                assert(false);
                return Err(e);
            },
        };
        Ok(ClaimResult { refund, launchpad_tokens })
    }

    fn claim_refunded_tickets(&mut self, ctx: &CallContext) -> (r: Result<(ClaimRefundedTicketsResultType, Option<Transfer>), LaunchpadError>)
        ensures
            r is Ok <==> {
                let caller = ctx.caller;
                let range = old(self).ticket_range_for_address@[caller];
                let nr = old(self).winning_ids_of(range).len();
                &&& old(self).flags.were_winners_selected && old(self).flags.was_additional_step_completed
                &&& old(self).ticket_range_for_address@.contains_key(caller)
                &&& old(self).claim_type_of(caller) != ClaimType::All
                &&& old(self).claim_type_of(caller) == ClaimType::NotClaimed ==> {
                    &&& nr <= old(self).nr_winning_tickets
                    &&& nr <= confirmed_of(old(self), caller)
                    &&& spec_refund_amount(old(self), (confirmed_of(old(self), caller) - nr) as usize) <= u128::MAX
                }
            },
            r matches Ok((res, refund)) ==> {
                let caller = ctx.caller;
                let range = old(self).ticket_range_for_address@[caller];
                let ids = old(self).winning_ids_of(range);
                let nr = ids.len();
                let first_claim = old(self).claim_type_of(caller) == ClaimType::NotClaimed;
                &&& res.winning_ticket_ids@ == ids
                &&& final(self).ticket_pos_to_id@ == old(self).ticket_pos_to_id@.remove_keys(range_ids(range))
                &&& first_claim ==> final(self).nr_winning_tickets == old(self).nr_winning_tickets - nr
                &&& first_claim ==> final(self).claimed_tokens@ == old(self).claimed_tokens@.insert(caller, ClaimType::RefundedTickets)
                &&& !first_claim ==> final(self).nr_winning_tickets == old(self).nr_winning_tickets
                &&& !first_claim ==> final(self).claimed_tokens == old(self).claimed_tokens
                &&& *final(self) == (LaunchpadState {
                    ticket_pos_to_id: final(self).ticket_pos_to_id,
                    claimed_tokens: final(self).claimed_tokens,
                    nr_winning_tickets: final(self).nr_winning_tickets,
                    ..*old(self)
                })
                &&& (refund is Some <==> first_claim && confirmed_of(old(self), caller) > nr)
                &&& refund matches Some(t) ==> t.to == caller && t.token_id@ == old(self).ticket_price.token_id@
                    && t.token_nonce == 0 && t.amount == spec_refund_amount(old(self), (confirmed_of(old(self), caller) - nr) as usize)
            },
            r matches Err(e) ==> e == if !(old(self).flags.were_winners_selected && old(self).flags.was_additional_step_completed) {
                LaunchpadError::NotInClaimPeriod
            } else if !old(self).ticket_range_for_address@.contains_key(ctx.caller) {
                LaunchpadError::NoTickets
            } else if old(self).claim_type_of(ctx.caller) == ClaimType::All {
                LaunchpadError::AlreadyClaimed
            } else {
                LaunchpadError::ArithmeticError
            },
            r is Err ==> *final(self) == *old(self),
    {
        let flags = self.flags;
        if !(flags.were_winners_selected && flags.was_additional_step_completed) {
            return Err(LaunchpadError::NotInClaimPeriod);
        }
        let caller = ctx.caller;
        let range = self.try_get_ticket_range(caller)?;
        assert(range_wf(range));
        let ids = self.winning_ticket_ids_in(range);
        let claim_status = get_by_address(&self.claimed_tokens, caller, ClaimType::NotClaimed);
        match claim_status {
            ClaimType::NotClaimed => {},
            ClaimType::RefundedTickets => {
                self.clear_positions(range);
                return Ok((ClaimRefundedTicketsResultType { winning_ticket_ids: ids }, None));
            },
            ClaimType::All => {
                return Err(LaunchpadError::AlreadyClaimed);
            },
        }
        let nr_redeemable_tickets = ids.len();
        if nr_redeemable_tickets > self.nr_winning_tickets {
            return Err(LaunchpadError::ArithmeticError);
        }
        let nr_confirmed_tickets = get_by_address(&self.nr_confirmed_tickets, caller, 0);
        if nr_redeemable_tickets > nr_confirmed_tickets {
            return Err(LaunchpadError::ArithmeticError);
        }
        let nr_tickets_to_refund = nr_confirmed_tickets - nr_redeemable_tickets;
        let refund = self.refund_ticket_payment(caller, nr_tickets_to_refund)?;
        self.clear_positions(range);
        self.nr_winning_tickets = self.nr_winning_tickets - nr_redeemable_tickets;
        self.claimed_tokens.insert(caller, ClaimType::RefundedTickets);
        Ok((ClaimRefundedTicketsResultType { winning_ticket_ids: ids }, refund))
    }

    fn claim_launchpad_tokens(&mut self, ctx: &CallContext, winning_ticket_ids: &Vec<usize>) -> (r: Result<Option<Payment>, LaunchpadError>)
        ensures
            r is Ok <==> {
                &&& old(self).stage_at(ctx.block_round) == LaunchStage::Claim
                &&& old(self).ticket_range_for_address@.contains_key(ctx.caller)
                &&& spec_launchpad_tokens_for(old(self), winning_ticket_ids@.len() as usize) <= u128::MAX
            },
            r matches Ok(payment) ==> {
                let caller = ctx.caller;
                let range = old(self).ticket_range_for_address@[caller];
                &&& final(self).ticket_status@ == old(self).ticket_status@.remove_keys(winning_ticket_ids@.to_set())
                &&& final(self).nr_confirmed_tickets@ == old(self).nr_confirmed_tickets@.remove(caller)
                &&& final(self).ticket_range_for_address@ == old(self).ticket_range_for_address@.remove(caller)
                &&& final(self).ticket_batch@ == old(self).ticket_batch@.remove(range.first_id)
                &&& final(self).claimed_tokens@ == old(self).claimed_tokens@.insert(caller, ClaimType::All)
                &&& *final(self) == (LaunchpadState {
                    ticket_status: final(self).ticket_status,
                    nr_confirmed_tickets: final(self).nr_confirmed_tickets,
                    ticket_range_for_address: final(self).ticket_range_for_address,
                    ticket_batch: final(self).ticket_batch,
                    claimed_tokens: final(self).claimed_tokens,
                    ..*old(self)
                })
                &&& (payment is Some <==> winning_ticket_ids@.len() > 0)
                &&& payment matches Some(p) ==> p.token_id@ == old(self).launchpad_token_id@
                    && p.token_nonce == 0 && p.amount == spec_launchpad_tokens_for(old(self), winning_ticket_ids@.len() as usize)
            },
            r matches Err(e) ==> e == if old(self).stage_at(ctx.block_round) != LaunchStage::Claim {
                LaunchpadError::NotInClaimPeriod
            } else if !old(self).ticket_range_for_address@.contains_key(ctx.caller) {
                LaunchpadError::NoTickets
            } else {
                LaunchpadError::ArithmeticError
            },
            r is Err ==> *final(self) == *old(self),
    {
        self.require_claim_period(ctx.block_round)?;
        let caller = ctx.caller;
        let range = self.try_get_ticket_range(caller)?;
        let payment = self.send_launchpad_tokens(winning_ticket_ids.len())?;
        remove_ids(&mut self.ticket_status, winning_ticket_ids);
        self.nr_confirmed_tickets.remove(&caller);
        self.ticket_range_for_address.remove(&caller);
        self.ticket_batch.remove(&range.first_id);
        self.claimed_tokens.insert(caller, ClaimType::All);
        Ok(payment)
    }

    fn get_winning_ticket_ids(&mut self, ticket_range: TicketRange) -> (ids: Vec<usize>)
        ensures
            ids@ == old(self).winning_ids_of(ticket_range),
            final(self).ticket_pos_to_id@ == old(self).ticket_pos_to_id@.remove_keys(range_ids(ticket_range)),
            *final(self) == (LaunchpadState { ticket_pos_to_id: final(self).ticket_pos_to_id, ..*old(self) }),
    {
        let ids = self.winning_ticket_ids_in(ticket_range);
        self.clear_positions(ticket_range);
        ids
    }

    fn get_claim_type_for_user(&self, user: Address) -> (r: ClaimType)
        ensures
            r == self.claim_type_of(user),
    {
        get_by_address(&self.claimed_tokens, user, ClaimType::NotClaimed)
    }
}

} // verus!
