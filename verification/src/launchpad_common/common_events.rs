//! The events that the shared modules log, each stamped with the caller, block and epoch.

use vstd::prelude::*;

use crate::launchpad_common::config::{CallContext, LaunchpadState, Payment};
use crate::launchpad_common::storage::Address;

verus! {

/// Logged when tickets that did not win are paid back.
pub struct RefundTicketPaymentEvent {
    pub user: Address,
    pub block: u64,
    pub epoch: u64,
    pub tickets_refunded: usize,
    pub token_payment: Payment,
}

/// Logged when the owner changes the ticket price.
pub struct SetTicketPriceEvent {
    pub user: Address,
    pub block: u64,
    pub epoch: u64,
    pub ticket_price: Payment,
}

/// Logged when a user confirms tickets.
pub struct ConfirmTicketsEvent {
    pub user: Address,
    pub block: u64,
    pub epoch: u64,
    pub tickets_confirmed: usize,
    pub total_confirmed: usize,
    pub total_tickets: usize,
    pub token_payment: Payment,
}

/// Logged when the filtering of tickets is complete.
pub struct FilterTicketsCompletedEvent {
    pub user: Address,
    pub block: u64,
    pub epoch: u64,
    pub total_tickets_after_filtering: usize,
}

/// Logged when the selection of winners is complete.
pub struct SelectWinnersCompletedEvent {
    pub user: Address,
    pub block: u64,
    pub epoch: u64,
    pub total_winning_tickets: usize,
}

/// Whether an event's stamp is the caller, block nonce and epoch of a call.
pub open spec fn stamped(user: Address, block: u64, epoch: u64, ctx: CallContext) -> bool {
    user == ctx.caller && block == ctx.block_nonce && epoch == ctx.block_epoch
}

/// Building the events that the shared modules log.
pub trait CommonEventsModule {
    fn emit_refund_ticket_payment_event(&self, ctx: &CallContext, tickets_refunded: usize, token_payment: Payment) -> RefundTicketPaymentEvent;

    fn emit_set_ticket_price_event(&self, ctx: &CallContext, ticket_price: Payment) -> SetTicketPriceEvent;

    fn emit_confirm_tickets_event(
        &self,
        ctx: &CallContext,
        tickets_confirmed: usize,
        total_confirmed: usize,
        total_tickets: usize,
        token_payment: Payment,
    ) -> ConfirmTicketsEvent;

    fn emit_filter_tickets_completed_event(&self, ctx: &CallContext, total_tickets_after_filtering: usize) -> FilterTicketsCompletedEvent;

    fn emit_select_winners_completed_event(&self, ctx: &CallContext, total_winning_tickets: usize) -> SelectWinnersCompletedEvent;
}

impl CommonEventsModule for LaunchpadState {
    fn emit_refund_ticket_payment_event(&self, ctx: &CallContext, tickets_refunded: usize, token_payment: Payment) -> (e: RefundTicketPaymentEvent)
        ensures
            stamped(e.user, e.block, e.epoch, *ctx),
            e.tickets_refunded == tickets_refunded,
            e.token_payment == token_payment,
    {
        RefundTicketPaymentEvent {
            user: ctx.caller,
            block: ctx.block_nonce,
            epoch: ctx.block_epoch,
            tickets_refunded,
            token_payment,
        }
    }

    fn emit_set_ticket_price_event(&self, ctx: &CallContext, ticket_price: Payment) -> (e: SetTicketPriceEvent)
        ensures
            stamped(e.user, e.block, e.epoch, *ctx),
            e.ticket_price == ticket_price,
    {
        SetTicketPriceEvent { user: ctx.caller, block: ctx.block_nonce, epoch: ctx.block_epoch, ticket_price }
    }

    fn emit_confirm_tickets_event(
        &self,
        ctx: &CallContext,
        tickets_confirmed: usize,
        total_confirmed: usize,
        total_tickets: usize,
        token_payment: Payment,
    ) -> (e: ConfirmTicketsEvent)
        ensures
            stamped(e.user, e.block, e.epoch, *ctx),
            e.tickets_confirmed == tickets_confirmed,
            e.total_confirmed == total_confirmed,
            e.total_tickets == total_tickets,
            e.token_payment == token_payment,
    {
        ConfirmTicketsEvent {
            user: ctx.caller,
            block: ctx.block_nonce,
            epoch: ctx.block_epoch,
            tickets_confirmed,
            total_confirmed,
            total_tickets,
            token_payment,
        }
    }

    fn emit_filter_tickets_completed_event(&self, ctx: &CallContext, total_tickets_after_filtering: usize) -> (e: FilterTicketsCompletedEvent)
        ensures
            stamped(e.user, e.block, e.epoch, *ctx),
            e.total_tickets_after_filtering == total_tickets_after_filtering,
    {
        FilterTicketsCompletedEvent {
            user: ctx.caller,
            block: ctx.block_nonce,
            epoch: ctx.block_epoch,
            total_tickets_after_filtering,
        }
    }

    fn emit_select_winners_completed_event(&self, ctx: &CallContext, total_winning_tickets: usize) -> (e: SelectWinnersCompletedEvent)
        ensures
            stamped(e.user, e.block, e.epoch, *ctx),
            e.total_winning_tickets == total_winning_tickets,
    {
        SelectWinnersCompletedEvent {
            user: ctx.caller,
            block: ctx.block_nonce,
            epoch: ctx.block_epoch,
            total_winning_tickets,
        }
    }
}

} // verus!
