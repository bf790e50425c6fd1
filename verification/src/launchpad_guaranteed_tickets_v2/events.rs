//! The events of a launchpad with guaranteed tickets, each stamped with the caller,
//! block and epoch.

use vstd::prelude::*;

use crate::launchpad_common::common_events::stamped;
use crate::launchpad_common::config::{CallContext, Payment};
use crate::launchpad_common::storage::Address;
use crate::launchpad_guaranteed_tickets_v2::state::GuaranteedTicketsLaunchpad;
use crate::launchpad_guaranteed_tickets_v2::token_release::UnlockMilestone;

verus! {

/// Logged when a user claims launchpad tokens.
pub struct ClaimLaunchpadTokensEvent {
    pub user: Address,
    pub block: u64,
    pub epoch: u64,
    pub token_payment: Payment,
}

/// Logged when users are blacklisted.
pub struct AddUsersToBlacklistEvent {
    pub admin: Address,
    pub block: u64,
    pub epoch: u64,
    pub users: Vec<Address>,
}

/// Logged when users with guaranteed tickets leave the blacklist.
pub struct RemoveGuaranteedUsersFromBlacklistEvent {
    pub admin: Address,
    pub block: u64,
    pub epoch: u64,
    pub users: Vec<Address>,
}

/// Logged when the owner sets the unlock schedule.
pub struct SetUnlockScheduleEvent {
    pub admin: Address,
    pub block: u64,
    pub epoch: u64,
    pub milestones: Vec<UnlockMilestone>,
}

/// Logged when tickets are added.
pub struct AddTicketsEvent {
    pub admin: Address,
    pub block: u64,
    pub epoch: u64,
    pub users_count: usize,
    pub total_tickets_added: usize,
    pub total_guaranteed_tickets_added: usize,
}

/// Logged when the guaranteed tickets are distributed.
pub struct DistributeGuaranteedTicketsCompletedEvent {
    pub admin: Address,
    pub block: u64,
    pub epoch: u64,
    pub total_additional_winning_tickets: usize,
}

/// Building the events of a launchpad with guaranteed tickets.
pub trait EventsModule {
    fn emit_claim_launchpad_tokens_event(&self, ctx: &CallContext, token_payment: Payment) -> ClaimLaunchpadTokensEvent;

    fn emit_add_users_to_blacklist_event(&self, ctx: &CallContext, users: Vec<Address>) -> AddUsersToBlacklistEvent;

    fn emit_remove_guaranteed_users_from_blacklist_event(&self, ctx: &CallContext, users: Vec<Address>) -> RemoveGuaranteedUsersFromBlacklistEvent;

    fn emit_set_unlock_schedule_event(&self, ctx: &CallContext, milestones: Vec<UnlockMilestone>) -> SetUnlockScheduleEvent;

    fn emit_add_tickets_event(
        &self,
        ctx: &CallContext,
        users_count: usize,
        total_tickets_added: usize,
        total_guaranteed_tickets_added: usize,
    ) -> AddTicketsEvent;

    fn emit_distribute_guaranteed_tickets_completed_event(&self, ctx: &CallContext, total_additional_winning_tickets: usize) -> DistributeGuaranteedTicketsCompletedEvent;
}

impl EventsModule for GuaranteedTicketsLaunchpad {
    fn emit_claim_launchpad_tokens_event(&self, ctx: &CallContext, token_payment: Payment) -> (e: ClaimLaunchpadTokensEvent)
        ensures
            stamped(e.user, e.block, e.epoch, *ctx),
            e.token_payment == token_payment,
    {
        ClaimLaunchpadTokensEvent { user: ctx.caller, block: ctx.block_nonce, epoch: ctx.block_epoch, token_payment }
    }

    fn emit_add_users_to_blacklist_event(&self, ctx: &CallContext, users: Vec<Address>) -> (e: AddUsersToBlacklistEvent)
        ensures
            stamped(e.admin, e.block, e.epoch, *ctx),
            e.users == users,
    {
        AddUsersToBlacklistEvent { admin: ctx.caller, block: ctx.block_nonce, epoch: ctx.block_epoch, users }
    }

    fn emit_remove_guaranteed_users_from_blacklist_event(&self, ctx: &CallContext, users: Vec<Address>) -> (e: RemoveGuaranteedUsersFromBlacklistEvent)
        ensures
            stamped(e.admin, e.block, e.epoch, *ctx),
            e.users == users,
    {
        RemoveGuaranteedUsersFromBlacklistEvent { admin: ctx.caller, block: ctx.block_nonce, epoch: ctx.block_epoch, users }
    }

    fn emit_set_unlock_schedule_event(&self, ctx: &CallContext, milestones: Vec<UnlockMilestone>) -> (e: SetUnlockScheduleEvent)
        ensures
            stamped(e.admin, e.block, e.epoch, *ctx),
            e.milestones == milestones,
    {
        SetUnlockScheduleEvent { admin: ctx.caller, block: ctx.block_nonce, epoch: ctx.block_epoch, milestones }
    }

    fn emit_add_tickets_event(
        &self,
        ctx: &CallContext,
        users_count: usize,
        total_tickets_added: usize,
        total_guaranteed_tickets_added: usize,
    ) -> (e: AddTicketsEvent)
        ensures
            stamped(e.admin, e.block, e.epoch, *ctx),
            e.users_count == users_count,
            e.total_tickets_added == total_tickets_added,
            e.total_guaranteed_tickets_added == total_guaranteed_tickets_added,
    {
        AddTicketsEvent {
            admin: ctx.caller,
            block: ctx.block_nonce,
            epoch: ctx.block_epoch,
            users_count,
            total_tickets_added,
            total_guaranteed_tickets_added,
        }
    }

    fn emit_distribute_guaranteed_tickets_completed_event(&self, ctx: &CallContext, total_additional_winning_tickets: usize) -> (e: DistributeGuaranteedTicketsCompletedEvent)
        ensures
            stamped(e.admin, e.block, e.epoch, *ctx),
            e.total_additional_winning_tickets == total_additional_winning_tickets,
    {
        DistributeGuaranteedTicketsCompletedEvent {
            admin: ctx.caller,
            block: ctx.block_nonce,
            epoch: ctx.block_epoch,
            total_additional_winning_tickets,
        }
    }
}

} // verus!
