//! The endpoints of the launchpad with locked launchpad tokens.

use vstd::prelude::*;

use crate::launchpad_common::blacklist::{spec_blacklist_error, spec_blacklist_refunds, spec_confirmed_after_blacklist, BlacklistModule};
use crate::launchpad_common::config::{CallContext, LaunchpadState, Payment, Transfer};
use crate::launchpad_common::errors::LaunchpadError;
use crate::launchpad_common::launch_stage::Flags;
use crate::launchpad_common::launchpad_main::{spec_claim_payment_error, spec_ticket_payment_transfers, spec_init_error, spec_valid_init_args, LaunchpadInitArgs, LaunchpadMain};
use crate::launchpad_common::setup::SetupModule;
use crate::launchpad_common::storage::Address;
use crate::launchpad_common::tickets::TicketsModule;
use crate::launchpad_common::token_send::spec_launchpad_tokens_for;
use crate::launchpad_common::user_interactions::{spec_claim_all_error, spec_claim_all_state, spec_claim_refund, ClaimType, UserInteractionsModule};
use crate::launchpad_locked_tokens::locked_launchpad_token_send::{
    spec_locked_part, LockedLaunchpadTokenSend, LockedTokensSend, MAX_PERCENTAGE,
};
use crate::launchpad_locked_tokens::state::LockedTokensLaunchpad;

verus! {

/// Why the lock cannot be set up: a percentage outside the whole, an unlock epoch not
/// ahead, or a locking address that is not a contract.
pub open spec fn spec_lock_setup_error(
    lock_percentage: u32,
    current_epoch: u64,
    unlock_epoch: u64,
    sc_address: Address,
    is_smart_contract: bool,
) -> Option<LaunchpadError> {
    if !(0 < lock_percentage <= MAX_PERCENTAGE) {
        Some(LaunchpadError::InvalidLockPercentage)
    } else if !(unlock_epoch > current_epoch) {
        Some(LaunchpadError::InvalidUnlockEpoch)
    } else if !(sc_address != 0 && is_smart_contract) {
        Some(LaunchpadError::InvalidScAddress)
    } else {
        None
    }
}

/// The endpoints of the launchpad with locked launchpad tokens.
pub trait LaunchpadLockedTokens {
    /// The ticket tables are well formed and the lock percentage is at most the whole.
    spec fn launchpad_wf(&self) -> bool;

    fn add_tickets_endpoint(&mut self, ctx: &CallContext, address_number_pairs: &Vec<(Address, usize)>) -> Result<(), LaunchpadError>
        requires
            old(self).launchpad_wf(),
    ;

    fn deposit_launchpad_tokens_endpoint(&mut self, ctx: &CallContext, payment: &Payment) -> Result<(), LaunchpadError>;

    fn claim_launchpad_tokens_endpoint(&mut self, ctx: &CallContext) -> Result<(Option<Transfer>, Option<LockedTokensSend>), LaunchpadError>
        requires
            old(self).launchpad_wf(),
    ;

    fn claim_ticket_payment_endpoint(&mut self, ctx: &CallContext, launchpad_tokens_balance: u128) -> Result<Vec<Transfer>, LaunchpadError>;

    fn add_users_to_blacklist_endpoint(&mut self, ctx: &CallContext, users: &Vec<Address>) -> Result<Vec<Transfer>, LaunchpadError>;
}

impl LockedTokensLaunchpad {
    /// Creates the launchpad: the shared state from the arguments, with no selection
    /// step beyond the lottery, then the lock: a percentage within the whole, an unlock
    /// epoch ahead of the current one, and a locking contract; `is_smart_contract` is the
    /// chain's answer for that address.
    pub fn init(
        ctx: &CallContext,
        args: LaunchpadInitArgs,
        launchpad_tokens_lock_percentage: u32,
        launchpad_tokens_unlock_epoch: u64,
        simple_lock_sc_address: Address,
        is_smart_contract: bool,
    ) -> (r: Result<LockedTokensLaunchpad, LaunchpadError>)
        ensures
            r is Ok <==> spec_valid_init_args(&args) && spec_lock_setup_error(
                launchpad_tokens_lock_percentage,
                ctx.block_epoch,
                launchpad_tokens_unlock_epoch,
                simple_lock_sc_address,
                is_smart_contract,
            ) is None,
            !spec_valid_init_args(&args) ==> r == Err::<LockedTokensLaunchpad, _>(spec_init_error(&args)),
            spec_valid_init_args(&args) ==> match spec_lock_setup_error(
                launchpad_tokens_lock_percentage,
                ctx.block_epoch,
                launchpad_tokens_unlock_epoch,
                simple_lock_sc_address,
                is_smart_contract,
            ) {
                Some(e) => r == Err::<LockedTokensLaunchpad, _>(e),
                None => r is Ok,
            },
            r matches Ok(s) ==> {
                &&& s.wf()
                &&& s.base.launchpad_token_id@ == args.launchpad_token_id@
                &&& s.base.launchpad_tokens_per_winning_ticket == args.launchpad_tokens_per_winning_ticket
                &&& s.base.ticket_price.token_id@ == args.ticket_payment_token@
                &&& s.base.ticket_price.amount == args.ticket_price
                &&& s.base.nr_winning_tickets == args.nr_winning_tickets
                &&& s.base.flags == (Flags {
                    has_winner_selection_process_started: false,
                    were_tickets_filtered: false,
                    were_winners_selected: false,
                    was_additional_step_completed: true,
                })
                &&& s.base.support_address == ctx.caller
                &&& s.launchpad_tokens_lock_percentage == launchpad_tokens_lock_percentage
                &&& s.launchpad_tokens_unlock_epoch == launchpad_tokens_unlock_epoch
                &&& s.simple_lock_sc_address == simple_lock_sc_address
            },
    {
        let flags = Flags {
            has_winner_selection_process_started: false,
            were_tickets_filtered: false,
            were_winners_selected: false,
            // the basic launchpad has no selection step beyond the lottery
            was_additional_step_completed: true,
        };
        let args = LaunchpadInitArgs { flags, ..args };
        let base = LaunchpadState::init_base(ctx, args)?;
        let mut s = LockedTokensLaunchpad {
            base,
            launchpad_tokens_lock_percentage: 0,
            launchpad_tokens_unlock_epoch: 0,
            simple_lock_sc_address: 0,
        };
        s.try_set_launchpad_tokens_lock_percentage(launchpad_tokens_lock_percentage)?;
        s.try_set_launchpad_tokens_unlock_epoch(ctx.block_epoch, launchpad_tokens_unlock_epoch)?;
        s.try_set_simple_lock_sc_address(simple_lock_sc_address, is_smart_contract)?;
        Ok(s)
    }
}

impl LaunchpadLockedTokens for LockedTokensLaunchpad {
    open spec fn launchpad_wf(&self) -> bool {
        self.wf()
    }

    /// The owner adds users with their tickets.
    fn add_tickets_endpoint(&mut self, ctx: &CallContext, address_number_pairs: &Vec<(Address, usize)>) -> (r: Result<(), LaunchpadError>)
        ensures
            r is Ok <==> {
                &&& ctx.caller == ctx.owner
                &&& old(self).base.stage_at(ctx.block_round) == crate::launchpad_common::launch_stage::LaunchStage::AddTickets
                &&& crate::launchpad_common::tickets::spec_can_add_tickets(old(self).base.last_ticket_id, old(self).base.ticket_range_for_address@, address_number_pairs@)
            },
            r is Ok ==> {
                let (l, rs, bs) = crate::launchpad_common::tickets::spec_tickets_after(
                    old(self).base.last_ticket_id,
                    old(self).base.ticket_range_for_address@,
                    old(self).base.ticket_batch@,
                    address_number_pairs@,
                );
                &&& final(self).base.last_ticket_id == l
                &&& final(self).base.ticket_range_for_address@ == rs
                &&& final(self).base.ticket_batch@ == bs
                &&& final(self).base.same_except_tickets(&old(self).base)
                &&& *final(self) == (LockedTokensLaunchpad { base: final(self).base, ..*old(self) })
            },
            r == Err::<(), _>(LaunchpadError::OnlyOwner) <==> ctx.caller != ctx.owner,
            r is Err ==> *final(self) == *old(self),
            final(self).wf(),
    {
        self.base.add_tickets(ctx, address_number_pairs)
    }

    /// The owner deposits the launchpad tokens of the winning tickets.
    fn deposit_launchpad_tokens_endpoint(&mut self, ctx: &CallContext, payment: &Payment) -> (r: Result<(), LaunchpadError>)
        ensures
            r is Ok <==> {
                let total = old(self).base.nr_winning_tickets;
                &&& ctx.caller == ctx.owner
                &&& !old(self).base.launchpad_tokens_deposited
                &&& payment.token_id@ == old(self).base.launchpad_token_id@
                &&& old(self).base.launchpad_tokens_per_winning_ticket * total <= u128::MAX
                &&& payment.amount == old(self).base.launchpad_tokens_per_winning_ticket * total
            },
            ctx.caller != ctx.owner ==> r == Err::<(), _>(LaunchpadError::OnlyOwner),
            ctx.caller == ctx.owner && old(self).base.launchpad_tokens_deposited
                ==> r == Err::<(), _>(LaunchpadError::TokensAlreadyDeposited),
            ctx.caller == ctx.owner && !old(self).base.launchpad_tokens_deposited
                && payment.token_id@ != old(self).base.launchpad_token_id@ ==> r == Err::<(), _>(LaunchpadError::WrongToken),
            ctx.caller == ctx.owner && !old(self).base.launchpad_tokens_deposited
                && payment.token_id@ == old(self).base.launchpad_token_id@
                && payment.amount != old(self).base.launchpad_tokens_per_winning_ticket * (old(self).base.nr_winning_tickets)
                ==> r == Err::<(), _>(LaunchpadError::WrongAmount),
            r is Ok ==> *final(self) == (LockedTokensLaunchpad {
                base: LaunchpadState {
                    launchpad_tokens_deposited: true,
                    total_launchpad_tokens_deposited: payment.amount,
                    ..old(self).base
                },
                ..*old(self)
            }),
            r is Err ==> *final(self) == *old(self),
    {
        if ctx.caller != ctx.owner {
            return Err(LaunchpadError::OnlyOwner);
        }
        let nr_winning_tickets = self.base.nr_winning_tickets;
        self.base.deposit_launchpad_tokens(nr_winning_tickets, payment)
    }

    /// A user claims the refund of the tickets that did not win and the launchpad tokens
    /// of the winning ones, with part of the tokens locked before the unlock epoch.
    fn claim_launchpad_tokens_endpoint(&mut self, ctx: &CallContext) -> (r: Result<(Option<Transfer>, Option<LockedTokensSend>), LaunchpadError>)
        ensures
            r is Ok <==> old(self).base.can_claim_all(*ctx),
            r matches Err(e) ==> e == spec_claim_all_error(&old(self).base, *ctx),
            r is Err ==> *final(self) == *old(self),
            r matches Ok((refund, sent)) ==> {
                let caller = ctx.caller;
                let b = old(self).base;
                let range = b.ticket_range_for_address@[caller];
                let nr = b.winning_ids_of(range).len();
                let amount = spec_launchpad_tokens_for(&b, nr as usize);
                &&& spec_claim_all_state(&b, &final(self).base, *ctx)
                &&& *final(self) == (LockedTokensLaunchpad { base: final(self).base, ..*old(self) })
                &&& spec_claim_refund(&b, *ctx, refund)
                &&& (sent is Some <==> nr > 0)
                &&& sent matches Some(send) ==> {
                    let locked = spec_locked_part(old(self), amount as u128, ctx.block_epoch);
                    &&& (send.lock is Some <==> locked > 0)
                    &&& send.lock matches Some(c) ==> c.destination == caller && c.amount == locked
                        && c.sc_address == old(self).simple_lock_sc_address
                        && c.unlock_epoch == old(self).launchpad_tokens_unlock_epoch
                        && c.token_id@ == b.launchpad_token_id@
                    &&& (send.unlocked is Some <==> amount - locked > 0)
                    &&& send.unlocked matches Some(t) ==> t.to == caller && t.amount == amount - locked
                        && t.token_id@ == b.launchpad_token_id@
                }
            },
            final(self).wf(),
    {
        let claim = self.base.claim_refunded_tickets_and_launchpad_tokens(ctx)?;
        let sent = match &claim.launchpad_tokens {
            Some(p) => Some(self.send_locked_launchpad_tokens(ctx.caller, p, ctx.block_epoch)),
            None => None,
        };
        Ok((claim.refund, sent))
    }

    /// The owner takes the payments of the winning tickets and the spare launchpad tokens.
    fn claim_ticket_payment_endpoint(&mut self, ctx: &CallContext, launchpad_tokens_balance: u128) -> (r: Result<Vec<Transfer>, LaunchpadError>)
        ensures
            r is Ok <==> {
                let needed = old(self).base.launchpad_tokens_per_winning_ticket * old(self).base.nr_winning_tickets;
                &&& ctx.caller == ctx.owner
                &&& old(self).base.stage_at(ctx.block_round) == crate::launchpad_common::launch_stage::LaunchStage::Claim
                &&& needed <= launchpad_tokens_balance
            },
            r is Ok ==> *final(self) == (LockedTokensLaunchpad {
                base: LaunchpadState { claimable_ticket_payment: 0, ..old(self).base },
                ..*old(self)
            }),
            r matches Ok(transfers) ==> spec_ticket_payment_transfers(&old(self).base, *ctx, launchpad_tokens_balance, transfers@),
            r matches Err(e) ==> e == spec_claim_payment_error(&old(self).base, *ctx),
            r is Err ==> *final(self) == *old(self),
    {
        self.base.claim_ticket_payment(ctx, launchpad_tokens_balance)
    }

    /// Blacklists users, who are paid back their confirmed tickets.
    fn add_users_to_blacklist_endpoint(&mut self, ctx: &CallContext, users: &Vec<Address>) -> (r: Result<Vec<Transfer>, LaunchpadError>)
        ensures
            r is Ok <==> spec_blacklist_error(&old(self).base, *ctx, users@) is None,
            r matches Err(e) ==> spec_blacklist_error(&old(self).base, *ctx, users@) == Some(e),
            r is Err ==> *final(self) == *old(self),
            r matches Ok(transfers) ==> {
                let refunds = spec_blacklist_refunds(old(self).base.nr_confirmed_tickets@, users@);
                &&& final(self).base.blacklist@ == old(self).base.blacklist@.union(users@.to_set())
                &&& final(self).base.nr_confirmed_tickets@ == spec_confirmed_after_blacklist(old(self).base.nr_confirmed_tickets@, users@)
                &&& *final(self) == (LockedTokensLaunchpad {
                    base: LaunchpadState {
                        blacklist: final(self).base.blacklist,
                        nr_confirmed_tickets: final(self).base.nr_confirmed_tickets,
                        ..old(self).base
                    },
                    ..*old(self)
                })
                &&& transfers@.len() == refunds.len()
                &&& forall|i: int| 0 <= i < refunds.len() ==> {
                    &&& (#[trigger] transfers@[i]).to == refunds[i].0
                    &&& transfers@[i].amount == old(self).base.ticket_price.amount * refunds[i].1
                }
            },
    {
        self.base.add_users_to_blacklist(ctx, users)
    }
}

} // verus!
