//! The endpoints of the launchpad with guaranteed tickets: they tie the shared modules
//! to the guaranteed tickets and to the release of the launchpad tokens.

use std::collections::HashMap;
use std::collections::HashSet;
use vstd::prelude::*;

use crate::launchpad_common::blacklist::{
    spec_blacklist_change_error, spec_blacklist_error, spec_blacklist_refunds, spec_confirmed_after_blacklist,
    BlacklistModule,
};
use crate::launchpad_common::config::{CallContext, LaunchpadState, Payment, Transfer};
use crate::launchpad_common::errors::LaunchpadError;
use crate::launchpad_common::launch_stage::{Flags, LaunchStage, LaunchStageModule};
use crate::launchpad_common::launchpad_main::{spec_init_error, spec_fresh, spec_valid_init_args, LaunchpadInitArgs};
use crate::launchpad_common::setup::SetupModule;
use crate::launchpad_common::storage::Address;
use crate::launchpad_common::ongoing_operation::{GasBudget, OngoingOperationModule, OngoingOperationType, OperationCompletionStatus};
use crate::launchpad_common::tickets::{range_wf, TicketRange, TicketsModule};
use crate::launchpad_common::token_send::{spec_refund_amount, TokenSendModule};
use crate::launchpad_common::storage::{get_by_address, get_by_index, stored_or};
use crate::launchpad_guaranteed_tickets_v2::token_release::{spec_claimable_from, spec_claimable_tokens, TokenReleaseModule};
use crate::launchpad_guaranteed_tickets_v2::guaranteed_ticket_winners::{
    is_winning_in, op_view, spec_count_winning, spec_decode_operation, spec_encode_operation, spec_guaranteed_failed,
    spec_guaranteed_ran, spec_leftover_failed, spec_leftover_ran,
    GuaranteedTicketWinnersModule, GuaranteedTicketsSelectionOperation, SelectionView,
};
use crate::launchpad_guaranteed_tickets_v2::guaranteed_tickets_init::{
    guaranteed_model, spec_add_guaranteed_effect, spec_add_guaranteed_error, spec_clear_effect, spec_clear_error,
    spec_restore_effect, spec_restore_error, statuses_view, AddTicketsResult, GuaranteedTicketsEntry, GuaranteedTicketsInitModule,
};
use crate::launchpad_guaranteed_tickets_v2::state::GuaranteedTicketsLaunchpad;

verus! {

broadcast use vstd::std_specs::hash::group_hash_axioms;

/// Why the guaranteed tickets cannot be given now: it is not the winner selection, the
/// lottery has not picked its winners, they were given already, another operation is
/// in progress, or the saved operation cannot be read.
pub open spec fn spec_distribute_error(s: &GuaranteedTicketsLaunchpad, round: u64) -> Option<LaunchpadError> {
    if s.base.paused {
        Some(LaunchpadError::ContractPaused)
    } else if s.base.stage_at(round) != LaunchStage::WinnerSelection {
        Some(LaunchpadError::NotInWinnerSelectionPeriod)
    } else if !s.base.flags.were_winners_selected {
        Some(LaunchpadError::MustSelectBaseWinnersFirst)
    } else if s.base.flags.was_additional_step_completed {
        Some(LaunchpadError::AlreadyDistributedTickets)
    } else {
        match s.base.current_ongoing_operation {
            OngoingOperationType::Idle => None,
            OngoingOperationType::AdditionalSelection { encoded_data } => if spec_decode_operation(encoded_data@) is None {
                Some(LaunchpadError::InvalidOperationData)
            } else {
                None
            },
            _ => Some(LaunchpadError::AnotherOperationInProgress),
        }
    }
}

/// The operation the giving starts from: a fresh one on the chain's seed, or the one saved.
pub open spec fn spec_start_view(s: &GuaranteedTicketsLaunchpad, fresh_seed: [u8; 32]) -> SelectionView {
    match s.base.current_ongoing_operation {
        OngoingOperationType::AdditionalSelection { encoded_data } => {
            let (seed, index, leftover, offset, total) = spec_decode_operation(encoded_data@).unwrap();
            (seed, index, leftover as usize, offset as usize, total as usize)
        },
        _ => (fresh_seed@, 0int, 0usize, 1usize, 0usize),
    }
}

/// The state after the giving stopped for want of gas: the users, statuses and positions
/// reached, and the operation saved.
pub open spec fn spec_saved_at(
    old: &GuaranteedTicketsLaunchpad,
    new: &GuaranteedTicketsLaunchpad,
    op: GuaranteedTicketsSelectionOperation,
) -> bool {
    &&& new.base.current_ongoing_operation matches OngoingOperationType::AdditionalSelection { encoded_data }
        && encoded_data@ == spec_encode_operation(op)
    &&& *new == (GuaranteedTicketsLaunchpad {
        base: LaunchpadState {
            ticket_status: new.base.ticket_status,
            ticket_pos_to_id: new.base.ticket_pos_to_id,
            current_ongoing_operation: new.base.current_ongoing_operation,
            ..old.base
        },
        users_with_guaranteed_ticket: new.users_with_guaranteed_ticket,
        ..*old
    })
}

/// The state after the giving completed: the step is marked done, and the added winning
/// tickets are paid for and counted as winning.
pub open spec fn spec_distribution_completed(old: &GuaranteedTicketsLaunchpad, new: &GuaranteedTicketsLaunchpad, added: int) -> bool {
    *new == (GuaranteedTicketsLaunchpad {
        base: LaunchpadState {
            ticket_status: new.base.ticket_status,
            ticket_pos_to_id: new.base.ticket_pos_to_id,
            flags: Flags { was_additional_step_completed: true, ..old.base.flags },
            claimable_ticket_payment: (old.base.claimable_ticket_payment + old.base.ticket_price.amount * added) as u128,
            nr_winning_tickets: (old.base.nr_winning_tickets + added) as usize,
            current_ongoing_operation: OngoingOperationType::Idle,
            ..old.base
        },
        users_with_guaranteed_ticket: new.users_with_guaranteed_ticket,
        ..*old
    })
}

/// A giving that no refusal stops and that still overflows, from the operation `op0` and
/// the gas `gas0`: the giving of guaranteed tickets overflows; or it completes and the
/// draw of left-over tickets then overflows; or both complete and the payment owed for
/// the added winning tickets, or their count, overflows.
pub open spec fn spec_distribute_failed(
    old: &GuaranteedTicketsLaunchpad,
    op0: GuaranteedTicketsSelectionOperation,
    gas0: u64,
    cost: u64,
) -> bool {
    let statuses = statuses_view(old.user_ticket_status@);
    let conf = old.base.nr_confirmed_tickets@;
    let ranges = old.base.ticket_range_for_address@;
    ||| spec_guaranteed_failed(old.users_with_guaranteed_ticket@, old.base.ticket_status@, op0, statuses, conf, ranges, gas0, cost)
    ||| exists|ws1: Seq<Address>, st1: Map<usize, bool>, op1: GuaranteedTicketsSelectionOperation, g1: u64|
        #[trigger] spec_guaranteed_ran(old.users_with_guaranteed_ticket@, old.base.ticket_status@, op0, statuses, conf, ranges, gas0, cost,
            ws1, st1, op1, g1, true)
        && {
            ||| spec_leftover_failed(st1, old.base.ticket_pos_to_id@, op_view(op1), old.base.nr_winning_tickets, old.base.last_ticket_id, g1, cost)
            ||| exists|st2: Map<usize, bool>, pm2: Map<usize, usize>, op2: GuaranteedTicketsSelectionOperation, g2: u64|
                #[trigger] spec_leftover_ran(st1, old.base.ticket_pos_to_id@, op_view(op1), old.base.nr_winning_tickets,
                    old.base.last_ticket_id, g1, cost, st2, pm2, op_view(op2), g2, true)
                && (old.base.claimable_ticket_payment + old.base.ticket_price.amount * op2.total_additional_winning_tickets > u128::MAX
                    || old.base.nr_winning_tickets + op2.total_additional_winning_tickets > usize::MAX)
        }
}

/// The ids `first..=last`.
pub open spec fn spec_range_ids(first: int, last: int) -> Set<usize> {
    Set::new(|id: usize| first <= id <= last)
}

/// The winning ids among `first..=last`.
pub open spec fn spec_winning_in_range(status: Map<usize, bool>, first: int, last: int) -> Set<usize> {
    Set::new(|id: usize| first <= id <= last && is_winning_in(status, id))
}

/// Why a user's results cannot be worked out: it is not the claim period, the user holds
/// no tickets, or a count leaves the integers.
pub open spec fn spec_results_error(s: &GuaranteedTicketsLaunchpad, caller: Address, round: u64) -> Option<LaunchpadError> {
    if s.base.stage_at(round) != LaunchStage::Claim {
        Some(LaunchpadError::NotInClaimPeriod)
    } else if !s.base.ticket_range_for_address@.contains_key(caller) {
        Some(LaunchpadError::NoTickets)
    } else {
        let range = s.base.ticket_range_for_address@[caller];
        let redeem = spec_count_winning(s.base.ticket_status@, range.first_id as int, range.last_id as int);
        let confirmed = stored_or(s.base.nr_confirmed_tickets@, caller, 0);
        if redeem > s.base.nr_winning_tickets || redeem > confirmed
            || s.base.ticket_price.amount * (confirmed - redeem) > u128::MAX
            || s.base.launchpad_tokens_per_winning_ticket * redeem > u128::MAX {
            Some(LaunchpadError::ArithmeticError)
        } else {
            None
        }
    }
}

/// What working out a user's results did: the user's winning tickets are cleared and
/// counted as the user's, the user's tickets, positions and confirmations are cleared,
/// the user is marked as processed, and the launchpad tokens won become claimable.
pub open spec fn spec_results_effect(old: &GuaranteedTicketsLaunchpad, new: &GuaranteedTicketsLaunchpad, caller: Address) -> bool {
    let range = old.base.ticket_range_for_address@[caller];
    let redeem = spec_count_winning(old.base.ticket_status@, range.first_id as int, range.last_id as int);
    &&& new.base.ticket_status@ == old.base.ticket_status@.remove_keys(
        spec_winning_in_range(old.base.ticket_status@, range.first_id as int, range.last_id as int),
    )
    &&& new.base.ticket_pos_to_id@ == old.base.ticket_pos_to_id@.remove_keys(spec_range_ids(range.first_id as int, range.last_id as int))
    &&& new.base.nr_confirmed_tickets@ == old.base.nr_confirmed_tickets@.remove(caller)
    &&& new.base.ticket_range_for_address@ == old.base.ticket_range_for_address@.remove(caller)
    &&& new.base.ticket_batch@ == old.base.ticket_batch@.remove(range.first_id)
    &&& new.claim_list@ == old.claim_list@.insert(caller)
    &&& new.user_total_claimable_balance@ == if redeem > 0 {
        old.user_total_claimable_balance@.insert(caller, (old.base.launchpad_tokens_per_winning_ticket * redeem) as u128)
    } else {
        old.user_total_claimable_balance@
    }
    &&& *new == (GuaranteedTicketsLaunchpad {
        base: LaunchpadState {
            ticket_status: new.base.ticket_status,
            ticket_pos_to_id: new.base.ticket_pos_to_id,
            nr_confirmed_tickets: new.base.nr_confirmed_tickets,
            ticket_range_for_address: new.base.ticket_range_for_address,
            ticket_batch: new.base.ticket_batch,
            nr_winning_tickets: (old.base.nr_winning_tickets - redeem) as usize,
            ..old.base
        },
        claim_list: new.claim_list,
        user_total_claimable_balance: new.user_total_claimable_balance,
        ..*old
    })
}

/// The refund of a user's confirmed tickets that did not win.
pub open spec fn spec_results_refund(old: &GuaranteedTicketsLaunchpad, caller: Address, refund: Option<Transfer>) -> bool {
    let range = old.base.ticket_range_for_address@[caller];
    let redeem = spec_count_winning(old.base.ticket_status@, range.first_id as int, range.last_id as int);
    let nr = (stored_or(old.base.nr_confirmed_tickets@, caller, 0) - redeem) as usize;
    &&& refund is None <==> nr == 0
    &&& refund matches Some(t) ==> t.to == caller && t.token_id@ == old.base.ticket_price.token_id@ && t.token_nonce == 0
        && t.amount == spec_refund_amount(&old.base, nr)
}

/// Why a user cannot claim: the contract is paused, the user's results cannot be worked
/// out at the round, or the tokens released by the epoch cannot be worked out.
pub open spec fn spec_claim_error(s: &GuaranteedTicketsLaunchpad, caller: Address, round: u64, epoch: u64) -> Option<LaunchpadError> {
    let claimed = stored_or(s.user_claimed_balance@, caller, 0) as int;
    if s.base.paused {
        Some(LaunchpadError::ContractPaused)
    } else if s.claim_list@.contains(caller) {
        let total = stored_or(s.user_total_claimable_balance@, caller, 0) as int;
        if spec_claimable_from(s, total, claimed, epoch) is None {
            Some(if claimed >= total { LaunchpadError::AlreadyClaimedAllTokens } else { LaunchpadError::ArithmeticError })
        } else {
            None
        }
    } else if spec_results_error(s, caller, round) is Some {
        spec_results_error(s, caller, round)
    } else {
        let range = s.base.ticket_range_for_address@[caller];
        let redeem = spec_count_winning(s.base.ticket_status@, range.first_id as int, range.last_id as int);
        let total = if redeem > 0 {
            s.base.launchpad_tokens_per_winning_ticket * redeem
        } else {
            stored_or(s.user_total_claimable_balance@, caller, 0) as int
        };
        if spec_claimable_from(s, total, claimed, epoch) is None {
            Some(if claimed >= total { LaunchpadError::AlreadyClaimedAllTokens } else { LaunchpadError::ArithmeticError })
        } else {
            None
        }
    }
}

/// The launchpad tokens that pay a claim.
pub open spec fn spec_token_payment(s: &GuaranteedTicketsLaunchpad, caller: Address, amount: int, t: Option<Transfer>) -> bool {
    &&& t is None <==> amount == 0
    &&& t matches Some(p) ==> p.to == caller && p.token_id@ == s.base.launchpad_token_id@ && p.token_nonce == 0 && p.amount == amount
}

/// The endpoints of the launchpad with guaranteed tickets.
pub trait LaunchpadGuaranteedTickets: GuaranteedTicketsInitModule {
    fn add_tickets_endpoint(&mut self, ctx: &CallContext, entries: &Vec<GuaranteedTicketsEntry>) -> Result<AddTicketsResult, LaunchpadError>
        requires
            old(self).guaranteed_wf(),
    ;

    fn deposit_launchpad_tokens_endpoint(&mut self, ctx: &CallContext, payment: &Payment) -> Result<(), LaunchpadError>;

    fn add_users_to_blacklist_endpoint(&mut self, ctx: &CallContext, users: &Vec<Address>) -> Result<Vec<Transfer>, LaunchpadError>
        requires
            old(self).guaranteed_wf(),
    ;

    fn remove_guaranteed_users_from_blacklist_endpoint(&mut self, ctx: &CallContext, users: &Vec<Address>) -> Result<(), LaunchpadError>
        requires
            old(self).guaranteed_wf(),
    ;

    fn distribute_guaranteed_tickets_endpoint(&mut self, ctx: &CallContext, gas: &mut GasBudget, fresh_seed: [u8; 32]) -> Result<OperationCompletionStatus, LaunchpadError>
        requires
            old(self).guaranteed_wf(),
            old(gas).gas_per_iteration > 0,
    ;

    fn compute_launchpad_results(&mut self, ctx: &CallContext) -> Result<Option<Transfer>, LaunchpadError>
        requires
            old(self).guaranteed_wf(),
    ;

    fn claim_launchpad_tokens_endpoint(&mut self, ctx: &CallContext) -> Result<(Option<Transfer>, Option<Transfer>), LaunchpadError>
        requires
            old(self).guaranteed_wf(),
    ;

    fn claim_ticket_payment_endpoint(&mut self, ctx: &CallContext) -> Result<Vec<Transfer>, LaunchpadError>;
}

impl GuaranteedTicketsLaunchpad {
    /// Creates the launchpad: the shared state from the arguments, with no stage flag set,
    /// and nothing guaranteed yet.
    pub fn init(ctx: &CallContext, args: LaunchpadInitArgs) -> (r: Result<GuaranteedTicketsLaunchpad, LaunchpadError>)
        ensures
            r is Ok <==> spec_valid_init_args(&args),
            r matches Err(e) ==> e == spec_init_error(&args),
            r matches Ok(s) ==> {
                &&& spec_fresh(&s.base)
                &&& s.guaranteed_wf()
                &&& s.base.launchpad_token_id@ == args.launchpad_token_id@
                &&& s.base.launchpad_tokens_per_winning_ticket == args.launchpad_tokens_per_winning_ticket
                &&& s.base.ticket_price.token_id@ == args.ticket_payment_token@
                &&& s.base.ticket_price.amount == args.ticket_price
                &&& s.base.nr_winning_tickets == args.nr_winning_tickets
                &&& s.base.configuration.confirmation_period_start_round == args.confirmation_period_start_round
                &&& s.base.configuration.winner_selection_start_round == args.winner_selection_start_round
                &&& s.base.configuration.claim_start_round == args.claim_start_round
                &&& s.base.flags == (Flags {
                    has_winner_selection_process_started: false,
                    were_tickets_filtered: false,
                    were_winners_selected: false,
                    was_additional_step_completed: false,
                })
                &&& s.base.support_address == ctx.caller
                &&& s.users_with_guaranteed_ticket@.len() == 0
                &&& s.total_guaranteed_tickets == 0
                &&& s.user_ticket_status@.is_empty()
                &&& s.blacklist_user_ticket_status@.is_empty()
                &&& s.user_total_claimable_balance@.is_empty()
                &&& s.user_claimed_balance@.is_empty()
                &&& s.unlock_schedule is None
                &&& s.claim_list@.is_empty()
            },
    {
        let flags = Flags {
            has_winner_selection_process_started: false,
            were_tickets_filtered: false,
            were_winners_selected: false,
            was_additional_step_completed: false,
        };
        let args = LaunchpadInitArgs { flags, ..args };
        let base = LaunchpadState::init_base(ctx, args)?;
        Ok(GuaranteedTicketsLaunchpad {
            base,
            users_with_guaranteed_ticket: Vec::new(),
            total_guaranteed_tickets: 0,
            user_ticket_status: HashMap::new(),
            blacklist_user_ticket_status: HashMap::new(),
            user_total_claimable_balance: HashMap::new(),
            user_claimed_balance: HashMap::new(),
            unlock_schedule: None,
            claim_list: HashSet::new(),
        })
    }
}

impl GuaranteedTicketsLaunchpad {
    /// Checks that a user's results can be worked out, without changing anything; gives
    /// the user's range, winning tickets and confirmed tickets.
    pub fn check_launchpad_results(&self, ctx: &CallContext) -> (r: Result<(TicketRange, usize, usize), LaunchpadError>)
        requires
            self.guaranteed_wf(),
        ensures
            r is Err <==> spec_results_error(self, ctx.caller, ctx.block_round) is Some,
            r matches Err(e) ==> spec_results_error(self, ctx.caller, ctx.block_round) == Some(e),
            r matches Ok((range, redeem, confirmed)) ==> {
                &&& self.base.ticket_range_for_address@.contains_key(ctx.caller)
                &&& range == self.base.ticket_range_for_address@[ctx.caller]
                &&& range_wf(range)
                &&& redeem == spec_count_winning(self.base.ticket_status@, range.first_id as int, range.last_id as int)
                &&& confirmed == stored_or(self.base.nr_confirmed_tickets@, ctx.caller, 0)
            },
    {
        self.base.require_claim_period(ctx.block_round)?;
        let range = self.base.try_get_ticket_range(ctx.caller)?;
        assert(range_wf(self.base.ticket_range_for_address@[ctx.caller]));
        let redeem = self.winning_tickets_in_range(&range);
        let confirmed = get_by_address(&self.base.nr_confirmed_tickets, ctx.caller, 0);
        if redeem > self.base.nr_winning_tickets || redeem > confirmed {
            return Err(LaunchpadError::ArithmeticError);
        }
        if self.base.ticket_price.amount.checked_mul((confirmed - redeem) as u128).is_none() {
            return Err(LaunchpadError::ArithmeticError);
        }
        if self.base.launchpad_tokens_per_winning_ticket.checked_mul(redeem as u128).is_none() {
            return Err(LaunchpadError::ArithmeticError);
        }
        Ok((range, redeem, confirmed))
    }

    /// Clears the winning statuses and the positions of a range of tickets.
    fn clear_range_tickets(&mut self, range: TicketRange)
        requires
            range_wf(range),
        ensures
            final(self).base.ticket_status@ == old(self).base.ticket_status@.remove_keys(
                spec_winning_in_range(old(self).base.ticket_status@, range.first_id as int, range.last_id as int),
            ),
            final(self).base.ticket_pos_to_id@ == old(self).base.ticket_pos_to_id@.remove_keys(
                spec_range_ids(range.first_id as int, range.last_id as int),
            ),
            *final(self) == (GuaranteedTicketsLaunchpad {
                base: LaunchpadState {
                    ticket_status: final(self).base.ticket_status,
                    ticket_pos_to_id: final(self).base.ticket_pos_to_id,
                    ..old(self).base
                },
                ..*old(self)
            }),
    {
        let ghost st0 = self.base.ticket_status@;
        let ghost pm0 = self.base.ticket_pos_to_id@;
        let ghost old_self = *self;
        let first = range.first_id;
        let last = range.last_id;
        let mut ticket_id = first;
        while ticket_id <= last
            invariant
                range_wf(range),
                first == range.first_id,
                last == range.last_id,
                first <= ticket_id <= last + 1,
                self.base.ticket_status@ == st0.remove_keys(Set::new(|x: usize| first <= x < ticket_id && is_winning_in(st0, x))),
                self.base.ticket_pos_to_id@ == pm0.remove_keys(Set::new(|x: usize| first <= x < ticket_id)),
                *self == (GuaranteedTicketsLaunchpad {
                    base: LaunchpadState {
                        ticket_status: self.base.ticket_status,
                        ticket_pos_to_id: self.base.ticket_pos_to_id,
                        ..old_self.base
                    },
                    ..old_self
                }),
            decreases last + 1 - ticket_id,
        {
            let ghost before_st = self.base.ticket_status@;
            let ghost before_pm = self.base.ticket_pos_to_id@;
            if get_by_index(&self.base.ticket_status, ticket_id, false) {
                assert(is_winning_in(st0, ticket_id));
                self.base.ticket_status.remove(&ticket_id);
            }
            self.base.ticket_pos_to_id.remove(&ticket_id);
            proof {
                assert(self.base.ticket_status@ =~= st0.remove_keys(
                    Set::new(|x: usize| first <= x < ticket_id + 1 && is_winning_in(st0, x)),
                ));
                assert(self.base.ticket_pos_to_id@ =~= pm0.remove_keys(Set::new(|x: usize| first <= x < ticket_id + 1)));
            }
            ticket_id = ticket_id + 1;
        }
        proof {
            assert(Set::new(|x: usize| first <= x < ticket_id && is_winning_in(st0, x))
                =~= spec_winning_in_range(st0, first as int, last as int));
            assert(Set::new(|x: usize| first <= x < ticket_id) =~= spec_range_ids(first as int, last as int));
        }
    }
}

impl LaunchpadGuaranteedTickets for GuaranteedTicketsLaunchpad {
    /// The owner adds users with their tickets and guaranteed tickets.
    fn add_tickets_endpoint(&mut self, ctx: &CallContext, entries: &Vec<GuaranteedTicketsEntry>) -> (r: Result<AddTicketsResult, LaunchpadError>)
        ensures
            r is Err <==> ctx.caller != ctx.owner || spec_add_guaranteed_error(old(self), entries@, ctx.block_round) is Some,
            r matches Err(e) ==> if ctx.caller != ctx.owner {
                e == LaunchpadError::OnlyOwner
            } else {
                spec_add_guaranteed_error(old(self), entries@, ctx.block_round) == Some(e)
            },
            r is Err ==> *final(self) == *old(self),
            r matches Ok(res) ==> spec_add_guaranteed_effect(old(self), final(self), entries@, res),
    {
        if ctx.caller != ctx.owner {
            return Err(LaunchpadError::OnlyOwner);
        }
        self.add_tickets_with_guaranteed_winners(ctx.block_round, entries)
    }

    /// The owner deposits the launchpad tokens of every winning and every guaranteed ticket.
    fn deposit_launchpad_tokens_endpoint(&mut self, ctx: &CallContext, payment: &Payment) -> (r: Result<(), LaunchpadError>)
        ensures
            r is Ok <==> {
                let total = old(self).base.nr_winning_tickets + old(self).total_guaranteed_tickets;
                &&& ctx.caller == ctx.owner
                &&& total <= usize::MAX
                &&& !old(self).base.launchpad_tokens_deposited
                &&& payment.token_id@ == old(self).base.launchpad_token_id@
                &&& old(self).base.launchpad_tokens_per_winning_ticket * total <= u128::MAX
                &&& payment.amount == old(self).base.launchpad_tokens_per_winning_ticket * total
            },
            ctx.caller != ctx.owner ==> r == Err::<(), _>(LaunchpadError::OnlyOwner),
            ctx.caller == ctx.owner && old(self).base.nr_winning_tickets + old(self).total_guaranteed_tickets <= usize::MAX && old(self).base.launchpad_tokens_deposited
                ==> r == Err::<(), _>(LaunchpadError::TokensAlreadyDeposited),
            ctx.caller == ctx.owner && old(self).base.nr_winning_tickets + old(self).total_guaranteed_tickets <= usize::MAX && !old(self).base.launchpad_tokens_deposited
                && payment.token_id@ != old(self).base.launchpad_token_id@ ==> r == Err::<(), _>(LaunchpadError::WrongToken),
            ctx.caller == ctx.owner && old(self).base.nr_winning_tickets + old(self).total_guaranteed_tickets <= usize::MAX && !old(self).base.launchpad_tokens_deposited
                && payment.token_id@ == old(self).base.launchpad_token_id@
                && payment.amount != old(self).base.launchpad_tokens_per_winning_ticket * (old(self).base.nr_winning_tickets + old(self).total_guaranteed_tickets)
                ==> r == Err::<(), _>(LaunchpadError::WrongAmount),
            ctx.caller == ctx.owner && !(old(self).base.nr_winning_tickets + old(self).total_guaranteed_tickets <= usize::MAX) ==> r == Err::<(), _>(LaunchpadError::ArithmeticError),
            r is Ok ==> *final(self) == (GuaranteedTicketsLaunchpad {
                base: LaunchpadState {
                    launchpad_tokens_deposited: true,
                    total_launchpad_tokens_deposited: payment.amount,
                    ..old(self).base
                },
                ..*old(self)
            }),
            r is Err ==> *final(self) == *old(self),
    {
        if ctx.caller != ctx.owner {
            return Err(LaunchpadError::OnlyOwner);
        }
        if self.total_guaranteed_tickets > usize::MAX - self.base.nr_winning_tickets {
            return Err(LaunchpadError::ArithmeticError);
        }
        let total_tickets = self.base.nr_winning_tickets + self.total_guaranteed_tickets;
        self.base.deposit_launchpad_tokens(total_tickets, payment)
    }

    /// Blacklists users: they are paid back their confirmed tickets, and their guaranteed
    /// tickets go back to the winning tickets.  The whole call is refused, and changes
    /// nothing, on the first refusal of either part.
    fn add_users_to_blacklist_endpoint(&mut self, ctx: &CallContext, users: &Vec<Address>) -> (r: Result<Vec<Transfer>, LaunchpadError>)
        ensures
            r is Err <==> spec_blacklist_error(&old(self).base, *ctx, users@) is Some
                || spec_clear_error(guaranteed_model(old(self)), users@) is Some,
            r matches Err(e) ==> if spec_blacklist_error(&old(self).base, *ctx, users@) is Some {
                spec_blacklist_error(&old(self).base, *ctx, users@) == Some(e)
            } else {
                spec_clear_error(guaranteed_model(old(self)), users@) == Some(e)
            },
            r is Err ==> *final(self) == *old(self),
            r matches Ok(transfers) ==> {
                let refunds = spec_blacklist_refunds(old(self).base.nr_confirmed_tickets@, users@);
                let mid = GuaranteedTicketsLaunchpad {
                    base: LaunchpadState {
                        blacklist: final(self).base.blacklist,
                        nr_confirmed_tickets: final(self).base.nr_confirmed_tickets,
                        ..old(self).base
                    },
                    ..*old(self)
                };
                &&& final(self).base.blacklist@ == old(self).base.blacklist@.union(users@.to_set())
                &&& final(self).base.nr_confirmed_tickets@ == spec_confirmed_after_blacklist(old(self).base.nr_confirmed_tickets@, users@)
                &&& spec_clear_effect(&mid, final(self), users@)
                &&& transfers@.len() == refunds.len()
                &&& forall|i: int| 0 <= i < refunds.len() ==> {
                    &&& (#[trigger] transfers@[i]).to == refunds[i].0
                    &&& transfers@[i].token_id@ == old(self).base.ticket_price.token_id@
                    &&& transfers@[i].token_nonce == 0
                    &&& transfers@[i].amount == old(self).base.ticket_price.amount * refunds[i].1
                }
            },
    {
        self.base.check_add_users_to_blacklist(ctx, users)?;
        self.check_clear_users(users)?;
        let ghost m0 = guaranteed_model(self);
        let transfers = match self.base.add_users_to_blacklist(ctx, users) {
            Ok(t) => t,
            Err(e) => {
                return Err(e);
            },
        };
        assert(guaranteed_model(self) == m0);
        match self.clear_users_with_guaranteed_ticket_after_blacklist(users) {
            Ok(()) => Ok(transfers),
            Err(e) => Err(e),
        }
    }

    /// Takes users off the blacklist, and gives back the guaranteed tickets of those who
    /// hold tickets.  The whole call is refused, and changes nothing, on the first refusal
    /// of either part.
    fn remove_guaranteed_users_from_blacklist_endpoint(&mut self, ctx: &CallContext, users: &Vec<Address>) -> (r: Result<(), LaunchpadError>)
        ensures
            r is Err <==> spec_blacklist_change_error(&old(self).base, *ctx) is Some
                || spec_restore_error(guaranteed_model(old(self)), old(self).base.ticket_range_for_address@.dom(), users@) is Some,
            r matches Err(e) ==> if spec_blacklist_change_error(&old(self).base, *ctx) is Some {
                spec_blacklist_change_error(&old(self).base, *ctx) == Some(e)
            } else {
                spec_restore_error(guaranteed_model(old(self)), old(self).base.ticket_range_for_address@.dom(), users@) == Some(e)
            },
            r is Err ==> *final(self) == *old(self),
            r is Ok ==> {
                let mid = GuaranteedTicketsLaunchpad {
                    base: LaunchpadState { blacklist: final(self).base.blacklist, ..old(self).base },
                    ..*old(self)
                };
                &&& final(self).base.blacklist@ == old(self).base.blacklist@.difference(users@.to_set())
                &&& spec_restore_effect(&mid, final(self), users@)
            },
    {
        self.base.check_change_blacklist(ctx)?;
        self.check_restore_users(users)?;
        let ghost m0 = guaranteed_model(self);
        match self.base.remove_users_from_blacklist(ctx, users) {
            Ok(()) => {},
            Err(e) => {
                return Err(e);
            },
        }
        assert(guaranteed_model(self) == m0);
        self.remove_guaranteed_tickets_from_blacklist(users)
    }

    /// Gives the guaranteed tickets, then draws the tickets left over, while the gas
    /// lasts; where the gas runs out the operation is saved for the next call.  Once both
    /// are done the added winning tickets are paid for and counted as winning.  A refused
    /// call changes nothing.
    fn distribute_guaranteed_tickets_endpoint(&mut self, ctx: &CallContext, gas: &mut GasBudget, fresh_seed: [u8; 32]) -> (r: Result<OperationCompletionStatus, LaunchpadError>)
        ensures
            spec_distribute_error(old(self), ctx.block_round) matches Some(e) ==> r == Err::<OperationCompletionStatus, _>(e),
            r is Err ==> {
                &&& final(self).users_with_guaranteed_ticket@ == old(self).users_with_guaranteed_ticket@
                &&& final(self).base.ticket_status@ == old(self).base.ticket_status@
                &&& final(self).base.ticket_pos_to_id@ == old(self).base.ticket_pos_to_id@
                &&& *final(self) == (GuaranteedTicketsLaunchpad {
                    base: LaunchpadState {
                        ticket_status: final(self).base.ticket_status,
                        ticket_pos_to_id: final(self).base.ticket_pos_to_id,
                        ..old(self).base
                    },
                    users_with_guaranteed_ticket: final(self).users_with_guaranteed_ticket,
                    ..*old(self)
                })
            },
            r is Err && spec_distribute_error(old(self), ctx.block_round) is None
                ==> r == Err::<OperationCompletionStatus, _>(LaunchpadError::ArithmeticError)
                && exists|op0: GuaranteedTicketsSelectionOperation| op_view(op0) == spec_start_view(old(self), fresh_seed)
                    && #[trigger] spec_distribute_failed(old(self), op0, old(gas).gas_left, old(gas).gas_per_iteration),
            r matches Ok(status) ==> spec_distribute_error(old(self), ctx.block_round) is None && exists|
                op0: GuaranteedTicketsSelectionOperation,
                ws1: Seq<Address>,
                st1: Map<usize, bool>,
                op1: GuaranteedTicketsSelectionOperation,
                g1: u64,
                completed1: bool,
            | {
                &&& op_view(op0) == spec_start_view(old(self), fresh_seed)
                &&& #[trigger] spec_guaranteed_ran(
                    old(self).users_with_guaranteed_ticket@,
                    old(self).base.ticket_status@,
                    op0,
                    statuses_view(old(self).user_ticket_status@),
                    old(self).base.nr_confirmed_tickets@,
                    old(self).base.ticket_range_for_address@,
                    old(gas).gas_left,
                    old(gas).gas_per_iteration,
                    ws1,
                    st1,
                    op1,
                    g1,
                    completed1,
                )
                &&& final(self).users_with_guaranteed_ticket@ == ws1
                &&& !completed1 ==> {
                    &&& status == OperationCompletionStatus::InterruptedBeforeOutOfGas
                    &&& final(self).base.ticket_status@ == st1
                    &&& final(self).base.ticket_pos_to_id@ == old(self).base.ticket_pos_to_id@
                    &&& final(gas).gas_left == g1
                    &&& spec_saved_at(old(self), final(self), op1)
                }
                &&& completed1 ==> exists|st2: Map<usize, bool>, pm2: Map<usize, usize>, op2: GuaranteedTicketsSelectionOperation, g2: u64, completed2: bool| {
                    &&& #[trigger] spec_leftover_ran(
                        st1,
                        old(self).base.ticket_pos_to_id@,
                        op_view(op1),
                        old(self).base.nr_winning_tickets,
                        old(self).base.last_ticket_id,
                        g1,
                        old(gas).gas_per_iteration,
                        st2,
                        pm2,
                        op_view(op2),
                        g2,
                        completed2,
                    )
                    &&& completed2 == (status == OperationCompletionStatus::Completed)
                    &&& final(self).base.ticket_status@ == st2
                    &&& final(self).base.ticket_pos_to_id@ == pm2
                    &&& final(gas).gas_left == g2
                    &&& status == OperationCompletionStatus::InterruptedBeforeOutOfGas ==> spec_saved_at(old(self), final(self), op2)
                    &&& status == OperationCompletionStatus::Completed ==> spec_distribution_completed(
                        old(self),
                        final(self),
                        op2.total_additional_winning_tickets as int,
                    )
                }
            },
            final(gas).gas_per_iteration == old(gas).gas_per_iteration,
    {
        if self.base.paused {
            return Err(LaunchpadError::ContractPaused);
        }
        self.base.require_winner_selection_period(ctx.block_round)?;
        let mut flags = self.base.flags;
        if !flags.were_winners_selected {
            return Err(LaunchpadError::MustSelectBaseWinnersFirst);
        }
        if flags.was_additional_step_completed {
            return Err(LaunchpadError::AlreadyDistributedTickets);
        }
        let loaded = self.base.load_additional_selection_operation()?;
        let mut op = match loaded {
            None => GuaranteedTicketsSelectionOperation::default(fresh_seed),
            Some(data) => GuaranteedTicketsSelectionOperation::decode(&data)?,
        };
        assert(op_view(op) == spec_start_view(old(self), fresh_seed));
        let ghost op0 = op;
        let ghost old_self = *self;
        let saved_whitelist = self.users_with_guaranteed_ticket.clone();
        let saved_status = self.base.ticket_status.clone();
        let saved_pos_to_id = self.base.ticket_pos_to_id.clone();
        let ghost g0 = gas.gas_left;
        let first = match self.select_guaranteed_tickets(&mut op, gas) {
            Ok(s) => s,
            Err(e) => {
                assert(spec_distribute_failed(&old_self, op0, g0, gas.gas_per_iteration));
                return Err(e);
            },
        };
        let ghost ws1 = self.users_with_guaranteed_ticket@;
        let ghost st1 = self.base.ticket_status@;
        let ghost op1 = op;
        let ghost g1 = gas.gas_left;
        if first == OperationCompletionStatus::InterruptedBeforeOutOfGas {
            let encoded_data = op.encode();
            self.base.save_progress(OngoingOperationType::AdditionalSelection { encoded_data });
            assert(spec_saved_at(&old_self, self, op1));
            return Ok(OperationCompletionStatus::InterruptedBeforeOutOfGas);
        }
        let second = match self.distribute_leftover_tickets(&mut op, gas) {
            Ok(s) => s,
            Err(e) => {
                assert(spec_distribute_failed(&old_self, op0, g0, gas.gas_per_iteration));
                self.users_with_guaranteed_ticket = saved_whitelist;
                self.base.ticket_status = saved_status;
                return Err(e);
            },
        };
        let ghost op2 = op;
        match second {
            OperationCompletionStatus::InterruptedBeforeOutOfGas => {
                let encoded_data = op.encode();
                self.base.save_progress(OngoingOperationType::AdditionalSelection { encoded_data });
                assert(spec_saved_at(&old_self, self, op2));
            },
            OperationCompletionStatus::Completed => {
                let added = op.total_additional_winning_tickets;
                let payment = match self.base.ticket_price.amount.checked_mul(added as u128) {
                    Some(p) => p,
                    None => {
                        assert(spec_distribute_failed(&old_self, op0, g0, gas.gas_per_iteration));
                        self.users_with_guaranteed_ticket = saved_whitelist;
                        self.base.ticket_status = saved_status;
                        self.base.ticket_pos_to_id = saved_pos_to_id;
                        return Err(LaunchpadError::ArithmeticError);
                    },
                };
                let claimable = match self.base.claimable_ticket_payment.checked_add(payment) {
                    Some(c) => c,
                    None => {
                        assert(spec_distribute_failed(&old_self, op0, g0, gas.gas_per_iteration));
                        self.users_with_guaranteed_ticket = saved_whitelist;
                        self.base.ticket_status = saved_status;
                        self.base.ticket_pos_to_id = saved_pos_to_id;
                        return Err(LaunchpadError::ArithmeticError);
                    },
                };
                if added > usize::MAX - self.base.nr_winning_tickets {
                    assert(spec_distribute_failed(&old_self, op0, g0, gas.gas_per_iteration));
                    self.users_with_guaranteed_ticket = saved_whitelist;
                    self.base.ticket_status = saved_status;
                    self.base.ticket_pos_to_id = saved_pos_to_id;
                    return Err(LaunchpadError::ArithmeticError);
                }
                flags.was_additional_step_completed = true;
                self.base.flags = flags;
                self.base.claimable_ticket_payment = claimable;
                self.base.nr_winning_tickets = self.base.nr_winning_tickets + added;
                self.base.current_ongoing_operation = OngoingOperationType::Idle;
                assert(spec_distribution_completed(&old_self, self, op2.total_additional_winning_tickets as int));
            },
        }
        Ok(second)
    }

    /// Works out a user's results once the claim period starts: the user's winning
    /// tickets give launchpad tokens to claim, and the confirmed tickets that did not win
    /// are paid back.  A refused call changes nothing.
    fn compute_launchpad_results(&mut self, ctx: &CallContext) -> (r: Result<Option<Transfer>, LaunchpadError>)
        ensures
            r is Err <==> spec_results_error(old(self), ctx.caller, ctx.block_round) is Some,
            r matches Err(e) ==> spec_results_error(old(self), ctx.caller, ctx.block_round) == Some(e),
            r is Err ==> *final(self) == *old(self),
            r matches Ok(refund) ==> spec_results_effect(old(self), final(self), ctx.caller)
                && spec_results_refund(old(self), ctx.caller, refund),
    {
        let (range, redeem, confirmed) = self.check_launchpad_results(ctx)?;
        let caller = ctx.caller;
        let refund = match self.base.refund_ticket_payment(caller, confirmed - redeem) {
            Ok(t) => t,
            Err(e) => {
                return Err(e);
            },
        };
        let ghost old_self = *self;
        self.clear_range_tickets(range);
        self.base.nr_confirmed_tickets.remove(&caller);
        self.base.ticket_range_for_address.remove(&caller);
        self.base.ticket_batch.remove(&range.first_id);
        self.base.nr_winning_tickets = self.base.nr_winning_tickets - redeem;
        self.claim_list.insert(caller);
        if redeem > 0 {
            let won = self.base.launchpad_tokens_per_winning_ticket * (redeem as u128);
            self.user_total_claimable_balance.insert(caller, won);
        }
        Ok(refund)
    }

    /// A user claims: the user's results are worked out on the first claim, with a refund
    /// of the confirmed tickets that did not win, then the launchpad tokens released so far
    /// and not yet claimed are sent.  A refused call changes nothing.
    fn claim_launchpad_tokens_endpoint(&mut self, ctx: &CallContext) -> (r: Result<(Option<Transfer>, Option<Transfer>), LaunchpadError>)
        ensures
            r is Err <==> spec_claim_error(old(self), ctx.caller, ctx.block_round, ctx.block_epoch) is Some,
            r matches Err(e) ==> spec_claim_error(old(self), ctx.caller, ctx.block_round, ctx.block_epoch) == Some(e),
            r is Err ==> *final(self) == *old(self),
            r matches Ok((refund, tokens)) ==> exists|mid: GuaranteedTicketsLaunchpad| #![trigger spec_claimable_tokens(&mid, ctx.caller, ctx.block_epoch)] {
                &&& old(self).claim_list@.contains(ctx.caller) ==> mid == *old(self) && refund is None
                &&& !old(self).claim_list@.contains(ctx.caller) ==> spec_results_effect(old(self), &mid, ctx.caller)
                    && spec_results_refund(old(self), ctx.caller, refund)
                &&& spec_claimable_tokens(&mid, ctx.caller, ctx.block_epoch) matches Some(v) && {
                    &&& spec_token_payment(&mid, ctx.caller, v, tokens)
                    &&& final(self).user_claimed_balance@ == if v > 0 {
                        mid.user_claimed_balance@.insert(ctx.caller, (stored_or(mid.user_claimed_balance@, ctx.caller, 0) + v) as u128)
                    } else {
                        mid.user_claimed_balance@
                    }
                    &&& *final(self) == (GuaranteedTicketsLaunchpad { user_claimed_balance: final(self).user_claimed_balance, ..mid })
                }
            },
    {
        if self.base.paused {
            return Err(LaunchpadError::ContractPaused);
        }
        let caller = ctx.caller;
        let mut refund: Option<Transfer> = None;
        if !self.claim_list.contains(&caller) {
            let (range, redeem, _confirmed) = self.check_launchpad_results(ctx)?;
            let claimed = get_by_address(&self.user_claimed_balance, caller, 0);
            let total = if redeem > 0 {
                self.base.launchpad_tokens_per_winning_ticket * (redeem as u128)
            } else {
                get_by_address(&self.user_total_claimable_balance, caller, 0)
            };
            self.claimable_from(total, claimed, ctx.block_epoch)?;
            refund = match self.compute_launchpad_results(ctx) {
                Ok(t) => t,
                Err(e) => {
                    return Err(e);
                },
            };
        }
        let ghost mid = *self;
        let claimable_tokens = match self.compute_claimable_tokens(caller, ctx.block_epoch) {
            Ok(v) => v,
            Err(e) => {
                return Err(e);
            },
        };
        let mut tokens: Option<Transfer> = None;
        if claimable_tokens > 0 {
            tokens = Some(Transfer {
                to: caller,
                token_id: self.base.launchpad_token_id.clone(),
                token_nonce: 0,
                amount: claimable_tokens,
            });
            let claimed = get_by_address(&self.user_claimed_balance, caller, 0);
            self.user_claimed_balance.insert(caller, claimed + claimable_tokens);
        }
        assert(spec_claimable_tokens(&mid, caller, ctx.block_epoch) is Some);
        Ok((refund, tokens))
    }

    /// The owner takes, in the claim period, the payments of the winning tickets, and the
    /// deposited launchpad tokens that the winning tickets do not need.  A refused call
    /// changes nothing.
    fn claim_ticket_payment_endpoint(&mut self, ctx: &CallContext) -> (r: Result<Vec<Transfer>, LaunchpadError>)
        ensures
            ({
                let price = old(self).base.ticket_price.amount;
                let deposited = old(self).base.total_launchpad_tokens_deposited;
                let e = if ctx.caller != ctx.owner {
                    Some(LaunchpadError::OnlyOwner)
                } else if old(self).base.stage_at(ctx.block_round) != LaunchStage::Claim {
                    Some(LaunchpadError::NotInClaimPeriod)
                } else if deposited > 0 && (price == 0
                    || (old(self).base.claimable_ticket_payment / price) * old(self).base.launchpad_tokens_per_winning_ticket > u128::MAX) {
                    Some(LaunchpadError::ArithmeticError)
                } else {
                    None
                };
                &&& r is Err <==> e is Some
                &&& r matches Err(err) ==> e == Some(err)
            }),
            r is Err ==> *final(self) == *old(self),
            r matches Ok(transfers) ==> {
                let price = old(self).base.ticket_price.amount;
                let claimable = old(self).base.claimable_ticket_payment;
                let deposited = old(self).base.total_launchpad_tokens_deposited;
                let won = (claimable / price) * old(self).base.launchpad_tokens_per_winning_ticket;
                let pays = claimable > 0;
                let extra = deposited > 0 && won < deposited;
                &&& *final(self) == (GuaranteedTicketsLaunchpad {
                    base: LaunchpadState { claimable_ticket_payment: 0, total_launchpad_tokens_deposited: 0, ..old(self).base },
                    ..*old(self)
                })
                &&& transfers@.len() == (if pays { 1int } else { 0 }) + (if extra { 1int } else { 0 })
                &&& pays ==> transfers@[0].to == ctx.caller && transfers@[0].token_id@ == old(self).base.ticket_price.token_id@
                    && transfers@[0].token_nonce == 0 && transfers@[0].amount == claimable
                &&& extra ==> {
                    let t = transfers@[transfers@.len() - 1];
                    t.to == ctx.caller && t.token_id@ == old(self).base.launchpad_token_id@ && t.token_nonce == 0
                        && t.amount == deposited - won
                }
            },
    {
        if ctx.caller != ctx.owner {
            return Err(LaunchpadError::OnlyOwner);
        }
        self.base.require_claim_period(ctx.block_round)?;
        let owner = ctx.caller;
        let price = self.base.ticket_price.amount;
        let claimable_ticket_payment = self.base.claimable_ticket_payment;
        let deposited = self.base.total_launchpad_tokens_deposited;
        let mut won: u128 = 0;
        if deposited > 0 {
            if price == 0 {
                return Err(LaunchpadError::ArithmeticError);
            }
            let total_nr_winning_tickets = claimable_ticket_payment / price;
            won = match total_nr_winning_tickets.checked_mul(self.base.launchpad_tokens_per_winning_ticket) {
                Some(w) => w,
                None => {
                    return Err(LaunchpadError::ArithmeticError);
                },
            };
        }
        let mut transfers: Vec<Transfer> = Vec::new();
        if claimable_ticket_payment > 0 {
            self.base.claimable_ticket_payment = 0;
            transfers.push(Transfer {
                to: owner,
                token_id: self.base.ticket_price.token_id.clone(),
                token_nonce: 0,
                amount: claimable_ticket_payment,
            });
        }
        self.base.total_launchpad_tokens_deposited = 0;
        if deposited > 0 && won < deposited {
            transfers.push(Transfer {
                to: owner,
                token_id: self.base.launchpad_token_id.clone(),
                token_nonce: 0,
                amount: deposited - won,
            });
        }
        Ok(transfers)
    }
}

} // verus!
