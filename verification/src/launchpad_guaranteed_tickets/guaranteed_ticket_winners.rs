//! Giving the guaranteed tickets of the top tier: each user of the top tier who
//! confirmed every ticket and won none gets the first ticket as a winning one; the other
//! guaranteed tickets are drawn again among all tickets.

use vstd::prelude::*;

use crate::launchpad_common::config::{CallContext, LaunchpadState};
use crate::launchpad_common::errors::LaunchpadError;
use crate::launchpad_common::launch_stage::{Flags, LaunchStage, LaunchStageModule};
use crate::launchpad_common::ongoing_operation::{
    gas_after, spec_can_continue, spec_gas_iter, GasBudget, OngoingOperationModule, OngoingOperationType, OperationCompletionStatus,
    MIN_GAS_TO_SAVE_PROGRESS,
};
use crate::launchpad_common::random::{spec_in_range, spec_next_from, Random};
use crate::launchpad_common::winner_selection::spec_id_at;
use crate::launchpad_common::storage::{get_by_address, get_by_index, stored_or, Address};
use crate::launchpad_common::tickets::{range_wf, TicketRange, TicketsModule, WINNING_TICKET};
use crate::launchpad_guaranteed_tickets::state::GuaranteedTicketsLaunchpadV1;
use crate::launchpad_guaranteed_tickets_v2::guaranteed_ticket_winners::{
    is_winning_in, op_view, spec_count_winning, spec_decode_operation, spec_encode_operation,
    spec_try_select, AdditionalSelectionTryResult, GuaranteedTicketsSelectionOperation, SelectionView,
};
use crate::launchpad_guaranteed_tickets_v2::guaranteed_tickets_init::{lemma_swap_remove, spec_swap_remove, vec_swap_remove_value};

verus! {

broadcast use vstd::std_specs::hash::group_hash_axioms;

/// The users of the top tier left, the ticket statuses and the operation after one more
/// step of the giving, and whether it stopped: the first user left is taken off the
/// list; one who confirmed the top tier's tickets and won none gets the first ticket,
/// and any other leaves a ticket for the draw.  `None` where the user holds no tickets
/// to read, or a count leaves the integers.
pub open spec fn spec_v1_select_process(
    ws: Seq<Address>,
    status: Map<usize, bool>,
    op: GuaranteedTicketsSelectionOperation,
    confirmed: Map<Address, usize>,
    ranges: Map<Address, TicketRange>,
    max_tier_tickets: usize,
) -> Option<(Seq<Address>, Map<usize, bool>, GuaranteedTicketsSelectionOperation, bool)> {
    if ws.len() == 0 {
        Some((ws, status, op, true))
    } else {
        let u = ws[0];
        let ws2 = spec_swap_remove(ws, u);
        if stored_or(confirmed, u, 0) == max_tier_tickets {
            if !ranges.contains_key(u) {
                None
            } else {
                let range = ranges[u];
                if spec_count_winning(status, range.first_id as int, range.last_id as int) == 0 {
                    if op.total_additional_winning_tickets + 1 > usize::MAX {
                        None
                    } else {
                        Some((
                            ws2,
                            status.insert(range.first_id, true),
                            GuaranteedTicketsSelectionOperation {
                                total_additional_winning_tickets: (op.total_additional_winning_tickets + 1) as usize,
                                ..op
                            },
                            false,
                        ))
                    }
                } else if op.leftover_tickets + 1 > usize::MAX {
                    None
                } else {
                    Some((ws2, status, GuaranteedTicketsSelectionOperation { leftover_tickets: (op.leftover_tickets + 1) as usize, ..op }, false))
                }
            }
        } else if op.leftover_tickets + 1 > usize::MAX {
            None
        } else {
            Some((ws2, status, GuaranteedTicketsSelectionOperation { leftover_tickets: (op.leftover_tickets + 1) as usize, ..op }, false))
        }
    }
}

/// Every guaranteed ticket of the top tier is accounted for: a step that takes a user
/// off the list adds exactly one ticket to those won or to those left to draw, so
/// `total_additional_winning_tickets + leftover_tickets` grows by one per user.  The user
/// who confirmed every ticket of the tier and won none gets the first ticket of the
/// user's range as a winning one and it is counted as won; for any other user no ticket
/// changes and the ticket goes to the draw.  The generator and the draw's position are
/// untouched.
pub proof fn lemma_v1_guarantee_accounted(
    ws: Seq<Address>,
    status: Map<usize, bool>,
    op: GuaranteedTicketsSelectionOperation,
    confirmed: Map<Address, usize>,
    ranges: Map<Address, TicketRange>,
    max_tier_tickets: usize,
)
    requires
        ws.len() > 0,
        ws.no_duplicates(),
        stored_or(confirmed, ws[0], 0) == max_tier_tickets ==> ranges.contains_key(ws[0]),
        op.total_additional_winning_tickets + 1 <= usize::MAX,
        op.leftover_tickets + 1 <= usize::MAX,
    ensures
        spec_v1_select_process(ws, status, op, confirmed, ranges, max_tier_tickets) matches Some((ws2, st, op2, stopped)) && {
            let u = ws[0];
            let guaranteed = stored_or(confirmed, u, 0) == max_tier_tickets
                && spec_count_winning(status, ranges[u].first_id as int, ranges[u].last_id as int) == 0;
            &&& !stopped
            &&& op2.total_additional_winning_tickets + op2.leftover_tickets
                == op.total_additional_winning_tickets + op.leftover_tickets + 1
            &&& guaranteed ==> op2.total_additional_winning_tickets == op.total_additional_winning_tickets + 1
                && st == status.insert(ranges[u].first_id, true)
            &&& !guaranteed ==> op2.leftover_tickets == op.leftover_tickets + 1 && st == status
            &&& op2.rng == op.rng && op2.leftover_ticket_pos_offset == op.leftover_ticket_pos_offset
            &&& ws2.len() == ws.len() - 1
            &&& forall|x: Address| #[trigger] ws2.contains(x) <==> ws.contains(x) && x != u
        },
{
    assert(ws.contains(ws[0]));
    lemma_swap_remove(ws, ws[0]);
}

/// Every left-over ticket is accounted for: a step of the draw leaves
/// `leftover + total_additional_winning_tickets` as it was, and a ticket becomes winning
/// exactly when it is counted as won: either one ticket that was not winning wins and
/// the count of won tickets grows by one, or no ticket changes and the count stays.
pub proof fn lemma_v1_leftover_accounted(
    status: Map<usize, bool>,
    pos_map: Map<usize, usize>,
    o: SelectionView,
    nr_original_winning_tickets: usize,
    last: usize,
)
    requires
        o.2 > 0,
        nr_original_winning_tickets + o.3 + 1 <= usize::MAX,
        o.4 + 1 <= usize::MAX,
        last < usize::MAX,
    ensures
        spec_v1_leftover_process(status, pos_map, o, nr_original_winning_tickets, last) matches Some((st, pm, o2, stopped)) && {
            &&& !stopped
            &&& o2.2 + o2.4 == o.2 + o.4
            &&& (o2.4 == o.4 + 1 && exists|id: usize| !is_winning_in(status, id) && st == #[trigger] status.insert(id, true))
                || (o2.4 == o.4 && st == status)
        },
{
    let (seed, index, leftover, offset, total) = o;
    let cur = (nr_original_winning_tickets + offset) as usize;
    let (st, pm, seed2, index2, result) = spec_try_select(status, pos_map, seed, index, cur, last);
    if result == AdditionalSelectionTryResult::Selected {
        let (s2, i2, value) = spec_next_from(seed, index);
        let rand_pos = spec_in_range(value, cur, (last + 1) as usize) as usize;
        let id = spec_id_at(pos_map, rand_pos);
        assert(!is_winning_in(status, id) && st == status.insert(id, true));
    }
}

/// Why a step of the giving fails: a user holds no tickets to read, or a count leaves
/// the integers.
pub open spec fn spec_v1_select_step_error(ws: Seq<Address>, confirmed: Map<Address, usize>, ranges: Map<Address, TicketRange>, max_tier_tickets: usize) -> LaunchpadError {
    if ws.len() > 0 && stored_or(confirmed, ws[0], 0) == max_tier_tickets && !ranges.contains_key(ws[0]) {
        LaunchpadError::StorageDecodeError
    } else {
        LaunchpadError::ArithmeticError
    }
}

/// The giving after `n` steps, staying where it stopped.
pub open spec fn spec_v1_select_iterate(
    ws: Seq<Address>,
    status: Map<usize, bool>,
    op: GuaranteedTicketsSelectionOperation,
    confirmed: Map<Address, usize>,
    ranges: Map<Address, TicketRange>,
    max_tier_tickets: usize,
    n: nat,
) -> Option<(Seq<Address>, Map<usize, bool>, GuaranteedTicketsSelectionOperation, bool)>
    decreases n,
{
    if n == 0 {
        Some((ws, status, op, false))
    } else {
        match spec_v1_select_iterate(ws, status, op, confirmed, ranges, max_tier_tickets, (n - 1) as nat) {
            None => None,
            Some((w, st, o, stopped)) => if stopped {
                Some((w, st, o, true))
            } else {
                spec_v1_select_process(w, st, o, confirmed, ranges, max_tier_tickets)
            },
        }
    }
}

/// A run of the giving from one state to another, in the sense of the other runs.
pub open spec fn spec_v1_select_ran(
    ws0: Seq<Address>,
    st0: Map<usize, bool>,
    op0: GuaranteedTicketsSelectionOperation,
    confirmed: Map<Address, usize>,
    ranges: Map<Address, TicketRange>,
    max_tier_tickets: usize,
    gas0: u64,
    cost: u64,
    ws: Seq<Address>,
    st: Map<usize, bool>,
    op: GuaranteedTicketsSelectionOperation,
    gas: u64,
    completed: bool,
) -> bool {
    exists|n: nat| #![trigger spec_v1_select_iterate(ws0, st0, op0, confirmed, ranges, max_tier_tickets, n)]
        n >= 1 && spec_v1_select_iterate(ws0, st0, op0, confirmed, ranges, max_tier_tickets, n) == Some((ws, st, op, completed))
        && gas == spec_gas_iter(gas0, cost, if completed { (n - 1) as nat } else { n })
        && (forall|i: nat| 1 <= i < n ==> {
            &&& #[trigger] spec_v1_select_iterate(ws0, st0, op0, confirmed, ranges, max_tier_tickets, i) matches Some(t) && !t.3
            &&& spec_can_continue(spec_gas_iter(gas0, cost, i), cost)
        })
        && (!completed ==> !spec_can_continue(spec_gas_iter(gas0, cost, n), cost))
}

/// A run of the giving that stops on a refusal: the steps before the failing one did not
/// finish the giving and the gas allowed each of them to be followed by another, and the
/// failing step refuses with `e`.
pub open spec fn spec_v1_select_failed(
    ws0: Seq<Address>,
    st0: Map<usize, bool>,
    op0: GuaranteedTicketsSelectionOperation,
    confirmed: Map<Address, usize>,
    ranges: Map<Address, TicketRange>,
    max_tier_tickets: usize,
    gas0: u64,
    cost: u64,
    e: LaunchpadError,
) -> bool {
    exists|n: nat| #![trigger spec_v1_select_iterate(ws0, st0, op0, confirmed, ranges, max_tier_tickets, n)]
        n >= 1 && spec_v1_select_iterate(ws0, st0, op0, confirmed, ranges, max_tier_tickets, n) is None
        && (spec_v1_select_iterate(ws0, st0, op0, confirmed, ranges, max_tier_tickets, (n - 1) as nat) matches Some(t)
            && !t.3 && e == spec_v1_select_step_error(t.0, confirmed, ranges, max_tier_tickets))
        && (forall|i: nat| 1 <= i < n ==> spec_can_continue(#[trigger] spec_gas_iter(gas0, cost, i), cost))
}

/// A step that refuses after steps that neither finished nor ran out of gas is a failed run.
proof fn lemma_v1_select_fails_at(
    ws0: Seq<Address>,
    st0: Map<usize, bool>,
    op0: GuaranteedTicketsSelectionOperation,
    confirmed: Map<Address, usize>,
    ranges: Map<Address, TicketRange>,
    max_tier_tickets: usize,
    gas0: u64,
    cost: u64,
    n: nat,
    e: LaunchpadError,
)
    requires
        n >= 1,
        spec_v1_select_iterate(ws0, st0, op0, confirmed, ranges, max_tier_tickets, n) is None,
        spec_v1_select_iterate(ws0, st0, op0, confirmed, ranges, max_tier_tickets, (n - 1) as nat) matches Some(t)
            && !t.3 && e == spec_v1_select_step_error(t.0, confirmed, ranges, max_tier_tickets),
        forall|i: nat| 1 <= i <= n - 1 ==> {
            &&& #[trigger] spec_v1_select_iterate(ws0, st0, op0, confirmed, ranges, max_tier_tickets, i) matches Some(t) && !t.3
            &&& spec_can_continue(spec_gas_iter(gas0, cost, i), cost)
        },
    ensures
        spec_v1_select_failed(ws0, st0, op0, confirmed, ranges, max_tier_tickets, gas0, cost, e),
{
    assert forall|i: nat| 1 <= i < n implies spec_can_continue(#[trigger] spec_gas_iter(gas0, cost, i), cost) by {
        assert(spec_v1_select_iterate(ws0, st0, op0, confirmed, ranges, max_tier_tickets, i) is Some);
    }
}

/// The draw of left-over tickets after one more step, and whether it stopped: it stops
/// once no ticket is left to draw; a ticket won moves to the next position, a position
/// whose ticket wins already too, and a drawn ticket that wins already is drawn again.
/// `None` where a count leaves the integers.
pub open spec fn spec_v1_leftover_process(
    status: Map<usize, bool>,
    pos_map: Map<usize, usize>,
    o: SelectionView,
    nr_original_winning_tickets: usize,
    last: usize,
) -> Option<(Map<usize, bool>, Map<usize, usize>, SelectionView, bool)> {
    let (seed, index, leftover, offset, total) = o;
    if leftover == 0 {
        Some((status, pos_map, o, true))
    } else if nr_original_winning_tickets + offset > usize::MAX {
        None
    } else {
        let cur = (nr_original_winning_tickets + offset) as usize;
        let (st, pm, seed2, index2, result) = spec_try_select(status, pos_map, seed, index, cur, last);
        match result {
            AdditionalSelectionTryResult::Selected => if total + 1 > usize::MAX || offset + 1 > usize::MAX {
                None
            } else {
                Some((st, pm, (seed2, index2, (leftover - 1) as usize, (offset + 1) as usize, (total + 1) as usize), false))
            },
            AdditionalSelectionTryResult::CurrentAlreadyWinning => if offset + 1 > usize::MAX {
                None
            } else {
                Some((st, pm, (seed2, index2, leftover, (offset + 1) as usize, total), false))
            },
            AdditionalSelectionTryResult::NewlySelectedAlreadyWinning => Some((st, pm, (seed2, index2, leftover, offset, total), false)),
        }
    }
}

/// The draw after `n` steps, staying where it stopped.
pub open spec fn spec_v1_leftover_iterate(
    status: Map<usize, bool>,
    pos_map: Map<usize, usize>,
    o: SelectionView,
    nr_original_winning_tickets: usize,
    last: usize,
    n: nat,
) -> Option<(Map<usize, bool>, Map<usize, usize>, SelectionView, bool)>
    decreases n,
{
    if n == 0 {
        Some((status, pos_map, o, false))
    } else {
        match spec_v1_leftover_iterate(status, pos_map, o, nr_original_winning_tickets, last, (n - 1) as nat) {
            None => None,
            Some((st, pm, ov, stopped)) => if stopped {
                Some((st, pm, ov, true))
            } else {
                spec_v1_leftover_process(st, pm, ov, nr_original_winning_tickets, last)
            },
        }
    }
}

/// A run of the draw from one state to another, in the sense of the other runs.
pub open spec fn spec_v1_leftover_ran(
    st0: Map<usize, bool>,
    pm0: Map<usize, usize>,
    o0: SelectionView,
    nr_original_winning_tickets: usize,
    last: usize,
    gas0: u64,
    cost: u64,
    st: Map<usize, bool>,
    pm: Map<usize, usize>,
    o: SelectionView,
    gas: u64,
    completed: bool,
) -> bool {
    exists|n: nat| #![trigger spec_v1_leftover_iterate(st0, pm0, o0, nr_original_winning_tickets, last, n)]
        n >= 1 && spec_v1_leftover_iterate(st0, pm0, o0, nr_original_winning_tickets, last, n) == Some((st, pm, o, completed))
        && gas == spec_gas_iter(gas0, cost, if completed { (n - 1) as nat } else { n })
        && (forall|i: nat| 1 <= i < n ==> {
            &&& #[trigger] spec_v1_leftover_iterate(st0, pm0, o0, nr_original_winning_tickets, last, i) matches Some(t) && !t.3
            &&& spec_can_continue(spec_gas_iter(gas0, cost, i), cost)
        })
        && (!completed ==> !spec_can_continue(spec_gas_iter(gas0, cost, n), cost))
}

/// A run of the draw that stops on a refusal: the steps before the failing one did not
/// finish the draw and the gas allowed each of them to be followed by another.
pub open spec fn spec_v1_leftover_failed(
    st0: Map<usize, bool>,
    pm0: Map<usize, usize>,
    o0: SelectionView,
    nr_original_winning_tickets: usize,
    last: usize,
    gas0: u64,
    cost: u64,
) -> bool {
    exists|n: nat| #![trigger spec_v1_leftover_iterate(st0, pm0, o0, nr_original_winning_tickets, last, n)]
        n >= 1 && spec_v1_leftover_iterate(st0, pm0, o0, nr_original_winning_tickets, last, n) is None
        && (spec_v1_leftover_iterate(st0, pm0, o0, nr_original_winning_tickets, last, (n - 1) as nat) matches Some(t) && !t.3)
        && (forall|i: nat| 1 <= i < n ==> spec_can_continue(#[trigger] spec_gas_iter(gas0, cost, i), cost))
}

/// A step that refuses after steps that neither finished nor ran out of gas is a failed run.
proof fn lemma_v1_leftover_fails_at(
    st0: Map<usize, bool>,
    pm0: Map<usize, usize>,
    o0: SelectionView,
    nr_original_winning_tickets: usize,
    last: usize,
    gas0: u64,
    cost: u64,
    n: nat,
)
    requires
        n >= 1,
        spec_v1_leftover_iterate(st0, pm0, o0, nr_original_winning_tickets, last, n) is None,
        spec_v1_leftover_iterate(st0, pm0, o0, nr_original_winning_tickets, last, (n - 1) as nat) matches Some(t) && !t.3,
        forall|i: nat| 1 <= i <= n - 1 ==> {
            &&& #[trigger] spec_v1_leftover_iterate(st0, pm0, o0, nr_original_winning_tickets, last, i) matches Some(t) && !t.3
            &&& spec_can_continue(spec_gas_iter(gas0, cost, i), cost)
        },
    ensures
        spec_v1_leftover_failed(st0, pm0, o0, nr_original_winning_tickets, last, gas0, cost),
{
    assert forall|i: nat| 1 <= i < n implies spec_can_continue(#[trigger] spec_gas_iter(gas0, cost, i), cost) by {
        assert(spec_v1_leftover_iterate(st0, pm0, o0, nr_original_winning_tickets, last, i) is Some);
    }
}

/// The gas check between steps: another step fits.
fn may_continue(gas_left: u64, cost: u64) -> (r: bool)
    ensures
        r == spec_can_continue(gas_left, cost),
{
    gas_left > MIN_GAS_TO_SAVE_PROGRESS && gas_left - MIN_GAS_TO_SAVE_PROGRESS > cost
}

/// Why the guaranteed tickets cannot be given now: it is not the winner selection, the
/// lottery has not picked its winners, they were given already, another operation is in
/// progress, or the saved operation cannot be read.
pub open spec fn spec_v1_distribute_error(base: &LaunchpadState, round: u64) -> Option<LaunchpadError> {
    if base.stage_at(round) != LaunchStage::WinnerSelection {
        Some(LaunchpadError::NotInWinnerSelectionPeriod)
    } else if !base.flags.were_winners_selected {
        Some(LaunchpadError::MustSelectBaseWinnersFirst)
    } else if base.flags.was_additional_step_completed {
        Some(LaunchpadError::AlreadyDistributedTickets)
    } else {
        match base.current_ongoing_operation {
            OngoingOperationType::Idle => None,
            OngoingOperationType::AdditionalSelection { encoded_data } => if spec_decode_operation(encoded_data@) is None {
                Some(LaunchpadError::InvalidOperationData)
            } else {
                None
            },
            _ => Some(LaunchpadError::AnotherOperationInProgress),
        }
    }
}

/// The operation the giving starts from: a fresh one on the chain's seed, or the saved one.
pub open spec fn spec_v1_start_view(base: &LaunchpadState, fresh_seed: [u8; 32]) -> SelectionView {
    match base.current_ongoing_operation {
        OngoingOperationType::AdditionalSelection { encoded_data } => {
            let (seed, index, leftover, offset, total) = spec_decode_operation(encoded_data@).unwrap();
            (seed, index, leftover as usize, offset as usize, total as usize)
        },
        _ => (fresh_seed@, 0int, 0usize, 1usize, 0usize),
    }
}

/// The state after the giving stopped for want of gas, with the operation saved.
pub open spec fn spec_v1_saved_at(old: &GuaranteedTicketsLaunchpadV1, new: &GuaranteedTicketsLaunchpadV1, op: GuaranteedTicketsSelectionOperation) -> bool {
    &&& new.base.current_ongoing_operation matches OngoingOperationType::AdditionalSelection { encoded_data }
        && encoded_data@ == spec_encode_operation(op)
    &&& *new == (GuaranteedTicketsLaunchpadV1 {
        base: LaunchpadState {
            ticket_status: new.base.ticket_status,
            ticket_pos_to_id: new.base.ticket_pos_to_id,
            current_ongoing_operation: new.base.current_ongoing_operation,
            ..old.base
        },
        max_tier_users: new.max_tier_users,
        ..*old
    })
}

/// The state after the giving completed: the step is marked done, and the added winning
/// tickets are paid for and counted as winning.
pub open spec fn spec_v1_distribution_completed(old: &GuaranteedTicketsLaunchpadV1, new: &GuaranteedTicketsLaunchpadV1, added: int) -> bool {
    *new == (GuaranteedTicketsLaunchpadV1 {
        base: LaunchpadState {
            ticket_status: new.base.ticket_status,
            ticket_pos_to_id: new.base.ticket_pos_to_id,
            flags: Flags { was_additional_step_completed: true, ..old.base.flags },
            claimable_ticket_payment: (old.base.claimable_ticket_payment + old.base.ticket_price.amount * added) as u128,
            nr_winning_tickets: (old.base.nr_winning_tickets + added) as usize,
            current_ongoing_operation: OngoingOperationType::Idle,
            ..old.base
        },
        max_tier_users: new.max_tier_users,
        ..*old
    })
}

/// A giving that no refusal stops and that still fails, from the operation `op0` and the
/// gas `gas0`: the giving to the top tier fails with `e`; or it completes and the draw of
/// left-over tickets then overflows; or both complete and the payment owed for the added
/// winning tickets, or their count, overflows.
pub open spec fn spec_v1_distribute_failed(
    old: &GuaranteedTicketsLaunchpadV1,
    op0: GuaranteedTicketsSelectionOperation,
    gas0: u64,
    cost: u64,
    e: LaunchpadError,
) -> bool {
    let conf = old.base.nr_confirmed_tickets@;
    let ranges = old.base.ticket_range_for_address@;
    ||| spec_v1_select_failed(old.max_tier_users@, old.base.ticket_status@, op0, conf, ranges, old.max_tier_tickets, gas0, cost, e)
    ||| e == LaunchpadError::ArithmeticError && exists|ws1: Seq<Address>, st1: Map<usize, bool>, op1: GuaranteedTicketsSelectionOperation, g1: u64|
        #[trigger] spec_v1_select_ran(old.max_tier_users@, old.base.ticket_status@, op0, conf, ranges, old.max_tier_tickets, gas0, cost, ws1, st1, op1, g1, true)
        && {
            ||| spec_v1_leftover_failed(st1, old.base.ticket_pos_to_id@, op_view(op1), old.base.nr_winning_tickets, old.base.last_ticket_id, g1, cost)
            ||| exists|st2: Map<usize, bool>, pm2: Map<usize, usize>, op2: GuaranteedTicketsSelectionOperation, g2: u64|
                #[trigger] spec_v1_leftover_ran(st1, old.base.ticket_pos_to_id@, op_view(op1), old.base.nr_winning_tickets,
                    old.base.last_ticket_id, g1, cost, st2, pm2, op_view(op2), g2, true)
                && (old.base.claimable_ticket_payment + old.base.ticket_price.amount * op2.total_additional_winning_tickets > u128::MAX
                    || old.base.nr_winning_tickets + op2.total_additional_winning_tickets > usize::MAX)
        }
}

/// Giving the guaranteed tickets of the top tier.
pub trait GuaranteedTicketWinnersModule {
    /// The ticket tables are well formed and the sets of users hold no user twice.
    spec fn winners_wf(&self) -> bool;

    fn has_any_winning_tickets(&self, ticket_range: &TicketRange) -> bool
        requires
            ticket_range.last_id < usize::MAX,
    ;

    fn is_already_winning_ticket(&self, ticket_id: usize) -> bool;

    fn select_guaranteed_tickets(&mut self, op: &mut GuaranteedTicketsSelectionOperation, gas: &mut GasBudget) -> Result<OperationCompletionStatus, LaunchpadError>
        requires
            old(self).winners_wf(),
            old(gas).gas_per_iteration > 0,
    ;

    fn distribute_leftover_tickets(&mut self, op: &mut GuaranteedTicketsSelectionOperation, gas: &mut GasBudget) -> Result<OperationCompletionStatus, LaunchpadError>
        requires
            old(self).winners_wf(),
            old(gas).gas_per_iteration > 0,
    ;

    fn save_custom_operation(&mut self, op: &GuaranteedTicketsSelectionOperation);

    fn distribute_guaranteed_tickets(&mut self, ctx: &CallContext, gas: &mut GasBudget, fresh_seed: [u8; 32]) -> Result<OperationCompletionStatus, LaunchpadError>
        requires
            old(self).winners_wf(),
            old(gas).gas_per_iteration > 0,
    ;
}

impl GuaranteedTicketWinnersModule for GuaranteedTicketsLaunchpadV1 {
    open spec fn winners_wf(&self) -> bool {
        self.wf()
    }

    /// Whether a ticket of a range wins.
    fn has_any_winning_tickets(&self, ticket_range: &TicketRange) -> (r: bool)
        ensures
            r == (spec_count_winning(self.base.ticket_status@, ticket_range.first_id as int, ticket_range.last_id as int) > 0),
    {
        let ghost status = self.base.ticket_status@;
        let first = ticket_range.first_id;
        let last = ticket_range.last_id;
        if first > last {
            return false;
        }
        let mut ticket_id = first;
        while ticket_id <= last
            invariant
                status == self.base.ticket_status@,
                first == ticket_range.first_id,
                last == ticket_range.last_id,
                first <= ticket_id <= last + 1,
                last < usize::MAX,
                spec_count_winning(status, first as int, ticket_id - 1) == 0,
            decreases last + 1 - ticket_id,
        {
            if get_by_index(&self.base.ticket_status, ticket_id, false) == WINNING_TICKET {
                proof {
                    crate::launchpad_guaranteed_tickets_v2::guaranteed_ticket_winners::lemma_count_winning_bounds(status, first as int, ticket_id as int);
                    lemma_count_winning_grows(status, first as int, ticket_id as int, last as int);
                }
                return true;
            }
            ticket_id = ticket_id + 1;
        }
        false
    }

    fn is_already_winning_ticket(&self, ticket_id: usize) -> (r: bool)
        ensures
            r == is_winning_in(self.base.ticket_status@, ticket_id),
    {
        get_by_index(&self.base.ticket_status, ticket_id, false) == WINNING_TICKET
    }

    /// Gives the guaranteed tickets of the top tier while the gas lasts.  Refused,
    /// changing nothing, on a user without tickets or where a count would leave the
    /// integers.
    #[verifier::rlimit(60)]
    #[verifier::spinoff_prover]
    fn select_guaranteed_tickets(&mut self, op: &mut GuaranteedTicketsSelectionOperation, gas: &mut GasBudget) -> (r: Result<OperationCompletionStatus, LaunchpadError>)
        ensures
            r is Err ==> *final(op) == *old(op) && final(self).base.ticket_status@ == old(self).base.ticket_status@
                && final(self).max_tier_users@ == old(self).max_tier_users@,
            r matches Err(e) ==> spec_v1_select_failed(
                old(self).max_tier_users@,
                old(self).base.ticket_status@,
                *old(op),
                old(self).base.nr_confirmed_tickets@,
                old(self).base.ticket_range_for_address@,
                old(self).max_tier_tickets,
                old(gas).gas_left,
                old(gas).gas_per_iteration,
                e,
            ),
            r matches Ok(status) ==> spec_v1_select_ran(
                old(self).max_tier_users@,
                old(self).base.ticket_status@,
                *old(op),
                old(self).base.nr_confirmed_tickets@,
                old(self).base.ticket_range_for_address@,
                old(self).max_tier_tickets,
                old(gas).gas_left,
                old(gas).gas_per_iteration,
                final(self).max_tier_users@,
                final(self).base.ticket_status@,
                *final(op),
                final(gas).gas_left,
                status == OperationCompletionStatus::Completed,
            ),
            *final(self) == (GuaranteedTicketsLaunchpadV1 {
                base: LaunchpadState { ticket_status: final(self).base.ticket_status, ..old(self).base },
                max_tier_users: final(self).max_tier_users,
                ..*old(self)
            }),
            final(self).wf(),
            final(gas).gas_per_iteration == old(gas).gas_per_iteration,
    {
        let budget = *gas;
        let max_tier_tickets = self.max_tier_tickets;
        let ghost ws0 = self.max_tier_users@;
        let ghost st0 = self.base.ticket_status@;
        let ghost op0 = *op;
        let ghost conf = self.base.nr_confirmed_tickets@;
        let ghost ranges = self.base.ticket_range_for_address@;
        let ghost old_self = *self;
        let saved_users = self.max_tier_users.clone();
        let saved_status = self.base.ticket_status.clone();
        let saved_op = *op;
        let mut gas_left = budget.gas_left;
        let ghost mut n: nat = 0;
        let mut status = OperationCompletionStatus::InterruptedBeforeOutOfGas;
        loop
            invariant_except_break
                budget.gas_per_iteration > 0,
                budget == *old(gas),
                old_self == *old(self),
                old_self.wf(),
                self.wf(),
                op0 == saved_op,
                op0 == *old(op),
                max_tier_tickets == old_self.max_tier_tickets,
                ws0 == old_self.max_tier_users@,
                st0 == old_self.base.ticket_status@,
                conf == old_self.base.nr_confirmed_tickets@,
                ranges == old_self.base.ticket_range_for_address@,
                saved_users@ == ws0,
                saved_status@ == st0,
                spec_v1_select_iterate(ws0, st0, op0, conf, ranges, max_tier_tickets, n)
                    == Some((self.max_tier_users@, self.base.ticket_status@, *op, false)),
                forall|i: nat| 1 <= i <= n ==> {
                    &&& #[trigger] spec_v1_select_iterate(ws0, st0, op0, conf, ranges, max_tier_tickets, i) matches Some(t) && !t.3
                    &&& spec_can_continue(spec_gas_iter(budget.gas_left, budget.gas_per_iteration, i), budget.gas_per_iteration)
                },
                gas_left == spec_gas_iter(budget.gas_left, budget.gas_per_iteration, n),
                status == OperationCompletionStatus::InterruptedBeforeOutOfGas,
                *self == (GuaranteedTicketsLaunchpadV1 {
                    base: LaunchpadState { ticket_status: self.base.ticket_status, ..old_self.base },
                    max_tier_users: self.max_tier_users,
                    ..old_self
                }),
            ensures
                n >= 1,
                self.wf(),
                spec_v1_select_iterate(ws0, st0, op0, conf, ranges, max_tier_tickets, n)
                    == Some((self.max_tier_users@, self.base.ticket_status@, *op, status == OperationCompletionStatus::Completed)),
                gas_left == spec_gas_iter(budget.gas_left, budget.gas_per_iteration,
                    if status == OperationCompletionStatus::Completed { (n - 1) as nat } else { n }),
                forall|i: nat| 1 <= i < n ==> {
                    &&& #[trigger] spec_v1_select_iterate(ws0, st0, op0, conf, ranges, max_tier_tickets, i) matches Some(t) && !t.3
                    &&& spec_can_continue(spec_gas_iter(budget.gas_left, budget.gas_per_iteration, i), budget.gas_per_iteration)
                },
                status == OperationCompletionStatus::InterruptedBeforeOutOfGas
                    ==> !spec_can_continue(spec_gas_iter(budget.gas_left, budget.gas_per_iteration, n), budget.gas_per_iteration),
                *self == (GuaranteedTicketsLaunchpadV1 {
                    base: LaunchpadState { ticket_status: self.base.ticket_status, ..old_self.base },
                    max_tier_users: self.max_tier_users,
                    ..old_self
                }),
            decreases gas_left,
        {
            let ghost w = self.max_tier_users@;
            let ghost st = self.base.ticket_status@;
            let ghost o = *op;
            proof {
                n = n + 1;
                assert(spec_v1_select_iterate(ws0, st0, op0, conf, ranges, max_tier_tickets, n)
                    == spec_v1_select_process(w, st, o, conf, ranges, max_tier_tickets));
            }
            if self.max_tier_users.len() == 0 {
                status = OperationCompletionStatus::Completed;
                break;
            }
            let current_user = self.max_tier_users[0];
            proof {
                lemma_swap_remove(self.max_tier_users@, current_user);
            }
            vec_swap_remove_value(&mut self.max_tier_users, current_user);
            let user_confirmed_tickets = get_by_address(&self.base.nr_confirmed_tickets, current_user, 0);
            if user_confirmed_tickets == max_tier_tickets {
                let ticket_range = match self.base.ticket_range_for_address.get(&current_user) {
                    Some(range) => *range,
                    None => {
                        assert(spec_v1_select_iterate(ws0, st0, op0, conf, ranges, max_tier_tickets, n) is None);
                        proof {
                            lemma_v1_select_fails_at(ws0, st0, op0, conf, ranges, max_tier_tickets, budget.gas_left, budget.gas_per_iteration, n,
                                spec_v1_select_step_error(w, conf, ranges, max_tier_tickets));
                        }
                        self.max_tier_users = saved_users;
                        self.base.ticket_status = saved_status;
                        *op = saved_op;
                        return Err(LaunchpadError::StorageDecodeError);
                    },
                };
                assert(range_wf(self.base.ticket_range_for_address@[current_user]));
                proof {
                    crate::launchpad_guaranteed_tickets_v2::guaranteed_ticket_winners::lemma_count_winning_bounds(
                        st, ticket_range.first_id as int, ticket_range.last_id as int);
                }
                if !self.has_any_winning_tickets(&ticket_range) {
                    if op.total_additional_winning_tickets == usize::MAX {
                        assert(spec_v1_select_iterate(ws0, st0, op0, conf, ranges, max_tier_tickets, n) is None);
                        proof {
                            lemma_v1_select_fails_at(ws0, st0, op0, conf, ranges, max_tier_tickets, budget.gas_left, budget.gas_per_iteration, n,
                                spec_v1_select_step_error(w, conf, ranges, max_tier_tickets));
                        }
                        self.max_tier_users = saved_users;
                        self.base.ticket_status = saved_status;
                        *op = saved_op;
                        return Err(LaunchpadError::ArithmeticError);
                    }
                    self.base.ticket_status.insert(ticket_range.first_id, WINNING_TICKET);
                    op.total_additional_winning_tickets = op.total_additional_winning_tickets + 1;
                } else {
                    if op.leftover_tickets == usize::MAX {
                        assert(spec_v1_select_iterate(ws0, st0, op0, conf, ranges, max_tier_tickets, n) is None);
                        proof {
                            lemma_v1_select_fails_at(ws0, st0, op0, conf, ranges, max_tier_tickets, budget.gas_left, budget.gas_per_iteration, n,
                                spec_v1_select_step_error(w, conf, ranges, max_tier_tickets));
                        }
                        self.max_tier_users = saved_users;
                        self.base.ticket_status = saved_status;
                        *op = saved_op;
                        return Err(LaunchpadError::ArithmeticError);
                    }
                    op.leftover_tickets = op.leftover_tickets + 1;
                }
            } else {
                if op.leftover_tickets == usize::MAX {
                    assert(spec_v1_select_iterate(ws0, st0, op0, conf, ranges, max_tier_tickets, n) is None);
                        proof {
                            lemma_v1_select_fails_at(ws0, st0, op0, conf, ranges, max_tier_tickets, budget.gas_left, budget.gas_per_iteration, n,
                                spec_v1_select_step_error(w, conf, ranges, max_tier_tickets));
                        }
                    self.max_tier_users = saved_users;
                    self.base.ticket_status = saved_status;
                    *op = saved_op;
                    return Err(LaunchpadError::ArithmeticError);
                }
                op.leftover_tickets = op.leftover_tickets + 1;
            }
            let ghost g0 = gas_left;
            gas_left = gas_after(gas_left, budget.gas_per_iteration);
            if !may_continue(gas_left, budget.gas_per_iteration) {
                break;
            }
            assert(gas_left < g0);
        }
        gas.gas_left = gas_left;
        Ok(status)
    }

    /// Draws the left-over tickets while the gas lasts, one position at a time after the
    /// lottery's winning tickets, until none is left.  Refused, changing nothing, where a
    /// count would leave the integers.
    fn distribute_leftover_tickets(&mut self, op: &mut GuaranteedTicketsSelectionOperation, gas: &mut GasBudget) -> (r: Result<OperationCompletionStatus, LaunchpadError>)
        ensures
            r is Err ==> r == Err::<OperationCompletionStatus, _>(LaunchpadError::ArithmeticError) && *final(op) == *old(op)
                && final(self).base.ticket_status@ == old(self).base.ticket_status@
                && final(self).base.ticket_pos_to_id@ == old(self).base.ticket_pos_to_id@,
            r is Err ==> spec_v1_leftover_failed(
                old(self).base.ticket_status@,
                old(self).base.ticket_pos_to_id@,
                op_view(*old(op)),
                old(self).base.nr_winning_tickets,
                old(self).base.last_ticket_id,
                old(gas).gas_left,
                old(gas).gas_per_iteration,
            ),
            r matches Ok(status) ==> spec_v1_leftover_ran(
                old(self).base.ticket_status@,
                old(self).base.ticket_pos_to_id@,
                op_view(*old(op)),
                old(self).base.nr_winning_tickets,
                old(self).base.last_ticket_id,
                old(gas).gas_left,
                old(gas).gas_per_iteration,
                final(self).base.ticket_status@,
                final(self).base.ticket_pos_to_id@,
                op_view(*final(op)),
                final(gas).gas_left,
                status == OperationCompletionStatus::Completed,
            ),
            *final(self) == (GuaranteedTicketsLaunchpadV1 {
                base: LaunchpadState {
                    ticket_status: final(self).base.ticket_status,
                    ticket_pos_to_id: final(self).base.ticket_pos_to_id,
                    ..old(self).base
                },
                ..*old(self)
            }),
            final(gas).gas_per_iteration == old(gas).gas_per_iteration,
    {
        let budget = *gas;
        let nr_original_winning_tickets = self.base.nr_winning_tickets;
        let last_ticket_pos = self.base.get_total_tickets();
        let ghost st0 = self.base.ticket_status@;
        let ghost pm0 = self.base.ticket_pos_to_id@;
        let ghost o0 = op_view(*op);
        let ghost old_self = *self;
        let saved_status = self.base.ticket_status.clone();
        let saved_pos_to_id = self.base.ticket_pos_to_id.clone();
        let saved_op = *op;
        let mut gas_left = budget.gas_left;
        let ghost mut n: nat = 0;
        let mut status = OperationCompletionStatus::InterruptedBeforeOutOfGas;
        loop
            invariant_except_break
                budget.gas_per_iteration > 0,
                budget == *old(gas),
                old_self == *old(self),
                old_self.wf(),
                last_ticket_pos < usize::MAX,
                saved_op == *old(op),
                o0 == op_view(saved_op),
                st0 == old_self.base.ticket_status@,
                pm0 == old_self.base.ticket_pos_to_id@,
                saved_status@ == st0,
                saved_pos_to_id@ == pm0,
                nr_original_winning_tickets == old_self.base.nr_winning_tickets,
                last_ticket_pos == old_self.base.last_ticket_id,
                spec_v1_leftover_iterate(st0, pm0, o0, nr_original_winning_tickets, last_ticket_pos, n)
                    == Some((self.base.ticket_status@, self.base.ticket_pos_to_id@, op_view(*op), false)),
                forall|i: nat| 1 <= i <= n ==> {
                    &&& #[trigger] spec_v1_leftover_iterate(st0, pm0, o0, nr_original_winning_tickets, last_ticket_pos, i) matches Some(t) && !t.3
                    &&& spec_can_continue(spec_gas_iter(budget.gas_left, budget.gas_per_iteration, i), budget.gas_per_iteration)
                },
                gas_left == spec_gas_iter(budget.gas_left, budget.gas_per_iteration, n),
                status == OperationCompletionStatus::InterruptedBeforeOutOfGas,
                *self == (GuaranteedTicketsLaunchpadV1 {
                    base: LaunchpadState {
                        ticket_status: self.base.ticket_status,
                        ticket_pos_to_id: self.base.ticket_pos_to_id,
                        ..old_self.base
                    },
                    ..old_self
                }),
            ensures
                n >= 1,
                spec_v1_leftover_iterate(st0, pm0, o0, nr_original_winning_tickets, last_ticket_pos, n)
                    == Some((self.base.ticket_status@, self.base.ticket_pos_to_id@, op_view(*op), status == OperationCompletionStatus::Completed)),
                gas_left == spec_gas_iter(budget.gas_left, budget.gas_per_iteration,
                    if status == OperationCompletionStatus::Completed { (n - 1) as nat } else { n }),
                forall|i: nat| 1 <= i < n ==> {
                    &&& #[trigger] spec_v1_leftover_iterate(st0, pm0, o0, nr_original_winning_tickets, last_ticket_pos, i) matches Some(t) && !t.3
                    &&& spec_can_continue(spec_gas_iter(budget.gas_left, budget.gas_per_iteration, i), budget.gas_per_iteration)
                },
                status == OperationCompletionStatus::InterruptedBeforeOutOfGas
                    ==> !spec_can_continue(spec_gas_iter(budget.gas_left, budget.gas_per_iteration, n), budget.gas_per_iteration),
                *self == (GuaranteedTicketsLaunchpadV1 {
                    base: LaunchpadState {
                        ticket_status: self.base.ticket_status,
                        ticket_pos_to_id: self.base.ticket_pos_to_id,
                        ..old_self.base
                    },
                    ..old_self
                }),
            decreases gas_left,
        {
            let ghost pre = (self.base.ticket_status@, self.base.ticket_pos_to_id@, op_view(*op));
            proof {
                n = n + 1;
            }
            if op.leftover_tickets == 0 {
                status = OperationCompletionStatus::Completed;
                break;
            }
            if op.leftover_ticket_pos_offset > usize::MAX - nr_original_winning_tickets {
                assert(spec_v1_leftover_iterate(st0, pm0, o0, nr_original_winning_tickets, last_ticket_pos, n) is None);
                proof {
                    assert(spec_v1_leftover_iterate(st0, pm0, o0, nr_original_winning_tickets, last_ticket_pos, (n - 1) as nat) == Some((pre.0, pre.1, pre.2, false)));
                    lemma_v1_leftover_fails_at(st0, pm0, o0, nr_original_winning_tickets, last_ticket_pos, budget.gas_left, budget.gas_per_iteration, n);
                }
                self.base.ticket_status = saved_status;
                self.base.ticket_pos_to_id = saved_pos_to_id;
                *op = saved_op;
                return Err(LaunchpadError::ArithmeticError);
            }
            let current_ticket_pos = nr_original_winning_tickets + op.leftover_ticket_pos_offset;
            let selection_result = self.base.try_select_winning_ticket(&mut op.rng, current_ticket_pos, last_ticket_pos);
            match selection_result {
                AdditionalSelectionTryResult::Selected => {
                    if op.total_additional_winning_tickets == usize::MAX || op.leftover_ticket_pos_offset == usize::MAX {
                        assert(spec_v1_leftover_iterate(st0, pm0, o0, nr_original_winning_tickets, last_ticket_pos, n) is None);
                proof {
                    assert(spec_v1_leftover_iterate(st0, pm0, o0, nr_original_winning_tickets, last_ticket_pos, (n - 1) as nat) == Some((pre.0, pre.1, pre.2, false)));
                    lemma_v1_leftover_fails_at(st0, pm0, o0, nr_original_winning_tickets, last_ticket_pos, budget.gas_left, budget.gas_per_iteration, n);
                }
                        self.base.ticket_status = saved_status;
                        self.base.ticket_pos_to_id = saved_pos_to_id;
                        *op = saved_op;
                        return Err(LaunchpadError::ArithmeticError);
                    }
                    op.leftover_tickets = op.leftover_tickets - 1;
                    op.total_additional_winning_tickets = op.total_additional_winning_tickets + 1;
                    op.leftover_ticket_pos_offset = op.leftover_ticket_pos_offset + 1;
                },
                AdditionalSelectionTryResult::CurrentAlreadyWinning => {
                    if op.leftover_ticket_pos_offset == usize::MAX {
                        assert(spec_v1_leftover_iterate(st0, pm0, o0, nr_original_winning_tickets, last_ticket_pos, n) is None);
                proof {
                    assert(spec_v1_leftover_iterate(st0, pm0, o0, nr_original_winning_tickets, last_ticket_pos, (n - 1) as nat) == Some((pre.0, pre.1, pre.2, false)));
                    lemma_v1_leftover_fails_at(st0, pm0, o0, nr_original_winning_tickets, last_ticket_pos, budget.gas_left, budget.gas_per_iteration, n);
                }
                        self.base.ticket_status = saved_status;
                        self.base.ticket_pos_to_id = saved_pos_to_id;
                        *op = saved_op;
                        return Err(LaunchpadError::ArithmeticError);
                    }
                    op.leftover_ticket_pos_offset = op.leftover_ticket_pos_offset + 1;
                },
                AdditionalSelectionTryResult::NewlySelectedAlreadyWinning => {},
            }
            let ghost g0 = gas_left;
            gas_left = gas_after(gas_left, budget.gas_per_iteration);
            if !may_continue(gas_left, budget.gas_per_iteration) {
                break;
            }
            assert(gas_left < g0);
        }
        gas.gas_left = gas_left;
        Ok(status)
    }

    /// Saves the operation for the next call.
    fn save_custom_operation(&mut self, op: &GuaranteedTicketsSelectionOperation)
        ensures
            final(self).base.current_ongoing_operation matches OngoingOperationType::AdditionalSelection { encoded_data }
                && encoded_data@ == spec_encode_operation(*op),
            *final(self) == (GuaranteedTicketsLaunchpadV1 {
                base: LaunchpadState { current_ongoing_operation: final(self).base.current_ongoing_operation, ..old(self).base },
                ..*old(self)
            }),
    {
        let encoded_data = op.encode();
        self.base.save_progress(OngoingOperationType::AdditionalSelection { encoded_data });
    }

    /// Gives the guaranteed tickets of the top tier, then draws the tickets left over,
    /// while the gas lasts; where the gas runs out the operation is saved for the next
    /// call.  Once both are done the added winning tickets are paid for and counted as
    /// winning.  A refused call changes nothing.
    #[verifier::spinoff_prover]
    #[verifier::rlimit(50)]
    fn distribute_guaranteed_tickets(&mut self, ctx: &CallContext, gas: &mut GasBudget, fresh_seed: [u8; 32]) -> (r: Result<OperationCompletionStatus, LaunchpadError>)
        ensures
            spec_v1_distribute_error(&old(self).base, ctx.block_round) matches Some(e) ==> r == Err::<OperationCompletionStatus, _>(e),
            r is Err ==> {
                &&& final(self).max_tier_users@ == old(self).max_tier_users@
                &&& final(self).base.ticket_status@ == old(self).base.ticket_status@
                &&& final(self).base.ticket_pos_to_id@ == old(self).base.ticket_pos_to_id@
                &&& *final(self) == (GuaranteedTicketsLaunchpadV1 {
                    base: LaunchpadState {
                        ticket_status: final(self).base.ticket_status,
                        ticket_pos_to_id: final(self).base.ticket_pos_to_id,
                        ..old(self).base
                    },
                    max_tier_users: final(self).max_tier_users,
                    ..*old(self)
                })
            },
            r matches Err(e) ==> (spec_v1_distribute_error(&old(self).base, ctx.block_round) is None ==> exists|op0: GuaranteedTicketsSelectionOperation|
                op_view(op0) == spec_v1_start_view(&old(self).base, fresh_seed)
                && #[trigger] spec_v1_distribute_failed(old(self), op0, old(gas).gas_left, old(gas).gas_per_iteration, e)),
            r matches Ok(status) ==> spec_v1_distribute_error(&old(self).base, ctx.block_round) is None && exists|
                op0: GuaranteedTicketsSelectionOperation,
                ws1: Seq<Address>,
                st1: Map<usize, bool>,
                op1: GuaranteedTicketsSelectionOperation,
                g1: u64,
                completed1: bool,
            | {
                &&& op_view(op0) == spec_v1_start_view(&old(self).base, fresh_seed)
                &&& #[trigger] spec_v1_select_ran(
                    old(self).max_tier_users@,
                    old(self).base.ticket_status@,
                    op0,
                    old(self).base.nr_confirmed_tickets@,
                    old(self).base.ticket_range_for_address@,
                    old(self).max_tier_tickets,
                    old(gas).gas_left,
                    old(gas).gas_per_iteration,
                    ws1,
                    st1,
                    op1,
                    g1,
                    completed1,
                )
                &&& final(self).max_tier_users@ == ws1
                &&& !completed1 ==> {
                    &&& status == OperationCompletionStatus::InterruptedBeforeOutOfGas
                    &&& final(self).base.ticket_status@ == st1
                    &&& final(self).base.ticket_pos_to_id@ == old(self).base.ticket_pos_to_id@
                    &&& final(gas).gas_left == g1
                    &&& spec_v1_saved_at(old(self), final(self), op1)
                }
                &&& completed1 ==> exists|st2: Map<usize, bool>, pm2: Map<usize, usize>, op2: GuaranteedTicketsSelectionOperation, g2: u64, completed2: bool| {
                    &&& #[trigger] spec_v1_leftover_ran(
                        st1,
                        old(self).base.ticket_pos_to_id@,
                        op_view(op1),
                        old(self).base.nr_winning_tickets,
                        old(self).base.last_ticket_id,
                        g1,
                        old(gas).gas_per_iteration,
                        st2,
                        pm2,
                        op_view(op2),
                        g2,
                        completed2,
                    )
                    &&& completed2 == (status == OperationCompletionStatus::Completed)
                    &&& final(self).base.ticket_status@ == st2
                    &&& final(self).base.ticket_pos_to_id@ == pm2
                    &&& final(gas).gas_left == g2
                    &&& status == OperationCompletionStatus::InterruptedBeforeOutOfGas ==> spec_v1_saved_at(old(self), final(self), op2)
                    &&& status == OperationCompletionStatus::Completed ==> spec_v1_distribution_completed(
                        old(self),
                        final(self),
                        op2.total_additional_winning_tickets as int,
                    )
                }
            },
            final(gas).gas_per_iteration == old(gas).gas_per_iteration,
    {
        self.base.require_winner_selection_period(ctx.block_round)?;
        let mut flags = self.base.flags;
        if !flags.were_winners_selected {
            return Err(LaunchpadError::MustSelectBaseWinnersFirst);
        }
        if flags.was_additional_step_completed {
            return Err(LaunchpadError::AlreadyDistributedTickets);
        }
        let loaded = self.base.load_additional_selection_operation()?;
        let mut op = match loaded {
            None => GuaranteedTicketsSelectionOperation::default(fresh_seed),
            Some(data) => GuaranteedTicketsSelectionOperation::decode(&data)?,
        };
        assert(op_view(op) == spec_v1_start_view(&old(self).base, fresh_seed));
        let ghost old_self = *self;
        let saved_users = self.max_tier_users.clone();
        let saved_status = self.base.ticket_status.clone();
        let saved_pos_to_id = self.base.ticket_pos_to_id.clone();
        let ghost op0 = op;
        let ghost g0 = gas.gas_left;
        let first = match self.select_guaranteed_tickets(&mut op, gas) {
            Ok(s) => s,
            Err(e) => {
                assert(spec_v1_distribute_failed(&old_self, op0, g0, gas.gas_per_iteration, e));
                return Err(e);
            },
        };
        let ghost op1 = op;
        let ghost ws1 = self.max_tier_users@;
        let ghost st1 = self.base.ticket_status@;
        let ghost g1 = gas.gas_left;
        if first == OperationCompletionStatus::InterruptedBeforeOutOfGas {
            self.save_custom_operation(&op);
            assert(spec_v1_saved_at(&old_self, self, op1));
            return Ok(OperationCompletionStatus::InterruptedBeforeOutOfGas);
        }
        let second = match self.distribute_leftover_tickets(&mut op, gas) {
            Ok(s) => s,
            Err(e) => {
                assert(spec_v1_distribute_failed(&old_self, op0, g0, gas.gas_per_iteration, e));
                self.max_tier_users = saved_users;
                self.base.ticket_status = saved_status;
                return Err(e);
            },
        };
        let ghost op2 = op;
        match second {
            OperationCompletionStatus::InterruptedBeforeOutOfGas => {
                self.save_custom_operation(&op);
                assert(spec_v1_saved_at(&old_self, self, op2));
            },
            OperationCompletionStatus::Completed => {
                let added = op.total_additional_winning_tickets;
                let payment = match self.base.ticket_price.amount.checked_mul(added as u128) {
                    Some(p) => p,
                    None => {
                        assert(spec_v1_distribute_failed(&old_self, op0, g0, gas.gas_per_iteration, LaunchpadError::ArithmeticError));
                        self.max_tier_users = saved_users;
                        self.base.ticket_status = saved_status;
                        self.base.ticket_pos_to_id = saved_pos_to_id;
                        return Err(LaunchpadError::ArithmeticError);
                    },
                };
                let claimable = match self.base.claimable_ticket_payment.checked_add(payment) {
                    Some(c) => c,
                    None => {
                        assert(spec_v1_distribute_failed(&old_self, op0, g0, gas.gas_per_iteration, LaunchpadError::ArithmeticError));
                        self.max_tier_users = saved_users;
                        self.base.ticket_status = saved_status;
                        self.base.ticket_pos_to_id = saved_pos_to_id;
                        return Err(LaunchpadError::ArithmeticError);
                    },
                };
                if added > usize::MAX - self.base.nr_winning_tickets {
                    assert(spec_v1_distribute_failed(&old_self, op0, g0, gas.gas_per_iteration, LaunchpadError::ArithmeticError));
                    self.max_tier_users = saved_users;
                    self.base.ticket_status = saved_status;
                    self.base.ticket_pos_to_id = saved_pos_to_id;
                    return Err(LaunchpadError::ArithmeticError);
                }
                flags.was_additional_step_completed = true;
                self.base.flags = flags;
                self.base.claimable_ticket_payment = claimable;
                self.base.nr_winning_tickets = self.base.nr_winning_tickets + added;
                self.base.current_ongoing_operation = OngoingOperationType::Idle;
                assert(spec_v1_distribution_completed(&old_self, self, op2.total_additional_winning_tickets as int));
            },
        }
        Ok(second)
    }
}

/// Once a ticket of a range wins, the count of winning tickets up to any later id is
/// positive.
pub proof fn lemma_count_winning_grows(status: Map<usize, bool>, first: int, id: int, last: int)
    requires
        first <= id <= last,
        is_winning_in(status, id as usize),
    ensures
        spec_count_winning(status, first, last) > 0,
    decreases last - id,
{
    if last > id {
        lemma_count_winning_grows(status, first, id, last - 1);
        crate::launchpad_guaranteed_tickets_v2::guaranteed_ticket_winners::lemma_count_winning_bounds(status, first, last);
    } else {
        crate::launchpad_guaranteed_tickets_v2::guaranteed_ticket_winners::lemma_count_winning_bounds(status, first, last - 1);
    }
}

} // verus!
