//! Winner selection: first the unconfirmed and blacklisted tickets are filtered out and
//! the rest renumbered from the first id, then a Fisher-Yates shuffle picks the winners.

use std::collections::HashMap;
use std::collections::HashSet;
use vstd::prelude::*;

use crate::launchpad_common::config::{CallContext, LaunchpadState};
use crate::launchpad_common::errors::LaunchpadError;
use crate::launchpad_common::launch_stage::{Flags, LaunchStage, LaunchStageModule};
use crate::launchpad_common::ongoing_operation::{
    gas_after, spec_can_continue, spec_gas_after, spec_gas_iter, GasBudget, OngoingOperationModule,
    OngoingOperationType, OperationCompletionStatus,
};
use crate::launchpad_common::random::{spec_in_range, spec_next_from, spec_refreshed, Random};
use crate::launchpad_common::storage::{get_by_address, get_by_index, set_contains, stored_or, Address};
use crate::launchpad_common::tickets::{empty_batch, TicketBatch, TicketRange, TicketsModule, FIRST_TICKET_ID};

verus! {

broadcast use vstd::std_specs::hash::group_hash_axioms;

/// One step of the filtering: the batch at `first` is dropped when its owner is
/// blacklisted or confirmed nothing, else it keeps only the confirmed tickets and moves
/// down by the `removed` tickets dropped before it.  `None` where the contract would
/// revert on an arithmetic overflow.
pub open spec fn spec_filter_step(
    confirmed: Map<Address, usize>,
    blacklist: Set<Address>,
    batches: Map<usize, TicketBatch>,
    ranges: Map<Address, TicketRange>,
    first: usize,
    removed: usize,
) -> Option<(Map<usize, TicketBatch>, Map<Address, TicketRange>, usize, usize)> {
    let b = stored_or(batches, first, empty_batch());
    let c = stored_or(confirmed, b.address, 0);
    let drop = blacklist.contains(b.address) || c == 0;
    let moves = !drop && (removed > 0 || c < b.nr_tickets);
    if c > b.nr_tickets || first + b.nr_tickets > usize::MAX || removed + (b.nr_tickets - c) > usize::MAX
        || (moves && removed > first) {
        None
    } else {
        let next_first = (first + b.nr_tickets) as usize;
        let next_removed = (removed + (b.nr_tickets - c)) as usize;
        if drop {
            Some((batches.remove(first), ranges.remove(b.address), next_first, next_removed))
        } else if moves {
            let new_first = (first - removed) as usize;
            let new_last = (new_first + c - 1) as usize;
            Some((
                batches.remove(first).insert(new_first, TicketBatch { address: b.address, nr_tickets: c }),
                ranges.insert(b.address, TicketRange { first_id: new_first, last_id: new_last }),
                next_first,
                next_removed,
            ))
        } else {
            Some((batches, ranges, next_first, next_removed))
        }
    }
}

/// The filtering after `n` steps from `first` with `removed` tickets already dropped.
pub open spec fn spec_filter_iterate(
    confirmed: Map<Address, usize>,
    blacklist: Set<Address>,
    batches: Map<usize, TicketBatch>,
    ranges: Map<Address, TicketRange>,
    first: usize,
    removed: usize,
    n: nat,
) -> Option<(Map<usize, TicketBatch>, Map<Address, TicketRange>, usize, usize)>
    decreases n,
{
    if n == 0 {
        Some((batches, ranges, first, removed))
    } else {
        match spec_filter_iterate(confirmed, blacklist, batches, ranges, first, removed, (n - 1) as nat) {
            None => None,
            Some((bs, rs, f, k)) => spec_filter_step(confirmed, blacklist, bs, rs, f, k),
        }
    }
}

/// One step of the filtering, on the batch and range tables.
pub fn filter_batch_step(
    batches: &mut HashMap<usize, TicketBatch>,
    ranges: &mut HashMap<Address, TicketRange>,
    confirmed: &HashMap<Address, usize>,
    blacklist: &HashSet<Address>,
    first_ticket_id_in_batch: usize,
    nr_removed: usize,
) -> (r: Option<(usize, usize)>)
    ensures
        match spec_filter_step(confirmed@, blacklist@, old(batches)@, old(ranges)@, first_ticket_id_in_batch, nr_removed) {
            None => r is None,
            Some((bs, rs, f, k)) => r == Some((f, k)) && final(batches)@ == bs && final(ranges)@ == rs,
        },
{
    let ticket_batch = get_by_index(batches, first_ticket_id_in_batch, TicketBatch { address: 0, nr_tickets: 0 });
    let address = ticket_batch.address;
    let nr_tickets_in_batch = ticket_batch.nr_tickets;
    let nr_confirmed_tickets = get_by_address(confirmed, address, 0);
    if nr_confirmed_tickets > nr_tickets_in_batch {
        return None;
    }
    if nr_tickets_in_batch > usize::MAX - first_ticket_id_in_batch {
        return None;
    }
    let dropped_here = nr_tickets_in_batch - nr_confirmed_tickets;
    if dropped_here > usize::MAX - nr_removed {
        return None;
    }
    if set_contains(blacklist, address) || nr_confirmed_tickets == 0 {
        ranges.remove(&address);
        batches.remove(&first_ticket_id_in_batch);
    } else if nr_removed > 0 || nr_confirmed_tickets < nr_tickets_in_batch {
        if nr_removed > first_ticket_id_in_batch {
            return None;
        }
        let new_first_id = first_ticket_id_in_batch - nr_removed;
        let new_last_id = new_first_id + nr_confirmed_tickets - 1;
        batches.remove(&first_ticket_id_in_batch);
        ranges.insert(address, TicketRange { first_id: new_first_id, last_id: new_last_id });
        batches.insert(new_first_id, TicketBatch { address, nr_tickets: nr_confirmed_tickets });
    }
    Some((first_ticket_id_in_batch + nr_tickets_in_batch, nr_removed + dropped_here))
}


/// A step went through and did not land one past the last ticket.
pub open spec fn not_at_end(o: Option<(Map<usize, TicketBatch>, Map<Address, TicketRange>, usize, usize)>, last: usize) -> bool {
    match o {
        Some(t) => t.2 != last + 1,
        None => false,
    }
}

/// The filtering has not reached the end before step `n`: every step up to `n` goes
/// through, and none before `n` lands one past the last ticket.
pub open spec fn spec_filter_ran(
    confirmed: Map<Address, usize>,
    blacklist: Set<Address>,
    batches: Map<usize, TicketBatch>,
    ranges: Map<Address, TicketRange>,
    first: usize,
    removed: usize,
    last: usize,
    n: nat,
) -> bool {
    &&& spec_filter_iterate(confirmed, blacklist, batches, ranges, first, removed, n) is Some
    &&& forall|i: nat| 1 <= i < n ==> (#[trigger] spec_filter_iterate(confirmed, blacklist, batches, ranges, first, removed, i))
        is Some && not_at_end(spec_filter_iterate(confirmed, blacklist, batches, ranges, first, removed, i), last)
}

/// A filtering call that is refused part-way: the steps before step `n` went through,
/// did not reach the end and each left gas for another step; step `n` then fails, or it
/// reaches the end having dropped more tickets than there are.
pub open spec fn spec_filter_failed(
    confirmed: Map<Address, usize>,
    blacklist: Set<Address>,
    batches: Map<usize, TicketBatch>,
    ranges: Map<Address, TicketRange>,
    first: usize,
    removed: usize,
    last: usize,
    gas0: u64,
    cost: u64,
) -> bool {
    exists|n: nat| #![trigger spec_filter_iterate(confirmed, blacklist, batches, ranges, first, removed, n)]
        n >= 1
        && (forall|i: nat| 1 <= i < n ==> not_at_end(#[trigger] spec_filter_iterate(confirmed, blacklist, batches, ranges, first, removed, i), last))
        && (forall|i: nat| 1 <= i < n ==> spec_can_continue(#[trigger] spec_gas_iter(gas0, cost, i), cost))
        && (spec_filter_iterate(confirmed, blacklist, batches, ranges, first, removed, n) is None
            || (spec_filter_iterate(confirmed, blacklist, batches, ranges, first, removed, n) matches Some(t) && t.2 == last + 1 && t.3 > last))
}

/// A step that fails, after steps that neither reached the end nor ran out of gas, makes
/// a refused call.
pub(crate) proof fn lemma_filter_fails_at(
    confirmed: Map<Address, usize>,
    blacklist: Set<Address>,
    batches: Map<usize, TicketBatch>,
    ranges: Map<Address, TicketRange>,
    first: usize,
    removed: usize,
    last: usize,
    gas0: u64,
    cost: u64,
    n: nat,
)
    requires
        n >= 1,
        forall|i: nat| 1 <= i < n ==> not_at_end(#[trigger] spec_filter_iterate(confirmed, blacklist, batches, ranges, first, removed, i), last),
        forall|i: nat| 1 <= i < n ==> spec_can_continue(#[trigger] spec_gas_iter(gas0, cost, i), cost),
        spec_filter_iterate(confirmed, blacklist, batches, ranges, first, removed, n) is None
            || (spec_filter_iterate(confirmed, blacklist, batches, ranges, first, removed, n) matches Some(t) && t.2 == last + 1 && t.3 > last),
    ensures
        spec_filter_failed(confirmed, blacklist, batches, ranges, first, removed, last, gas0, cost),
{
}

/// Whether a call may start or resume the filtering.
pub open spec fn spec_may_filter(s: &LaunchpadState, ctx: CallContext) -> bool {
    &&& !s.paused
    &&& s.stage_at(ctx.block_round) == LaunchStage::WinnerSelection
    &&& !s.flags.were_tickets_filtered
    &&& s.last_ticket_id < usize::MAX
    &&& (s.current_ongoing_operation is Idle || s.current_ongoing_operation is FilterTickets)
}

/// Where the filtering starts or resumes.
pub open spec fn spec_filter_start(s: &LaunchpadState) -> (usize, usize) {
    match s.current_ongoing_operation {
        OngoingOperationType::FilterTickets { first_ticket_id_in_batch, nr_removed } => (first_ticket_id_in_batch, nr_removed),
        _ => (FIRST_TICKET_ID, 0usize),
    }
}

/// The ticket id at a position of the shuffle: stored, or the position itself.
pub open spec fn spec_id_at(pos_map: Map<usize, usize>, pos: usize) -> usize {
    let stored = stored_or(pos_map, pos, 0);
    if stored == 0 {
        pos
    } else {
        stored
    }
}

/// One step of the Fisher-Yates shuffle at position `pos` of `1..=last`: a random
/// position in `pos..=last` is drawn, its ticket wins, and the ticket at `pos` takes its
/// place among the positions still to draw from.
pub open spec fn spec_shuffle_step(
    status: Map<usize, bool>,
    pos_map: Map<usize, usize>,
    seed: Seq<u8>,
    index: int,
    pos: usize,
    last: usize,
) -> (Map<usize, bool>, Map<usize, usize>, Seq<u8>, int) {
    let (seed2, index2, value) = spec_next_from(seed, index);
    let rand_pos = spec_in_range(value, pos, (last + 1) as usize) as usize;
    (
        status.insert(spec_id_at(pos_map, rand_pos), true),
        pos_map.insert(rand_pos, spec_id_at(pos_map, pos)),
        seed2,
        index2,
    )
}

/// The shuffle after `n` steps at the positions `first_pos`, `first_pos + 1`, ...
pub open spec fn spec_shuffle_iterate(
    status: Map<usize, bool>,
    pos_map: Map<usize, usize>,
    seed: Seq<u8>,
    index: int,
    first_pos: usize,
    last: usize,
    n: nat,
) -> (Map<usize, bool>, Map<usize, usize>, Seq<u8>, int)
    decreases n,
{
    if n == 0 {
        (status, pos_map, seed, index)
    } else {
        let (st, pm, sd, ix) = spec_shuffle_iterate(status, pos_map, seed, index, first_pos, last, (n - 1) as nat);
        spec_shuffle_step(st, pm, sd, ix, (first_pos + n - 1) as usize, last)
    }
}

/// A step of the shuffle is a draw: with `v` the next number of the generator, the
/// position `pos + v % (last + 1 - pos)` is drawn among `pos..=last`; the ticket held
/// there wins and no other ticket changes; the drawn position now holds the ticket of
/// `pos` while every other position keeps its ticket; and one number is read.  So the
/// winner depends on the seed, not only on the position.
pub proof fn lemma_shuffle_step_draws(
    status: Map<usize, bool>,
    pos_map: Map<usize, usize>,
    seed: Seq<u8>,
    index: int,
    pos: usize,
    last: usize,
)
    requires
        FIRST_TICKET_ID <= pos <= last,
        last < usize::MAX,
    ensures
        ({
            let (st, pm, sd, ix) = spec_shuffle_step(status, pos_map, seed, index, pos, last);
            let (seed2, index2, v) = spec_next_from(seed, index);
            let drawn = pos + v % (last + 1 - pos);
            let winner = spec_id_at(pos_map, drawn as usize);
            &&& pos <= drawn <= last
            &&& stored_or(st, winner, false)
            &&& forall|id: usize| id != winner ==> #[trigger] stored_or(st, id, false) == stored_or(status, id, false)
            &&& spec_id_at(pm, drawn as usize) == spec_id_at(pos_map, pos)
            &&& forall|q: usize| q != drawn ==> #[trigger] spec_id_at(pm, q) == spec_id_at(pos_map, q)
            &&& sd == seed2
            &&& ix == index2
        }),
{
    let (seed2, index2, v) = spec_next_from(seed, index);
    let (s, i) = spec_refreshed(seed, index);
    assert(v >= 0);
    let drawn = pos + v % (last + 1 - pos);
    assert(spec_in_range(v, pos, (last + 1) as usize) == drawn);
    let (st, pm, sd, ix) = spec_shuffle_step(status, pos_map, seed, index, pos, last);
    assert(stored_or(pm, drawn as usize, 0) == spec_id_at(pos_map, pos));
    assert(spec_id_at(pos_map, pos) != 0);
}

/// One step of the shuffle, on the status and position tables.
pub fn shuffle_step(
    status: &mut HashMap<usize, bool>,
    pos_map: &mut HashMap<usize, usize>,
    rng: &mut Random,
    current_ticket_position: usize,
    last_ticket_position: usize,
)
    requires
        last_ticket_position < usize::MAX,
    ensures
        ({
            let (st, pm, sd, ix) = spec_shuffle_step(old(status)@, old(pos_map)@, old(rng).seed@, old(rng).index as int,
                current_ticket_position, last_ticket_position);
            &&& final(status)@ == st
            &&& final(pos_map)@ == pm
            &&& final(rng).seed@ == sd
            &&& final(rng).index == ix
        }),
{
    let rand_pos = rng.next_usize_in_range(current_ticket_position, last_ticket_position + 1);
    let stored_win = get_by_index(pos_map, rand_pos, 0);
    let winning_ticket_id = if stored_win == 0 { rand_pos } else { stored_win };
    status.insert(winning_ticket_id, true);
    let stored_cur = get_by_index(pos_map, current_ticket_position, 0);
    let current_ticket_id = if stored_cur == 0 { current_ticket_position } else { stored_cur };
    pos_map.insert(rand_pos, current_ticket_id);
}

/// Whether a call may start or resume the selection of winners.
pub open spec fn spec_may_select(s: &LaunchpadState, ctx: CallContext) -> bool {
    &&& !s.paused
    &&& s.stage_at(ctx.block_round) == LaunchStage::WinnerSelection
    &&& s.flags.were_tickets_filtered
    &&& !s.flags.were_winners_selected
    &&& s.last_ticket_id < usize::MAX
    &&& (s.current_ongoing_operation is Idle || s.current_ongoing_operation is SelectWinners)
}

/// Where the selection starts or resumes: the generator and the next position.
pub open spec fn spec_select_start(s: &LaunchpadState, fresh_seed: [u8; 32]) -> (Random, usize) {
    match s.current_ongoing_operation {
        OngoingOperationType::SelectWinners { rng, ticket_position } => (rng, ticket_position),
        _ => (Random { seed: fresh_seed, index: 0 }, FIRST_TICKET_ID),
    }
}

/// A selection call that is refused part-way: the steps before step `n` each left gas
/// for another step and none drew the last winning position; step `n` draws the last
/// winning position and the payment owed for the winners overflows, or it draws the
/// highest position there is without reaching the last winning one.
pub open spec fn spec_select_failed(p0: usize, w: usize, payment: int, gas0: u64, cost: u64) -> bool {
    exists|n: nat| #![trigger spec_gas_iter(gas0, cost, n)]
        n >= 1
        && (forall|i: nat| 1 <= i < n ==> spec_can_continue(#[trigger] spec_gas_iter(gas0, cost, i), cost))
        && !(p0 <= w < p0 + n - 1)
        && ((p0 + n - 1 == w && payment > u128::MAX) || (p0 + n - 1 != w && p0 + n - 1 == usize::MAX))
}

/// A step that overflows, after steps that neither finished nor ran out of gas, makes a
/// refused call.
pub(crate) proof fn lemma_select_fails_at(p0: usize, w: usize, payment: int, gas0: u64, cost: u64, n: nat)
    requires
        n >= 1,
        forall|i: nat| 1 <= i < n ==> spec_can_continue(#[trigger] spec_gas_iter(gas0, cost, i), cost),
        !(p0 <= w < p0 + n - 1),
        (p0 + n - 1 == w && payment > u128::MAX) || (p0 + n - 1 != w && p0 + n - 1 == usize::MAX),
    ensures
        spec_select_failed(p0, w, payment, gas0, cost),
{
    // the gas after step `n` is the term that offers `n` as the witness
    let g = spec_gas_iter(gas0, cost, n);
    assert(g <= u64::MAX);
}

/// The winner selection.
pub trait WinnerSelectionModule: TicketsModule {
    fn filter_tickets(&mut self, ctx: &CallContext, gas: GasBudget) -> Result<OperationCompletionStatus, LaunchpadError>
        requires
            gas.gas_per_iteration > 0,
    ;

    fn select_winners(&mut self, ctx: &CallContext, gas: GasBudget, fresh_seed: [u8; 32]) -> Result<OperationCompletionStatus, LaunchpadError>
        requires
            gas.gas_per_iteration > 0,
    ;

    fn shuffle_single_ticket(&mut self, rng: &mut Random, current_ticket_position: usize, last_ticket_position: usize)
        requires
            last_ticket_position < usize::MAX,
    ;

    fn get_number_of_winning_tickets_for_address(&self, address: Address) -> usize
        requires
            self.tickets_wf(),
    ;

    fn get_winning_ticket_ids_for_address(&self, address: Address) -> Vec<usize>
        requires
            self.tickets_wf(),
    ;
}

impl WinnerSelectionModule for LaunchpadState {
    /// Runs the filtering while the gas lasts, from where it stopped.
    fn filter_tickets(&mut self, ctx: &CallContext, gas: GasBudget) -> (r: Result<OperationCompletionStatus, LaunchpadError>)
        ensures
            !spec_may_filter(old(self), *ctx) ==> r is Err,
            old(self).paused ==> r == Err::<OperationCompletionStatus, _>(LaunchpadError::ContractPaused),
            !old(self).paused && old(self).stage_at(ctx.block_round) != LaunchStage::WinnerSelection
                ==> r == Err::<OperationCompletionStatus, _>(LaunchpadError::NotInWinnerSelectionPeriod),
            !old(self).paused && old(self).stage_at(ctx.block_round) == LaunchStage::WinnerSelection && old(self).flags.were_tickets_filtered
                ==> r == Err::<OperationCompletionStatus, _>(LaunchpadError::TicketsAlreadyFiltered),
            !old(self).paused && old(self).stage_at(ctx.block_round) == LaunchStage::WinnerSelection && !old(self).flags.were_tickets_filtered
                && old(self).last_ticket_id < usize::MAX
                && (old(self).current_ongoing_operation is SelectWinners || old(self).current_ongoing_operation is AdditionalSelection)
                ==> r == Err::<OperationCompletionStatus, _>(LaunchpadError::AnotherOperationInProgress),
            spec_may_filter(old(self), *ctx) && r is Err ==> r == Err::<OperationCompletionStatus, _>(LaunchpadError::ArithmeticError)
                && spec_filter_failed(
                    old(self).nr_confirmed_tickets@,
                    old(self).blacklist@,
                    old(self).ticket_batch@,
                    old(self).ticket_range_for_address@,
                    spec_filter_start(old(self)).0,
                    spec_filter_start(old(self)).1,
                    old(self).last_ticket_id,
                    gas.gas_left,
                    gas.gas_per_iteration,
                ),
            r is Err ==> *final(self) == *old(self),
            r is Ok ==> spec_may_filter(old(self), *ctx),
            r matches Ok(status) ==> {
                let (f0, k0) = spec_filter_start(old(self));
                let last = old(self).last_ticket_id;
                let conf = old(self).nr_confirmed_tickets@;
                let bl = old(self).blacklist@;
                exists|n: nat| #![trigger spec_filter_iterate(conf, bl, old(self).ticket_batch@, old(self).ticket_range_for_address@, f0, k0, n)]
                    n >= 1 && spec_filter_ran(conf, bl, old(self).ticket_batch@, old(self).ticket_range_for_address@, f0, k0, last, n) && {
                    let (bs, rs, f, k) = spec_filter_iterate(conf, bl, old(self).ticket_batch@, old(self).ticket_range_for_address@, f0, k0, n).unwrap();
                    let flags = Flags {
                        has_winner_selection_process_started: old(self).flags.has_winner_selection_process_started || f0 == FIRST_TICKET_ID,
                        ..old(self).flags
                    };
                    &&& final(self).ticket_batch@ == bs
                    &&& final(self).ticket_range_for_address@ == rs
                    &&& (status == OperationCompletionStatus::Completed <==> f == last + 1)
                    &&& forall|i: nat| 1 <= i < n ==> spec_can_continue(#[trigger] spec_gas_iter(gas.gas_left, gas.gas_per_iteration, i), gas.gas_per_iteration)
                    &&& status == OperationCompletionStatus::InterruptedBeforeOutOfGas
                        ==> !spec_can_continue(spec_gas_iter(gas.gas_left, gas.gas_per_iteration, n), gas.gas_per_iteration)
                    &&& status == OperationCompletionStatus::Completed ==> {
                        let new_last = (last - k) as usize;
                        &&& k <= last
                        &&& *final(self) == (LaunchpadState {
                            ticket_batch: final(self).ticket_batch,
                            ticket_range_for_address: final(self).ticket_range_for_address,
                            last_ticket_id: new_last,
                            nr_winning_tickets: if old(self).nr_winning_tickets > new_last { new_last } else { old(self).nr_winning_tickets },
                            flags: Flags { were_tickets_filtered: true, ..flags },
                            current_ongoing_operation: OngoingOperationType::Idle,
                            ..*old(self)
                        })
                    }
                    &&& status == OperationCompletionStatus::InterruptedBeforeOutOfGas ==> *final(self) == (LaunchpadState {
                        ticket_batch: final(self).ticket_batch,
                        ticket_range_for_address: final(self).ticket_range_for_address,
                        flags,
                        current_ongoing_operation: OngoingOperationType::FilterTickets { first_ticket_id_in_batch: f, nr_removed: k },
                        ..*old(self)
                    })
                }
            },
    {
        if self.paused {
            return Err(LaunchpadError::ContractPaused);
        }
        self.require_winner_selection_period(ctx.block_round)?;
        let mut flags = self.flags;
        if flags.were_tickets_filtered {
            return Err(LaunchpadError::TicketsAlreadyFiltered);
        }
        let last_ticket_id = self.last_ticket_id;
        if last_ticket_id == usize::MAX {
            return Err(LaunchpadError::ArithmeticError);
        }
        let (first0, removed0) = self.load_filter_tickets_operation()?;
        let mut first_ticket_id_in_batch = first0;
        let mut nr_removed = removed0;
        if first_ticket_id_in_batch == FIRST_TICKET_ID {
            flags.has_winner_selection_process_started = true;
        }
        let mut batches = self.ticket_batch.clone();
        let mut ranges = self.ticket_range_for_address.clone();
        let ghost b0 = batches@;
        let ghost r0 = ranges@;
        let ghost conf = self.nr_confirmed_tickets@;
        let ghost bl = self.blacklist@;
        let mut gas_left = gas.gas_left;
        let ghost mut n: nat = 0;
        let mut status = OperationCompletionStatus::InterruptedBeforeOutOfGas;
        loop
            invariant_except_break
                gas.gas_per_iteration > 0,
                *self == *old(self),
                spec_may_filter(self, *ctx),
                b0 == self.ticket_batch@,
                r0 == self.ticket_range_for_address@,
                (first0, removed0) == spec_filter_start(self),
                conf == self.nr_confirmed_tickets@,
                bl == self.blacklist@,
                last_ticket_id == self.last_ticket_id,
                last_ticket_id < usize::MAX,
                spec_filter_iterate(conf, bl, b0, r0, first0, removed0, n) == Some((batches@, ranges@, first_ticket_id_in_batch, nr_removed)),
                forall|i: nat| 1 <= i <= n ==> not_at_end(#[trigger] spec_filter_iterate(conf, bl, b0, r0, first0, removed0, i), last_ticket_id),
                status == OperationCompletionStatus::InterruptedBeforeOutOfGas,
                n == 0 || spec_can_continue(gas_left, gas.gas_per_iteration),
                gas_left == spec_gas_iter(gas.gas_left, gas.gas_per_iteration, n),
                forall|i: nat| 1 <= i <= n ==> spec_can_continue(#[trigger] spec_gas_iter(gas.gas_left, gas.gas_per_iteration, i), gas.gas_per_iteration),
            ensures
                *self == *old(self),
                n >= 1,
                spec_filter_ran(conf, bl, b0, r0, first0, removed0, last_ticket_id, n),
                spec_filter_iterate(conf, bl, b0, r0, first0, removed0, n) == Some((batches@, ranges@, first_ticket_id_in_batch, nr_removed)),
                status == OperationCompletionStatus::Completed <==> first_ticket_id_in_batch == last_ticket_id + 1,
                forall|i: nat| 1 <= i < n ==> spec_can_continue(#[trigger] spec_gas_iter(gas.gas_left, gas.gas_per_iteration, i), gas.gas_per_iteration),
                status == OperationCompletionStatus::InterruptedBeforeOutOfGas
                    ==> !spec_can_continue(spec_gas_iter(gas.gas_left, gas.gas_per_iteration, n), gas.gas_per_iteration),
            decreases gas_left,
        {
            match filter_batch_step(&mut batches, &mut ranges, &self.nr_confirmed_tickets, &self.blacklist, first_ticket_id_in_batch, nr_removed) {
                None => {
                    proof {
                        lemma_filter_fails_at(conf, bl, b0, r0, first0, removed0, last_ticket_id, gas.gas_left, gas.gas_per_iteration, n + 1);
                    }
                    return Err(LaunchpadError::ArithmeticError);
                },
                Some((f, k)) => {
                    first_ticket_id_in_batch = f;
                    nr_removed = k;
                },
            }
            proof {
                n = n + 1;
            }
            let ghost g0 = gas_left;
            gas_left = gas_after(gas_left, gas.gas_per_iteration);
            if first_ticket_id_in_batch == last_ticket_id + 1 {
                status = OperationCompletionStatus::Completed;
                break;
            }
            if !self.can_continue_operation(gas_left, gas.gas_per_iteration) {
                break;
            }
            assert(gas_left < g0);
        }
        match status {
            OperationCompletionStatus::InterruptedBeforeOutOfGas => {
                self.ticket_batch = batches;
                self.ticket_range_for_address = ranges;
                self.save_progress(OngoingOperationType::FilterTickets { first_ticket_id_in_batch, nr_removed });
            },
            OperationCompletionStatus::Completed => {
                if nr_removed > last_ticket_id {
                    proof {
                        lemma_filter_fails_at(conf, bl, b0, r0, first0, removed0, last_ticket_id, gas.gas_left, gas.gas_per_iteration, n);
                    }
                    return Err(LaunchpadError::ArithmeticError);
                }
                let new_last_ticket_id = last_ticket_id - nr_removed;
                if self.nr_winning_tickets > new_last_ticket_id {
                    self.nr_winning_tickets = new_last_ticket_id;
                }
                self.ticket_batch = batches;
                self.ticket_range_for_address = ranges;
                self.last_ticket_id = new_last_ticket_id;
                flags.were_tickets_filtered = true;
                self.clear_operation();
            },
        }
        self.flags = flags;
        proof {
            assert(spec_filter_start(old(self)) == (first0, removed0));
            assert(b0 == old(self).ticket_batch@);
            assert(r0 == old(self).ticket_range_for_address@);
            assert(spec_filter_iterate(conf, bl, b0, r0, first0, removed0, n) == Some((batches@, ranges@, first_ticket_id_in_batch, nr_removed)));
        }
        Ok(status)
    }

    /// Runs the shuffle while the gas lasts, from where it stopped; the seed is used
    /// only when the selection starts.
    fn select_winners(&mut self, ctx: &CallContext, gas: GasBudget, fresh_seed: [u8; 32]) -> (r: Result<OperationCompletionStatus, LaunchpadError>)
        ensures
            !spec_may_select(old(self), *ctx) ==> r is Err,
            old(self).paused ==> r == Err::<OperationCompletionStatus, _>(LaunchpadError::ContractPaused),
            !old(self).paused && old(self).stage_at(ctx.block_round) != LaunchStage::WinnerSelection
                ==> r == Err::<OperationCompletionStatus, _>(LaunchpadError::NotInWinnerSelectionPeriod),
            !old(self).paused && old(self).stage_at(ctx.block_round) == LaunchStage::WinnerSelection && !old(self).flags.were_tickets_filtered
                ==> r == Err::<OperationCompletionStatus, _>(LaunchpadError::MustFilterFirst),
            !old(self).paused && old(self).stage_at(ctx.block_round) == LaunchStage::WinnerSelection && old(self).flags.were_tickets_filtered
                && old(self).flags.were_winners_selected ==> r == Err::<OperationCompletionStatus, _>(LaunchpadError::WinnersAlreadySelected),
            !old(self).paused && old(self).stage_at(ctx.block_round) == LaunchStage::WinnerSelection && old(self).flags.were_tickets_filtered
                && !old(self).flags.were_winners_selected && old(self).last_ticket_id < usize::MAX
                && (old(self).current_ongoing_operation is FilterTickets || old(self).current_ongoing_operation is AdditionalSelection)
                ==> r == Err::<OperationCompletionStatus, _>(LaunchpadError::AnotherOperationInProgress),
            spec_may_select(old(self), *ctx) && r is Err ==> r == Err::<OperationCompletionStatus, _>(LaunchpadError::ArithmeticError)
                && spec_select_failed(
                    spec_select_start(old(self), fresh_seed).1,
                    old(self).nr_winning_tickets,
                    old(self).ticket_price.amount * old(self).nr_winning_tickets,
                    gas.gas_left,
                    gas.gas_per_iteration,
                ),
            r is Err ==> *final(self) == *old(self),
            r is Ok ==> spec_may_select(old(self), *ctx),
            r matches Ok(status) ==> {
                let (rng0, p0) = spec_select_start(old(self), fresh_seed);
                let last = old(self).last_ticket_id;
                let w = old(self).nr_winning_tickets;
                exists|n: nat| #![trigger spec_shuffle_iterate(old(self).ticket_status@, old(self).ticket_pos_to_id@, rng0.seed@, rng0.index as int, p0, last, n)]
                    n >= 1 && !(p0 <= w < p0 + n - 1) && {
                    let (st, pm, sd, ix) = spec_shuffle_iterate(old(self).ticket_status@, old(self).ticket_pos_to_id@, rng0.seed@, rng0.index as int, p0, last, n);
                    &&& final(self).ticket_status@ == st
                    &&& final(self).ticket_pos_to_id@ == pm
                    &&& (status == OperationCompletionStatus::Completed <==> p0 + n - 1 == w)
                    &&& forall|i: nat| 1 <= i < n ==> spec_can_continue(#[trigger] spec_gas_iter(gas.gas_left, gas.gas_per_iteration, i), gas.gas_per_iteration)
                    &&& status == OperationCompletionStatus::InterruptedBeforeOutOfGas
                        ==> !spec_can_continue(spec_gas_iter(gas.gas_left, gas.gas_per_iteration, n), gas.gas_per_iteration)
                    &&& status == OperationCompletionStatus::Completed ==> *final(self) == (LaunchpadState {
                        ticket_status: final(self).ticket_status,
                        ticket_pos_to_id: final(self).ticket_pos_to_id,
                        claimable_ticket_payment: (old(self).ticket_price.amount * w) as u128,
                        flags: Flags { were_winners_selected: true, ..old(self).flags },
                        current_ongoing_operation: OngoingOperationType::Idle,
                        ..*old(self)
                    })
                    &&& status == OperationCompletionStatus::InterruptedBeforeOutOfGas ==> {
                        &&& final(self).current_ongoing_operation matches OngoingOperationType::SelectWinners { rng, ticket_position }
                            && rng.seed@ == sd && rng.index == ix && ticket_position == p0 + n
                        &&& *final(self) == (LaunchpadState {
                            ticket_status: final(self).ticket_status,
                            ticket_pos_to_id: final(self).ticket_pos_to_id,
                            current_ongoing_operation: final(self).current_ongoing_operation,
                            ..*old(self)
                        })
                    }
                }
            },
    {
        if self.paused {
            return Err(LaunchpadError::ContractPaused);
        }
        self.require_winner_selection_period(ctx.block_round)?;
        let mut flags = self.flags;
        if !flags.were_tickets_filtered {
            return Err(LaunchpadError::MustFilterFirst);
        }
        if flags.were_winners_selected {
            return Err(LaunchpadError::WinnersAlreadySelected);
        }
        let nr_winning_tickets = self.nr_winning_tickets;
        let last_ticket_position = self.last_ticket_id;
        if last_ticket_position == usize::MAX {
            return Err(LaunchpadError::ArithmeticError);
        }
        let (rng0, pos0) = self.load_select_winners_operation(fresh_seed)?;
        let mut rng = rng0;
        let mut ticket_position = pos0;
        let mut status_map = self.ticket_status.clone();
        let mut pos_map = self.ticket_pos_to_id.clone();
        let ghost st0 = status_map@;
        let ghost pm0 = pos_map@;
        let mut gas_left = gas.gas_left;
        let ghost mut n: nat = 0;
        let mut status = OperationCompletionStatus::InterruptedBeforeOutOfGas;
        loop
            invariant_except_break
                gas.gas_per_iteration > 0,
                *self == *old(self),
                spec_may_select(self, *ctx),
                last_ticket_position == self.last_ticket_id,
                last_ticket_position < usize::MAX,
                nr_winning_tickets == self.nr_winning_tickets,
                ticket_position == pos0 + n,
                ({
                    let (st, pm, sd, ix) = spec_shuffle_iterate(st0, pm0, rng0.seed@, rng0.index as int, pos0, last_ticket_position, n);
                    &&& status_map@ == st
                    &&& pos_map@ == pm
                    &&& rng.seed@ == sd
                    &&& rng.index == ix
                }),
                !(pos0 <= nr_winning_tickets < pos0 + n),
                status == OperationCompletionStatus::InterruptedBeforeOutOfGas,
                n == 0 || spec_can_continue(gas_left, gas.gas_per_iteration),
                (rng0, pos0) == spec_select_start(self, fresh_seed),
                gas_left == spec_gas_iter(gas.gas_left, gas.gas_per_iteration, n),
                forall|i: nat| 1 <= i <= n ==> spec_can_continue(#[trigger] spec_gas_iter(gas.gas_left, gas.gas_per_iteration, i), gas.gas_per_iteration),
            ensures
                *self == *old(self),
                n >= 1,
                !(pos0 <= nr_winning_tickets < pos0 + n - 1),
                ({
                    let (st, pm, sd, ix) = spec_shuffle_iterate(st0, pm0, rng0.seed@, rng0.index as int, pos0, last_ticket_position, n);
                    &&& status_map@ == st
                    &&& pos_map@ == pm
                    &&& rng.seed@ == sd
                    &&& rng.index == ix
                }),
                status == OperationCompletionStatus::Completed <==> pos0 + n - 1 == nr_winning_tickets,
                status == OperationCompletionStatus::InterruptedBeforeOutOfGas ==> ticket_position == pos0 + n,
                forall|i: nat| 1 <= i < n ==> spec_can_continue(#[trigger] spec_gas_iter(gas.gas_left, gas.gas_per_iteration, i), gas.gas_per_iteration),
                status == OperationCompletionStatus::InterruptedBeforeOutOfGas
                    ==> !spec_can_continue(spec_gas_iter(gas.gas_left, gas.gas_per_iteration, n), gas.gas_per_iteration),
            decreases gas_left,
        {
            shuffle_step(&mut status_map, &mut pos_map, &mut rng, ticket_position, last_ticket_position);
            proof {
                n = n + 1;
            }
            let ghost g0 = gas_left;
            gas_left = gas_after(gas_left, gas.gas_per_iteration);
            if ticket_position == nr_winning_tickets {
                status = OperationCompletionStatus::Completed;
                break;
            }
            if ticket_position == usize::MAX {
                proof {
                    lemma_select_fails_at(pos0, nr_winning_tickets, self.ticket_price.amount * nr_winning_tickets, gas.gas_left, gas.gas_per_iteration, n);
                }
                return Err(LaunchpadError::ArithmeticError);
            }
            ticket_position = ticket_position + 1;
            if !self.can_continue_operation(gas_left, gas.gas_per_iteration) {
                break;
            }
            assert(gas_left < g0);
        }
        match status {
            OperationCompletionStatus::InterruptedBeforeOutOfGas => {
                self.ticket_status = status_map;
                self.ticket_pos_to_id = pos_map;
                self.save_progress(OngoingOperationType::SelectWinners { rng, ticket_position });
            },
            OperationCompletionStatus::Completed => {
                let claimable_ticket_payment = match self.ticket_price.amount.checked_mul(nr_winning_tickets as u128) {
                    Some(a) => a,
                    None => {
                        proof {
                            lemma_select_fails_at(pos0, nr_winning_tickets, self.ticket_price.amount * nr_winning_tickets, gas.gas_left, gas.gas_per_iteration, n);
                        }
                        return Err(LaunchpadError::ArithmeticError);
                    },
                };
                self.claimable_ticket_payment = claimable_ticket_payment;
                self.ticket_status = status_map;
                self.ticket_pos_to_id = pos_map;
                flags.were_winners_selected = true;
                self.clear_operation();
            },
        }
        self.flags = flags;
        proof {
            assert(spec_select_start(old(self), fresh_seed) == (rng0, pos0));
            assert(st0 == old(self).ticket_status@);
            assert(pm0 == old(self).ticket_pos_to_id@);
        }
        Ok(status)
    }

    /// Fisher-Yates: the ticket at a random position in `current..=last` wins, and the
    /// ticket at the current position takes its place.
    fn shuffle_single_ticket(&mut self, rng: &mut Random, current_ticket_position: usize, last_ticket_position: usize)
        ensures
            ({
                let (st, pm, sd, ix) = spec_shuffle_step(old(self).ticket_status@, old(self).ticket_pos_to_id@, old(rng).seed@,
                    old(rng).index as int, current_ticket_position, last_ticket_position);
                &&& final(self).ticket_status@ == st
                &&& final(self).ticket_pos_to_id@ == pm
                &&& final(rng).seed@ == sd
                &&& final(rng).index == ix
                &&& *final(self) == (LaunchpadState {
                    ticket_status: final(self).ticket_status,
                    ticket_pos_to_id: final(self).ticket_pos_to_id,
                    ..*old(self)
                })
            }),
    {
        shuffle_step(&mut self.ticket_status, &mut self.ticket_pos_to_id, rng, current_ticket_position, last_ticket_position);
    }

    fn get_number_of_winning_tickets_for_address(&self, address: Address) -> (r: usize)
        ensures
            r == self.winning_ids_for_address(address).len(),
    {
        self.get_winning_ticket_ids_for_address(address).len()
    }

    fn get_winning_ticket_ids_for_address(&self, address: Address) -> (r: Vec<usize>)
        ensures
            r@ == self.winning_ids_for_address(address),
    {
        if !self.flags.were_winners_selected {
            return Vec::new();
        }
        match self.ticket_range_for_address.get(&address) {
            Some(range) => self.winning_ticket_ids_in(*range),
            None => Vec::new(),
        }
    }
}

impl LaunchpadState {
    /// A user's winning ticket ids, once winners are selected.
    pub open spec fn winning_ids_for_address(&self, address: Address) -> Seq<usize> {
        if !self.flags.were_winners_selected || !self.ticket_range_for_address@.contains_key(address) {
            seq![]
        } else {
            self.winning_ids_of(self.ticket_range_for_address@[address])
        }
    }
}


/// The winning tickets among `1..=last`.
pub open spec fn winning_set(status: Map<usize, bool>, last: usize) -> Set<usize> {
    Set::new(|id: usize| 1 <= id <= last && stored_or(status, id, false))
}

/// What the shuffle keeps after `j` steps from the first position: the positions still to
/// draw from hold distinct tickets of `1..=last`, none of them winning, and `j` tickets won.
pub open spec fn shuffle_invariant(st: Map<usize, bool>, pm: Map<usize, usize>, last: usize, j: nat) -> bool {
    &&& forall|q: usize| j < q <= last ==> 1 <= #[trigger] spec_id_at(pm, q) <= last
    &&& forall|q1: usize, q2: usize| j < q1 <= last && j < q2 <= last && q1 != q2
        ==> #[trigger] spec_id_at(pm, q1) != #[trigger] spec_id_at(pm, q2)
    &&& forall|q: usize| j < q <= last ==> !stored_or(st, #[trigger] spec_id_at(pm, q), false)
    &&& winning_set(st, last).finite()
    &&& winning_set(st, last).len() == j
}

proof fn lemma_shuffle_invariant(
    status: Map<usize, bool>,
    pos_map: Map<usize, usize>,
    seed: Seq<u8>,
    index: int,
    last: usize,
    j: nat,
)
    requires
        j <= last,
        last < usize::MAX,
        forall|id: usize| 1 <= id <= last ==> !stored_or(status, id, false),
        forall|p: usize| 1 <= p <= last ==> stored_or(pos_map, p, 0) == 0,
    ensures
        ({
            let (st, pm, sd, ix) = spec_shuffle_iterate(status, pos_map, seed, index, 1, last, j);
            shuffle_invariant(st, pm, last, j)
        }),
    decreases j,
{
    if j == 0 {
        assert(winning_set(status, last) =~= Set::<usize>::empty());
        assert forall|q: usize| 0 < q <= last implies 1 <= #[trigger] spec_id_at(pos_map, q) <= last by {
            assert(stored_or(pos_map, q, 0) == 0);
        }
        assert forall|q1: usize, q2: usize| 0 < q1 <= last && 0 < q2 <= last && q1 != q2
            implies #[trigger] spec_id_at(pos_map, q1) != #[trigger] spec_id_at(pos_map, q2) by {
            assert(stored_or(pos_map, q1, 0) == 0);
            assert(stored_or(pos_map, q2, 0) == 0);
        }
        assert forall|q: usize| 0 < q <= last implies !stored_or(status, #[trigger] spec_id_at(pos_map, q), false) by {
            assert(stored_or(pos_map, q, 0) == 0);
        }
    } else {
        lemma_shuffle_invariant(status, pos_map, seed, index, last, (j - 1) as nat);
        let (st, pm, sd, ix) = spec_shuffle_iterate(status, pos_map, seed, index, 1, last, (j - 1) as nat);
        let p = j as usize;
        let (seed2, index2, value) = spec_next_from(sd, ix);
        let r = spec_in_range(value, p, (last + 1) as usize) as usize;
        assert(p <= r <= last);
        let win = spec_id_at(pm, r);
        let cur = spec_id_at(pm, p);
        let st2 = st.insert(win, true);
        let pm2 = pm.insert(r, cur);
        assert(spec_shuffle_iterate(status, pos_map, seed, index, 1, last, j) == (st2, pm2, seed2, index2));
        assert(1 <= cur <= last);
        assert forall|q: usize| j < q <= last implies spec_id_at(pm2, q) == if q == r { cur } else { spec_id_at(pm, q) } by {
            if q == r {
                assert(stored_or(pm2, q, 0) == cur);
            } else {
                assert(stored_or(pm2, q, 0) == stored_or(pm, q, 0));
            }
        }
        assert forall|q: usize| j < q <= last implies 1 <= #[trigger] spec_id_at(pm2, q) <= last by {
            assert(spec_id_at(pm2, q) == if q == r { cur } else { spec_id_at(pm, q) });
        }
        assert forall|q1: usize, q2: usize| j < q1 <= last && j < q2 <= last && q1 != q2
            implies #[trigger] spec_id_at(pm2, q1) != #[trigger] spec_id_at(pm2, q2) by {
            assert(spec_id_at(pm2, q1) == if q1 == r { cur } else { spec_id_at(pm, q1) });
            assert(spec_id_at(pm2, q2) == if q2 == r { cur } else { spec_id_at(pm, q2) });
            if q1 == r {
                assert(spec_id_at(pm, p) != spec_id_at(pm, q2));
            } else if q2 == r {
                assert(spec_id_at(pm, q1) != spec_id_at(pm, p));
            } else {
                assert(spec_id_at(pm, q1) != spec_id_at(pm, q2));
            }
        }
        assert forall|q: usize| j < q <= last implies !stored_or(st2, #[trigger] spec_id_at(pm2, q), false) by {
            assert(spec_id_at(pm2, q) == if q == r { cur } else { spec_id_at(pm, q) });
            let v = spec_id_at(pm2, q);
            if q == r {
                if r != p {
                    assert(spec_id_at(pm, p) != spec_id_at(pm, r));
                }
                assert(!stored_or(st, spec_id_at(pm, p), false));
            } else {
                assert(spec_id_at(pm, q) != spec_id_at(pm, r));
                assert(!stored_or(st, spec_id_at(pm, q), false));
            }
        }
        assert(!stored_or(st, win, false));
        assert(winning_set(st2, last) =~= winning_set(st, last).insert(win));
        assert(!winning_set(st, last).contains(win));
    }
}

/// Fisher-Yates picks distinct tickets: from positions `1..=last` that hold their own
/// tickets and no winning ticket, `n <= last` steps from the first position leave
/// exactly `n` winning tickets among `1..=last`, whatever the random numbers.
pub proof fn lemma_shuffle_selects_distinct_winners(
    status: Map<usize, bool>,
    pos_map: Map<usize, usize>,
    seed: Seq<u8>,
    index: int,
    last: usize,
    n: nat,
)
    requires
        n <= last,
        last < usize::MAX,
        forall|id: usize| 1 <= id <= last ==> !stored_or(status, id, false),
        forall|p: usize| 1 <= p <= last ==> stored_or(pos_map, p, 0) == 0,
    ensures
        ({
            let (st, pm, sd, ix) = spec_shuffle_iterate(status, pos_map, seed, index, 1, last, n);
            &&& winning_set(st, last).finite()
            &&& winning_set(st, last).len() == n
        }),
{
    lemma_shuffle_invariant(status, pos_map, seed, index, last, n);
}


/// The batches from id `p` up to `end`: `Some((count, kept))` when they follow each other
/// without gap or overlap up to exactly `end`, each holds at least one ticket and no owner
/// confirmed more tickets than its batch holds; `kept` counts the confirmed tickets of
/// owners that are not blacklisted.
pub open spec fn spec_chain(
    confirmed: Map<Address, usize>,
    blacklist: Set<Address>,
    batches: Map<usize, TicketBatch>,
    p: int,
    end: int,
) -> Option<(nat, int)>
    decreases end - p,
{
    if p == end {
        Some((0, 0))
    } else if p > end || p < 0 || p > usize::MAX {
        None
    } else {
        let b = stored_or(batches, p as usize, empty_batch());
        let c = stored_or(confirmed, b.address, 0);
        if b.nr_tickets == 0 || c > b.nr_tickets || p + b.nr_tickets > end {
            None
        } else {
            match spec_chain(confirmed, blacklist, batches, p + b.nr_tickets, end) {
                None => None,
                Some((cnt, kept)) => Some((cnt + 1, kept + if blacklist.contains(b.address) { 0 } else { c as int })),
            }
        }
    }
}

/// The chain from `p` reads only the batches from `p` on.
proof fn lemma_chain_frame(
    confirmed: Map<Address, usize>,
    blacklist: Set<Address>,
    b1: Map<usize, TicketBatch>,
    b2: Map<usize, TicketBatch>,
    p: int,
    end: int,
)
    requires
        forall|q: usize| q >= p ==> #[trigger] stored_or(b1, q, empty_batch()) == stored_or(b2, q, empty_batch()),
    ensures
        spec_chain(confirmed, blacklist, b1, p, end) == spec_chain(confirmed, blacklist, b2, p, end),
    decreases end - p,
{
    if p < end && 0 <= p <= usize::MAX {
        let b = stored_or(b1, p as usize, empty_batch());
        assert(stored_or(b2, p as usize, empty_batch()) == b);
        if b.nr_tickets > 0 && p + b.nr_tickets <= end {
            lemma_chain_frame(confirmed, blacklist, b1, b2, p + b.nr_tickets, end);
        }
    }
}

/// Running `n` steps is one step and then `n - 1` more.
proof fn lemma_filter_iterate_shift(
    confirmed: Map<Address, usize>,
    blacklist: Set<Address>,
    bs: Map<usize, TicketBatch>,
    rs: Map<Address, TicketRange>,
    f: usize,
    k: usize,
    bs1: Map<usize, TicketBatch>,
    rs1: Map<Address, TicketRange>,
    f1: usize,
    k1: usize,
    n: nat,
)
    requires
        spec_filter_step(confirmed, blacklist, bs, rs, f, k) == Some((bs1, rs1, f1, k1)),
        n >= 1,
    ensures
        spec_filter_iterate(confirmed, blacklist, bs, rs, f, k, n)
            == spec_filter_iterate(confirmed, blacklist, bs1, rs1, f1, k1, (n - 1) as nat),
    decreases n,
{
    assert(spec_filter_iterate(confirmed, blacklist, bs, rs, f, k, 0) == Some((bs, rs, f, k)));
    if n > 1 {
        lemma_filter_iterate_shift(confirmed, blacklist, bs, rs, f, k, bs1, rs1, f1, k1, (n - 1) as nat);
        assert(spec_filter_iterate(confirmed, blacklist, bs, rs, f, k, n) == match spec_filter_iterate(confirmed, blacklist, bs, rs, f, k, (n - 1) as nat) {
            None => None,
            Some((b, r, ff, kk)) => spec_filter_step(confirmed, blacklist, b, r, ff, kk),
        });
        assert(spec_filter_iterate(confirmed, blacklist, bs1, rs1, f1, k1, (n - 1) as nat) == match spec_filter_iterate(confirmed, blacklist, bs1, rs1, f1, k1, (n - 2) as nat) {
            None => None,
            Some((b, r, ff, kk)) => spec_filter_step(confirmed, blacklist, b, r, ff, kk),
        });
    } else {
        assert(spec_filter_iterate(confirmed, blacklist, bs1, rs1, f1, k1, 0) == Some((bs1, rs1, f1, k1)));
    }
}

/// Whether a filtering result has gone through and stands at or before `end`.
pub open spec fn filter_at_or_before(o: Option<(Map<usize, TicketBatch>, Map<Address, TicketRange>, usize, usize)>, end: int) -> bool {
    match o {
        Some(t) => t.2 <= end,
        None => false,
    }
}

proof fn lemma_filter_chain(
    confirmed: Map<Address, usize>,
    blacklist: Set<Address>,
    bs: Map<usize, TicketBatch>,
    rs: Map<Address, TicketRange>,
    f: usize,
    k: usize,
    end: int,
)
    requires
        spec_chain(confirmed, blacklist, bs, f as int, end) is Some,
        k < f,
        end <= usize::MAX,
        forall|a: Address| blacklist.contains(a) ==> stored_or(confirmed, a, 0) == 0,
    ensures
        ({
            let (cnt, kept) = spec_chain(confirmed, blacklist, bs, f as int, end).unwrap();
            &&& forall|m: nat| m < cnt ==> #[trigger] filter_at_or_before(spec_filter_iterate(confirmed, blacklist, bs, rs, f, k, m), end - 1)
            &&& spec_filter_iterate(confirmed, blacklist, bs, rs, f, k, cnt) matches Some(t)
                && t.2 == end && t.3 == k + (end - f) - kept
        }),
    decreases end - f,
{
    let (cnt, kept) = spec_chain(confirmed, blacklist, bs, f as int, end).unwrap();
    if f as int == end {
        assert(cnt == 0);
    } else {
        let b = stored_or(bs, f, empty_batch());
        let c = stored_or(confirmed, b.address, 0);
        let step = spec_filter_step(confirmed, blacklist, bs, rs, f, k);
        assert(step is Some);
        let (bs1, rs1, f1, k1) = step.unwrap();
        assert(f1 == f + b.nr_tickets);
        assert forall|q: usize| q >= f1 implies #[trigger] stored_or(bs1, q, empty_batch()) == stored_or(bs, q, empty_batch()) by {
        }
        lemma_chain_frame(confirmed, blacklist, bs1, bs, f1 as int, end);
        lemma_filter_chain(confirmed, blacklist, bs1, rs1, f1, k1, end);
        let (cnt1, kept1) = spec_chain(confirmed, blacklist, bs1, f1 as int, end).unwrap();
        assert(cnt == cnt1 + 1);
        assert forall|m: nat| m < cnt implies #[trigger] filter_at_or_before(spec_filter_iterate(confirmed, blacklist, bs, rs, f, k, m), end - 1) by {
            if m >= 1 {
                lemma_filter_iterate_shift(confirmed, blacklist, bs, rs, f, k, bs1, rs1, f1, k1, m);
                assert(filter_at_or_before(spec_filter_iterate(confirmed, blacklist, bs1, rs1, f1, k1, (m - 1) as nat), end - 1));
            }
        }
        lemma_filter_iterate_shift(confirmed, blacklist, bs, rs, f, k, bs1, rs1, f1, k1, cnt);
    }
}

/// Filtering a well-formed ticket table goes through and renumbers exactly the kept
/// tickets: when the batches from the first id cover `1..=last` (each with a ticket, no
/// owner confirming more than its batch) and blacklisted users confirmed nothing, the
/// steps never overflow, none before the last one reaches the end, and once the end is
/// reached `last - removed` is the number of confirmed tickets of the users who stay.
pub proof fn lemma_filter_keeps_confirmed_tickets(
    confirmed: Map<Address, usize>,
    blacklist: Set<Address>,
    batches: Map<usize, TicketBatch>,
    ranges: Map<Address, TicketRange>,
    last: usize,
)
    requires
        spec_chain(confirmed, blacklist, batches, FIRST_TICKET_ID as int, last + 1) is Some,
        last < usize::MAX,
        forall|a: Address| blacklist.contains(a) ==> stored_or(confirmed, a, 0) == 0,
    ensures
        ({
            let (cnt, kept) = spec_chain(confirmed, blacklist, batches, FIRST_TICKET_ID as int, last + 1).unwrap();
            &&& forall|m: nat| m < cnt ==> #[trigger] filter_at_or_before(
                spec_filter_iterate(confirmed, blacklist, batches, ranges, FIRST_TICKET_ID, 0, m), last as int)
            &&& spec_filter_iterate(confirmed, blacklist, batches, ranges, FIRST_TICKET_ID, 0, cnt) matches Some(t)
                && t.2 == last + 1 && last - t.3 == kept
        }),
{
    lemma_filter_chain(confirmed, blacklist, batches, ranges, FIRST_TICKET_ID, 0, last + 1);
}

/// Running `a + m` filtering steps is running `a` steps and then `m` more from where
/// they stopped.
pub proof fn lemma_filter_iterate_compose(
    confirmed: Map<Address, usize>,
    blacklist: Set<Address>,
    batches: Map<usize, TicketBatch>,
    ranges: Map<Address, TicketRange>,
    first: usize,
    removed: usize,
    a: nat,
    m: nat,
)
    ensures
        spec_filter_iterate(confirmed, blacklist, batches, ranges, first, removed, a + m) == match spec_filter_iterate(
            confirmed, blacklist, batches, ranges, first, removed, a) {
            None => None,
            Some((bs, rs, f, k)) => spec_filter_iterate(confirmed, blacklist, bs, rs, f, k, m),
        },
    decreases m,
{
    if m > 0 {
        lemma_filter_iterate_compose(confirmed, blacklist, batches, ranges, first, removed, a, (m - 1) as nat);
        assert((a + m - 1) as nat == a + (m - 1) as nat);
    } else {
        assert(a + m == a);
    }
}

/// Resumed filtering is one long filtering: when a call stopped for want of gas after
/// `n1` steps, leaving the batches, the ranges and the saved place that those steps
/// reached, then `n2` steps of the next call from that saved place reach what `n1 + n2`
/// steps of one call from the first state reach.
pub proof fn lemma_resumed_filtering_is_one_filtering(s0: LaunchpadState, s1: LaunchpadState, n1: nat, n2: nat)
    requires
        s1.nr_confirmed_tickets@ == s0.nr_confirmed_tickets@,
        s1.blacklist@ == s0.blacklist@,
        spec_filter_iterate(s0.nr_confirmed_tickets@, s0.blacklist@, s0.ticket_batch@, s0.ticket_range_for_address@,
            spec_filter_start(&s0).0, spec_filter_start(&s0).1, n1) matches Some((bs, rs, f, k))
            && s1.ticket_batch@ == bs && s1.ticket_range_for_address@ == rs
            && s1.current_ongoing_operation == (OngoingOperationType::FilterTickets { first_ticket_id_in_batch: f, nr_removed: k }),
    ensures
        spec_filter_iterate(s1.nr_confirmed_tickets@, s1.blacklist@, s1.ticket_batch@, s1.ticket_range_for_address@,
            spec_filter_start(&s1).0, spec_filter_start(&s1).1, n2)
            == spec_filter_iterate(s0.nr_confirmed_tickets@, s0.blacklist@, s0.ticket_batch@, s0.ticket_range_for_address@,
            spec_filter_start(&s0).0, spec_filter_start(&s0).1, n1 + n2),
{
    lemma_filter_iterate_compose(s0.nr_confirmed_tickets@, s0.blacklist@, s0.ticket_batch@, s0.ticket_range_for_address@,
        spec_filter_start(&s0).0, spec_filter_start(&s0).1, n1, n2);
}

/// Running `a + m` steps of the shuffle is running `a` steps and then `m` more from the
/// position after them.
pub proof fn lemma_shuffle_iterate_compose(
    status: Map<usize, bool>,
    pos_map: Map<usize, usize>,
    seed: Seq<u8>,
    index: int,
    first_pos: usize,
    last: usize,
    a: nat,
    m: nat,
)
    requires
        first_pos + a + m <= usize::MAX + 1,
    ensures
        spec_shuffle_iterate(status, pos_map, seed, index, first_pos, last, a + m) == ({
            let (st, pm, sd, ix) = spec_shuffle_iterate(status, pos_map, seed, index, first_pos, last, a);
            spec_shuffle_iterate(st, pm, sd, ix, (first_pos + a) as usize, last, m)
        }),
    decreases m,
{
    if m > 0 {
        lemma_shuffle_iterate_compose(status, pos_map, seed, index, first_pos, last, a, (m - 1) as nat);
        assert((a + m - 1) as nat == a + (m - 1) as nat);
        assert((first_pos + (a + m) - 1) as usize == (((first_pos + a) as usize) + m - 1) as usize);
    } else {
        assert(a + m == a);
    }
}

/// Resumed selection is one long selection: when a call stopped for want of gas after
/// `n1` draws, leaving the ticket tables and the generator and position that those draws
/// reached, then `n2` draws of the next call from that saved place reach what `n1 + n2`
/// draws of one call from the first state reach.
pub proof fn lemma_resumed_selection_is_one_selection(
    s0: LaunchpadState,
    s1: LaunchpadState,
    fresh_seed0: [u8; 32],
    fresh_seed1: [u8; 32],
    n1: nat,
    n2: nat,
)
    requires
        s1.last_ticket_id == s0.last_ticket_id,
        spec_select_start(&s0, fresh_seed0).1 + n1 + n2 <= usize::MAX + 1,
        ({
            let (rng0, p0) = spec_select_start(&s0, fresh_seed0);
            let (st, pm, sd, ix) = spec_shuffle_iterate(s0.ticket_status@, s0.ticket_pos_to_id@, rng0.seed@, rng0.index as int,
                p0, s0.last_ticket_id, n1);
            &&& s1.ticket_status@ == st
            &&& s1.ticket_pos_to_id@ == pm
            &&& s1.current_ongoing_operation matches OngoingOperationType::SelectWinners { rng, ticket_position }
                && rng.seed@ == sd && rng.index == ix && ticket_position == p0 + n1
        }),
    ensures
        ({
            let (rng0, p0) = spec_select_start(&s0, fresh_seed0);
            let (rng1, p1) = spec_select_start(&s1, fresh_seed1);
            spec_shuffle_iterate(s1.ticket_status@, s1.ticket_pos_to_id@, rng1.seed@, rng1.index as int, p1, s1.last_ticket_id, n2)
                == spec_shuffle_iterate(s0.ticket_status@, s0.ticket_pos_to_id@, rng0.seed@, rng0.index as int, p0, s0.last_ticket_id,
                n1 + n2)
        }),
{
    let (rng0, p0) = spec_select_start(&s0, fresh_seed0);
    lemma_shuffle_iterate_compose(s0.ticket_status@, s0.ticket_pos_to_id@, rng0.seed@, rng0.index as int, p0, s0.last_ticket_id, n1, n2);
}

/// The shuffle picks distinct tickets however its draws are split over calls: `a` draws
/// from the first position and then `m` more from the position after them, with
/// `a + m <= last`, leave exactly `a + m` winning tickets among `1..=last`.
pub proof fn lemma_resumed_shuffle_selects_distinct_winners(
    status: Map<usize, bool>,
    pos_map: Map<usize, usize>,
    seed: Seq<u8>,
    index: int,
    last: usize,
    a: nat,
    m: nat,
)
    requires
        a + m <= last,
        last < usize::MAX,
        forall|id: usize| 1 <= id <= last ==> !stored_or(status, id, false),
        forall|p: usize| 1 <= p <= last ==> stored_or(pos_map, p, 0) == 0,
    ensures
        ({
            let (st1, pm1, sd1, ix1) = spec_shuffle_iterate(status, pos_map, seed, index, 1, last, a);
            let (st, pm, sd, ix) = spec_shuffle_iterate(st1, pm1, sd1, ix1, (1 + a) as usize, last, m);
            &&& winning_set(st, last).finite()
            &&& winning_set(st, last).len() == a + m
        }),
{
    lemma_shuffle_iterate_compose(status, pos_map, seed, index, 1, last, a, m);
    lemma_shuffle_selects_distinct_winners(status, pos_map, seed, index, last, a + m);
}

/// The batches from id `p` up to `end` hold kept tickets one after the other, without
/// gap or overlap: each holds exactly its owner's confirmed tickets, at least one, and
/// no owner is blacklisted.
pub open spec fn spec_renumbered(
    confirmed: Map<Address, usize>,
    blacklist: Set<Address>,
    batches: Map<usize, TicketBatch>,
    p: int,
    end: int,
) -> bool
    decreases end - p,
{
    if p == end {
        true
    } else if p > end || p < 0 || p > usize::MAX {
        false
    } else {
        let b = stored_or(batches, p as usize, empty_batch());
        if b.nr_tickets == 0 || p + b.nr_tickets > end || blacklist.contains(b.address)
            || stored_or(confirmed, b.address, 0) != b.nr_tickets {
            false
        } else {
            spec_renumbered(confirmed, blacklist, batches, p + b.nr_tickets, end)
        }
    }
}

/// The renumbered batches before `end` read only the batches before `end`.
proof fn lemma_renumbered_frame(
    confirmed: Map<Address, usize>,
    blacklist: Set<Address>,
    b1: Map<usize, TicketBatch>,
    b2: Map<usize, TicketBatch>,
    p: int,
    end: int,
)
    requires
        forall|q: usize| q < end ==> #[trigger] stored_or(b1, q, empty_batch()) == stored_or(b2, q, empty_batch()),
        spec_renumbered(confirmed, blacklist, b1, p, end),
    ensures
        spec_renumbered(confirmed, blacklist, b2, p, end),
    decreases end - p,
{
    if p < end {
        let b = stored_or(b1, p as usize, empty_batch());
        assert(stored_or(b2, p as usize, empty_batch()) == b);
        if b.nr_tickets > 0 && p + b.nr_tickets <= end {
            lemma_renumbered_frame(confirmed, blacklist, b1, b2, p + b.nr_tickets, end);
        }
    }
}

/// A kept batch at `end` extends the renumbered batches up to its end.
proof fn lemma_renumbered_extend(
    confirmed: Map<Address, usize>,
    blacklist: Set<Address>,
    batches: Map<usize, TicketBatch>,
    p: int,
    end: int,
)
    requires
        spec_renumbered(confirmed, blacklist, batches, p, end),
        0 <= end <= usize::MAX,
        stored_or(batches, end as usize, empty_batch()).nr_tickets > 0,
        !blacklist.contains(stored_or(batches, end as usize, empty_batch()).address),
        stored_or(confirmed, stored_or(batches, end as usize, empty_batch()).address, 0)
            == stored_or(batches, end as usize, empty_batch()).nr_tickets,
    ensures
        spec_renumbered(confirmed, blacklist, batches, p, end + stored_or(batches, end as usize, empty_batch()).nr_tickets),
    decreases end - p,
{
    let n = stored_or(batches, end as usize, empty_batch()).nr_tickets;
    if p == end {
        assert(spec_renumbered(confirmed, blacklist, batches, end + n, end + n));
    } else {
        let b = stored_or(batches, p as usize, empty_batch());
        if b.nr_tickets > 0 && p + b.nr_tickets <= end {
            lemma_renumbered_extend(confirmed, blacklist, batches, p + b.nr_tickets, end);
        }
    }
}

proof fn lemma_filter_renumbers(
    confirmed: Map<Address, usize>,
    blacklist: Set<Address>,
    bs: Map<usize, TicketBatch>,
    rs: Map<Address, TicketRange>,
    f: usize,
    k: usize,
    end: int,
)
    requires
        spec_chain(confirmed, blacklist, bs, f as int, end) is Some,
        k < f,
        end <= usize::MAX,
        forall|a: Address| blacklist.contains(a) ==> stored_or(confirmed, a, 0) == 0,
        spec_renumbered(confirmed, blacklist, bs, FIRST_TICKET_ID as int, f - k),
    ensures
        ({
            let (cnt, kept) = spec_chain(confirmed, blacklist, bs, f as int, end).unwrap();
            spec_filter_iterate(confirmed, blacklist, bs, rs, f, k, cnt) matches Some(t)
                && spec_renumbered(confirmed, blacklist, t.0, FIRST_TICKET_ID as int, end - t.3)
        }),
    decreases end - f,
{
    let (cnt, kept) = spec_chain(confirmed, blacklist, bs, f as int, end).unwrap();
    if f as int == end {
        assert(cnt == 0);
    } else {
        let b = stored_or(bs, f, empty_batch());
        let c = stored_or(confirmed, b.address, 0);
        let step = spec_filter_step(confirmed, blacklist, bs, rs, f, k);
        assert(step is Some);
        let (bs1, rs1, f1, k1) = step.unwrap();
        assert(f1 == f + b.nr_tickets);
        assert forall|q: usize| q < f - k implies #[trigger] stored_or(bs, q, empty_batch()) == stored_or(bs1, q, empty_batch()) by {
        }
        lemma_renumbered_frame(confirmed, blacklist, bs, bs1, FIRST_TICKET_ID as int, f - k);
        if c > 0 {
            assert(!blacklist.contains(b.address));
            assert(stored_or(bs1, (f - k) as usize, empty_batch()) == TicketBatch { address: b.address, nr_tickets: c });
            lemma_renumbered_extend(confirmed, blacklist, bs1, FIRST_TICKET_ID as int, f - k);
        }
        assert(f1 - k1 == f - k + c);
        assert forall|q: usize| q >= f1 implies #[trigger] stored_or(bs1, q, empty_batch()) == stored_or(bs, q, empty_batch()) by {
        }
        lemma_chain_frame(confirmed, blacklist, bs1, bs, f1 as int, end);
        lemma_filter_renumbers(confirmed, blacklist, bs1, rs1, f1, k1, end);
        lemma_filter_iterate_shift(confirmed, blacklist, bs, rs, f, k, bs1, rs1, f1, k1, cnt);
    }
}

/// Filtering renumbers the kept tickets from the first id on: from a well-formed
/// ticket table whose blacklisted users confirmed nothing, once the filtering reaches the
/// end the batches follow each other from id 1, without gap or overlap, up to the new
/// last ticket id, and each holds exactly the confirmed tickets of a user who stays.
pub proof fn lemma_filtering_renumbers_from_one(
    confirmed: Map<Address, usize>,
    blacklist: Set<Address>,
    batches: Map<usize, TicketBatch>,
    ranges: Map<Address, TicketRange>,
    last: usize,
)
    requires
        spec_chain(confirmed, blacklist, batches, FIRST_TICKET_ID as int, last + 1) is Some,
        last < usize::MAX,
        forall|a: Address| blacklist.contains(a) ==> stored_or(confirmed, a, 0) == 0,
    ensures
        ({
            let (cnt, kept) = spec_chain(confirmed, blacklist, batches, FIRST_TICKET_ID as int, last + 1).unwrap();
            spec_filter_iterate(confirmed, blacklist, batches, ranges, FIRST_TICKET_ID, 0, cnt) matches Some(t)
                && t.2 == last + 1
                && spec_renumbered(confirmed, blacklist, t.0, FIRST_TICKET_ID as int, (last - t.3) + 1)
        }),
{
    assert(spec_renumbered(confirmed, blacklist, batches, FIRST_TICKET_ID as int, FIRST_TICKET_ID as int));
    lemma_filter_renumbers(confirmed, blacklist, batches, ranges, FIRST_TICKET_ID, 0, last + 1);
    lemma_filter_keeps_confirmed_tickets(confirmed, blacklist, batches, ranges, last);
}

} // verus!
