//! Giving the guaranteed tickets after the lottery: each user with guaranteed tickets wins
//! as many of their own tickets as they confirmed, up to what their tiers guarantee, and
//! the guaranteed tickets nobody could use are drawn again among all tickets.

use std::collections::HashMap;
use vstd::prelude::*;

use crate::launchpad_common::codec::{lemma_be32_round_trip, push_be32, read_be32, spec_be32, spec_be32_at};
use crate::launchpad_common::config::LaunchpadState;
use crate::launchpad_common::errors::LaunchpadError;
use crate::launchpad_common::ongoing_operation::{
    gas_after, spec_can_continue, spec_gas_after, spec_gas_iter, GasBudget, OngoingOperationModule, OperationCompletionStatus,
};
use crate::launchpad_common::random::{spec_in_range, spec_next_from, Random};
use crate::launchpad_common::storage::{get_by_address, get_by_index, stored_or, Address};
use crate::launchpad_common::tickets::{range_wf, TicketRange, TicketsModule, WINNING_TICKET};
use crate::launchpad_common::winner_selection::spec_id_at;
use crate::launchpad_guaranteed_tickets_v2::guaranteed_tickets_init::{
    lemma_info_sum_nonneg, lemma_swap_remove, spec_info_sum, spec_swap_remove, statuses_view, vec_swap_remove_value,
    GuaranteedTicketInfo, GuaranteedTicketsInitModule, StatusView, UserTicketsStatus,
};
use crate::launchpad_guaranteed_tickets_v2::state::GuaranteedTicketsLaunchpad;

verus! {

broadcast use vstd::std_specs::hash::group_hash_axioms;

/// How far the giving of guaranteed tickets got: the generator of the draw, the guaranteed
/// tickets still to draw, the next position to draw for, and the tickets won so far
/// beyond the lottery's.
#[derive(Debug, Clone, Copy)]
pub struct GuaranteedTicketsSelectionOperation {
    pub rng: Random,
    pub leftover_tickets: usize,
    pub leftover_ticket_pos_offset: usize,
    pub total_additional_winning_tickets: usize,
}

impl GuaranteedTicketsSelectionOperation {
    /// The start of the giving: a generator on the chain's fresh seed, nothing to draw,
    /// and the first position after the lottery's winning tickets.
    pub fn default(fresh_seed: [u8; 32]) -> (r: GuaranteedTicketsSelectionOperation)
        ensures
            r.rng == (Random { seed: fresh_seed, index: 0 }),
            r.leftover_tickets == 0,
            r.leftover_ticket_pos_offset == 1,
            r.total_additional_winning_tickets == 0,
    {
        GuaranteedTicketsSelectionOperation {
            rng: Random::from_hash(fresh_seed, 0),
            leftover_tickets: 0,
            leftover_ticket_pos_offset: 1,
            total_additional_winning_tickets: 0,
        }
    }
}

/// The bytes of a saved operation: the seed's length and the seed, then the generator's
/// position, the tickets left, the position offset and the tickets added.
pub const ENCODED_OPERATION_LEN: usize = 52;

/// The bytes of a saved operation.
pub open spec fn spec_encode_operation(op: GuaranteedTicketsSelectionOperation) -> Seq<u8> {
    spec_be32(32) + op.rng.seed@ + spec_be32(op.rng.index as int) + spec_be32(op.leftover_tickets as int)
        + spec_be32(op.leftover_ticket_pos_offset as int) + spec_be32(op.total_additional_winning_tickets as int)
}

/// The operation that some bytes hold, by its view, with the generator's seed and
/// position first; `None` unless they have the length of one and a seed of 32 bytes.
pub open spec fn spec_decode_operation(b: Seq<u8>) -> Option<(Seq<u8>, int, int, int, int)> {
    if b.len() != ENCODED_OPERATION_LEN || spec_be32_at(b, 0) != 32 {
        None
    } else {
        Some((b.subrange(4, 36), spec_be32_at(b, 36), spec_be32_at(b, 40), spec_be32_at(b, 44), spec_be32_at(b, 48)))
    }
}

/// A saved operation is read back as it was, when its counts fit in 32 bits.
pub proof fn lemma_operation_round_trip(op: GuaranteedTicketsSelectionOperation)
    requires
        op.rng.index <= u32::MAX,
        op.leftover_tickets <= u32::MAX,
        op.leftover_ticket_pos_offset <= u32::MAX,
        op.total_additional_winning_tickets <= u32::MAX,
    ensures
        spec_decode_operation(spec_encode_operation(op)) == Some((
            op.rng.seed@,
            op.rng.index as int,
            op.leftover_tickets as int,
            op.leftover_ticket_pos_offset as int,
            op.total_additional_winning_tickets as int,
        )),
{
    let b = spec_encode_operation(op);
    lemma_be32_round_trip(32);
    lemma_be32_round_trip(op.rng.index as int);
    lemma_be32_round_trip(op.leftover_tickets as int);
    lemma_be32_round_trip(op.leftover_ticket_pos_offset as int);
    lemma_be32_round_trip(op.total_additional_winning_tickets as int);
    assert(b.len() == ENCODED_OPERATION_LEN);
    assert(b.subrange(0, 4) =~= spec_be32(32));
    assert(b.subrange(4, 36) =~= op.rng.seed@);
    assert(b.subrange(36, 40) =~= spec_be32(op.rng.index as int));
    assert(b.subrange(40, 44) =~= spec_be32(op.leftover_tickets as int));
    assert(b.subrange(44, 48) =~= spec_be32(op.leftover_ticket_pos_offset as int));
    assert(b.subrange(48, 52) =~= spec_be32(op.total_additional_winning_tickets as int));
    assert(spec_be32_at(b, 0) == spec_be32_at(b.subrange(0, 4), 0));
    assert(spec_be32_at(b, 36) == spec_be32_at(b.subrange(36, 40), 0));
    assert(spec_be32_at(b, 40) == spec_be32_at(b.subrange(40, 44), 0));
    assert(spec_be32_at(b, 44) == spec_be32_at(b.subrange(44, 48), 0));
    assert(spec_be32_at(b, 48) == spec_be32_at(b.subrange(48, 52), 0));
}

impl GuaranteedTicketsSelectionOperation {
    /// The bytes under which the operation is saved between calls.
    pub fn encode(&self) -> (r: Vec<u8>)
        ensures
            r@ == spec_encode_operation(*self),
    {
        let mut out: Vec<u8> = Vec::new();
        push_be32(&mut out, 32);
        let mut i: usize = 0;
        while i < 32
            invariant
                i <= 32,
                out@ == spec_be32(32) + self.rng.seed@.take(i as int),
            decreases 32 - i,
        {
            out.push(self.rng.seed[i]);
            i = i + 1;
            assert(out@ =~= spec_be32(32) + self.rng.seed@.take(i as int));
        }
        assert(self.rng.seed@.take(32) =~= self.rng.seed@);
        push_be32(&mut out, self.rng.index);
        push_be32(&mut out, self.leftover_tickets);
        push_be32(&mut out, self.leftover_ticket_pos_offset);
        push_be32(&mut out, self.total_additional_winning_tickets);
        out
    }

    /// The operation saved under some bytes; refused unless they have the length of one
    /// and a seed of 32 bytes.
    pub fn decode(data: &Vec<u8>) -> (r: Result<GuaranteedTicketsSelectionOperation, LaunchpadError>)
        ensures
            r is Err <==> spec_decode_operation(data@) is None,
            r is Err ==> r == Err::<GuaranteedTicketsSelectionOperation, _>(LaunchpadError::InvalidOperationData),
            r matches Ok(op) ==> spec_decode_operation(data@) == Some((
                op.rng.seed@,
                op.rng.index as int,
                op.leftover_tickets as int,
                op.leftover_ticket_pos_offset as int,
                op.total_additional_winning_tickets as int,
            )),
    {
        if data.len() != ENCODED_OPERATION_LEN || read_be32(data, 0) != 32 {
            return Err(LaunchpadError::InvalidOperationData);
        }
        let mut seed: [u8; 32] = [0u8; 32];
        let mut i: usize = 0;
        while i < 32
            invariant
                i <= 32,
                data@.len() == ENCODED_OPERATION_LEN,
                forall|j: int| 0 <= j < i ==> seed@[j] == data@[4 + j],
            decreases 32 - i,
        {
            seed[i] = data[4 + i];
            i = i + 1;
        }
        assert(seed@ =~= data@.subrange(4, 36));
        Ok(GuaranteedTicketsSelectionOperation {
            rng: Random::from_hash(seed, read_be32(data, 36)),
            leftover_tickets: read_be32(data, 40),
            leftover_ticket_pos_offset: read_be32(data, 44),
            total_additional_winning_tickets: read_be32(data, 48),
        })
    }
}

/// A user's guaranteed tickets split into those the user wins and those left for the draw.
#[derive(Debug, Clone, Copy, PartialEq, Eq, Structural)]
pub struct CalculateGuaranteedTicketsResult {
    pub guaranteed_tickets: usize,
    pub leftover_tickets: usize,
}

impl CalculateGuaranteedTicketsResult {
    pub fn new(guaranteed_tickets: usize, leftover_tickets: usize) -> (r: CalculateGuaranteedTicketsResult)
        ensures
            r.guaranteed_tickets == guaranteed_tickets,
            r.leftover_tickets == leftover_tickets,
    {
        CalculateGuaranteedTicketsResult { guaranteed_tickets, leftover_tickets }
    }
}

/// How one try of the draw ended.
#[derive(Debug, Clone, Copy, PartialEq, Eq, Structural)]
pub enum AdditionalSelectionTryResult {
    /// A losing ticket was drawn and now wins.
    Selected,
    /// The ticket at the current position already wins.
    CurrentAlreadyWinning,
    /// The ticket drawn already wins.
    NewlySelectedAlreadyWinning,
}

/// Whether a ticket wins: what is stored for it, or not.
pub open spec fn is_winning_in(status: Map<usize, bool>, id: usize) -> bool {
    stored_or(status, id, false)
}

/// The guaranteed tickets of the tiers whose confirmation threshold the user met.
pub open spec fn spec_met_sum(infos: Seq<GuaranteedTicketInfo>, confirmed: usize) -> int
    decreases infos.len(),
{
    if infos.len() == 0 {
        0
    } else {
        spec_met_sum(infos.drop_last(), confirmed) + if confirmed >= infos.last().min_confirmed_tickets {
            infos.last().guaranteed_tickets as int
        } else {
            0
        }
    }
}

/// The guaranteed tickets of the tiers whose confirmation threshold the user missed.
pub open spec fn spec_unmet_sum(infos: Seq<GuaranteedTicketInfo>, confirmed: usize) -> int
    decreases infos.len(),
{
    if infos.len() == 0 {
        0
    } else {
        spec_unmet_sum(infos.drop_last(), confirmed) + if confirmed >= infos.last().min_confirmed_tickets {
            0
        } else {
            infos.last().guaranteed_tickets as int
        }
    }
}

/// A user's guaranteed tickets as (won, left for the draw): the tiers met, at most the
/// confirmed tickets, are won; the rest is left.  `None` where a count leaves the integers.
pub open spec fn spec_calculate(infos: Seq<GuaranteedTicketInfo>, confirmed: usize) -> Option<(usize, usize)> {
    let met = spec_met_sum(infos, confirmed);
    let unmet = spec_unmet_sum(infos, confirmed);
    if met > usize::MAX || unmet > usize::MAX {
        None
    } else if met > confirmed {
        if unmet + (met - confirmed) > usize::MAX {
            None
        } else {
            Some((confirmed, (unmet + met - confirmed) as usize))
        }
    } else {
        Some((met as usize, unmet as usize))
    }
}

/// Every tier is either met or missed.
pub proof fn lemma_met_unmet_partition(infos: Seq<GuaranteedTicketInfo>, confirmed: usize)
    ensures
        spec_met_sum(infos, confirmed) + spec_unmet_sum(infos, confirmed) == spec_info_sum(infos),
        spec_met_sum(infos, confirmed) >= 0,
        spec_unmet_sum(infos, confirmed) >= 0,
    decreases infos.len(),
{
    if infos.len() > 0 {
        lemma_met_unmet_partition(infos.drop_last(), confirmed);
    }
}

pub proof fn lemma_met_unmet_prefix(infos: Seq<GuaranteedTicketInfo>, confirmed: usize, j: int)
    requires
        0 <= j <= infos.len(),
    ensures
        spec_met_sum(infos.take(j), confirmed) <= spec_met_sum(infos, confirmed),
        spec_unmet_sum(infos.take(j), confirmed) <= spec_unmet_sum(infos, confirmed),
    decreases infos.len(),
{
    if infos.len() > 0 && j < infos.len() {
        assert(infos.drop_last().take(j) =~= infos.take(j));
        lemma_met_unmet_prefix(infos.drop_last(), confirmed, j);
        lemma_met_unmet_partition(infos.drop_last(), confirmed);
    } else if j == infos.len() {
        assert(infos.take(j) =~= infos);
    }
}

/// The winning tickets among the ids `first..=last`.
pub open spec fn spec_count_winning(status: Map<usize, bool>, first: int, last: int) -> int
    decreases last - first + 1,
{
    if last < first {
        0
    } else {
        spec_count_winning(status, first, last - 1) + if is_winning_in(status, last as usize) {
            1int
        } else {
            0
        }
    }
}

pub proof fn lemma_count_winning_bounds(status: Map<usize, bool>, first: int, last: int)
    ensures
        0 <= spec_count_winning(status, first, last),
        first <= last + 1 ==> spec_count_winning(status, first, last) <= last - first + 1,
    decreases last - first + 1,
{
    if last >= first {
        lemma_count_winning_bounds(status, first, last - 1);
    }
}

/// The ticket statuses after the first `remaining` losing tickets among `cur..=last` are
/// made winning, and how many could not be found there.
pub open spec fn spec_mark_losing(status: Map<usize, bool>, cur: int, last: int, remaining: int) -> (Map<usize, bool>, int)
    decreases last - cur + 1,
{
    if remaining <= 0 || cur > last {
        (status, remaining)
    } else if is_winning_in(status, cur as usize) {
        spec_mark_losing(status, cur + 1, last, remaining)
    } else {
        spec_mark_losing(status.insert(cur as usize, true), cur + 1, last, remaining - 1)
    }
}

pub proof fn lemma_mark_losing_bounds(status: Map<usize, bool>, cur: int, last: int, remaining: int)
    requires
        remaining >= 0,
    ensures
        0 <= spec_mark_losing(status, cur, last, remaining).1 <= remaining,
    decreases last - cur + 1,
{
    if remaining > 0 && cur <= last {
        if is_winning_in(status, cur as usize) {
            lemma_mark_losing_bounds(status, cur + 1, last, remaining);
        } else {
            lemma_mark_losing_bounds(status.insert(cur as usize, true), cur + 1, last, remaining - 1);
        }
    }
}

/// The statuses and the operation after a user's own tickets in a range are made to win
/// `tickets_to_win` more; those that cannot be found are left for the draw.  `None` where
/// a count leaves the integers.
pub open spec fn spec_select_additional(
    status: Map<usize, bool>,
    op: GuaranteedTicketsSelectionOperation,
    range: TicketRange,
    tickets_to_win: usize,
) -> Option<(Map<usize, bool>, GuaranteedTicketsSelectionOperation)> {
    let (st, rem) = spec_mark_losing(status, range.first_id as int, range.last_id as int, tickets_to_win as int);
    let won = tickets_to_win - rem;
    if op.total_additional_winning_tickets + won > usize::MAX || op.leftover_tickets + rem > usize::MAX {
        None
    } else {
        Some((
            st,
            GuaranteedTicketsSelectionOperation {
                total_additional_winning_tickets: (op.total_additional_winning_tickets + won) as usize,
                leftover_tickets: (op.leftover_tickets + rem) as usize,
                ..op
            },
        ))
    }
}

/// The operation with some tickets more left for the draw, unless the count leaves the
/// integers.
pub open spec fn spec_add_leftover(op: GuaranteedTicketsSelectionOperation, n: int) -> Option<GuaranteedTicketsSelectionOperation> {
    if op.leftover_tickets + n > usize::MAX {
        None
    } else {
        Some(GuaranteedTicketsSelectionOperation { leftover_tickets: (op.leftover_tickets + n) as usize, ..op })
    }
}

/// A user is given `guaranteed` winning tickets: a user without tickets leaves them all
/// for the draw, one who won that many already in the lottery too, and otherwise the
/// missing ones are taken from the user's losing tickets.
pub open spec fn spec_process_guaranteed(
    status: Map<usize, bool>,
    ranges: Map<Address, TicketRange>,
    op: GuaranteedTicketsSelectionOperation,
    user: Address,
    guaranteed: usize,
) -> Option<(Map<usize, bool>, GuaranteedTicketsSelectionOperation)> {
    if !ranges.contains_key(user) {
        match spec_add_leftover(op, guaranteed as int) {
            Some(o) => Some((status, o)),
            None => None,
        }
    } else {
        let range = ranges[user];
        let won = spec_count_winning(status, range.first_id as int, range.last_id as int);
        if guaranteed > won {
            spec_select_additional(status, op, range, (guaranteed - won) as usize)
        } else {
            match spec_add_leftover(op, guaranteed as int) {
                Some(o) => Some((status, o)),
                None => None,
            }
        }
    }
}

/// The generator's seed and position, the tickets left for the draw, the next position's
/// offset and the tickets won beyond the lottery's.
pub type SelectionView = (Seq<u8>, int, usize, usize, usize);

/// The operation by its view.
pub open spec fn op_view(op: GuaranteedTicketsSelectionOperation) -> SelectionView {
    (op.rng.seed@, op.rng.index as int, op.leftover_tickets, op.leftover_ticket_pos_offset, op.total_additional_winning_tickets)
}

/// One try of the draw for position `cur`: if the ticket there wins already nothing
/// happens; otherwise a position in `cur..=last` is drawn, and if its ticket loses it now
/// wins and the position is given the current ticket.
pub open spec fn spec_try_select(
    status: Map<usize, bool>,
    pos_map: Map<usize, usize>,
    seed: Seq<u8>,
    index: int,
    cur: usize,
    last: usize,
) -> (Map<usize, bool>, Map<usize, usize>, Seq<u8>, int, AdditionalSelectionTryResult) {
    let cur_id = spec_id_at(pos_map, cur);
    if is_winning_in(status, cur_id) {
        (status, pos_map, seed, index, AdditionalSelectionTryResult::CurrentAlreadyWinning)
    } else {
        let (seed2, index2, value) = spec_next_from(seed, index);
        let rand_pos = spec_in_range(value, cur, (last + 1) as usize) as usize;
        let winning_id = spec_id_at(pos_map, rand_pos);
        if is_winning_in(status, winning_id) {
            (status, pos_map, seed2, index2, AdditionalSelectionTryResult::NewlySelectedAlreadyWinning)
        } else {
            (status.insert(winning_id, true), pos_map.insert(rand_pos, cur_id), seed2, index2, AdditionalSelectionTryResult::Selected)
        }
    }
}

/// A try of the draw for position `cur` of `1..=last`: where the ticket at `cur` wins
/// already, nothing changes and no number is read.  Otherwise, with `v` the next number
/// of the generator, the position `cur + v % (last + 1 - cur)` is drawn; where its ticket
/// wins already nothing but the generator changes, and otherwise that ticket, and no
/// other, now wins, and the drawn position holds the ticket of `cur` while every other
/// position keeps its ticket.
pub proof fn lemma_try_select_draws(
    status: Map<usize, bool>,
    pos_map: Map<usize, usize>,
    seed: Seq<u8>,
    index: int,
    cur: usize,
    last: usize,
)
    requires
        1 <= cur <= last,
        last < usize::MAX,
    ensures
        ({
            let (st, pm, sd, ix, result) = spec_try_select(status, pos_map, seed, index, cur, last);
            let (seed2, index2, v) = spec_next_from(seed, index);
            let drawn = cur + v % (last + 1 - cur);
            let winner = spec_id_at(pos_map, drawn as usize);
            &&& is_winning_in(status, spec_id_at(pos_map, cur)) ==> result == AdditionalSelectionTryResult::CurrentAlreadyWinning
                && st == status && pm == pos_map && sd == seed && ix == index
            &&& !is_winning_in(status, spec_id_at(pos_map, cur)) ==> {
                &&& cur <= drawn <= last
                &&& sd == seed2 && ix == index2
                &&& is_winning_in(status, winner) ==> result == AdditionalSelectionTryResult::NewlySelectedAlreadyWinning
                    && st == status && pm == pos_map
                &&& !is_winning_in(status, winner) ==> {
                    &&& result == AdditionalSelectionTryResult::Selected
                    &&& is_winning_in(st, winner)
                    &&& forall|id: usize| id != winner ==> #[trigger] stored_or(st, id, false) == stored_or(status, id, false)
                    &&& spec_id_at(pm, drawn as usize) == spec_id_at(pos_map, cur)
                    &&& forall|q: usize| q != drawn ==> #[trigger] spec_id_at(pm, q) == spec_id_at(pos_map, q)
                }
            }
        }),
{
    let (seed2, index2, v) = spec_next_from(seed, index);
    assert(v >= 0);
    let drawn = cur + v % (last + 1 - cur);
    assert(spec_in_range(v, cur, (last + 1) as usize) == drawn);
    assert(spec_id_at(pos_map, cur) != 0);
}

/// Every left-over ticket is accounted for while some tickets are still to be won: a
/// step of the draw leaves `leftover + total_additional_winning_tickets` as it was, and a
/// ticket becomes winning exactly when it is counted as won: either one ticket that was
/// not winning wins and the count of won tickets grows by one, or no ticket changes and
/// the count stays.
pub proof fn lemma_leftover_accounted(
    status: Map<usize, bool>,
    pos_map: Map<usize, usize>,
    o: SelectionView,
    nr_original_winning_tickets: usize,
    last: usize,
)
    requires
        o.2 > 0,
        nr_original_winning_tickets + o.4 < last,
        nr_original_winning_tickets + o.3 + 1 <= usize::MAX,
        o.4 + 1 <= usize::MAX,
        last < usize::MAX,
    ensures
        spec_leftover_process(status, pos_map, o, nr_original_winning_tickets, last) matches Some((st, pm, o2, stopped)) && {
            &&& !stopped
            &&& o2.2 + o2.4 == o.2 + o.4
            &&& (o2.4 == o.4 + 1 && exists|id: usize| !is_winning_in(status, id) && st == #[trigger] status.insert(id, true))
                || (o2.4 == o.4 && st == status)
        },
{
    let (seed, index, leftover, offset, total) = o;
    let cur = (nr_original_winning_tickets + offset) as usize;
    let (st, pm, seed2, index2, result) = spec_try_select(status, pos_map, seed, index, cur, last);
    if result == AdditionalSelectionTryResult::Selected {
        let (s2, i2, value) = spec_next_from(seed, index);
        let rand_pos = spec_in_range(value, cur, (last + 1) as usize) as usize;
        let id = spec_id_at(pos_map, rand_pos);
        assert(!is_winning_in(status, id) && st == status.insert(id, true));
    }
}

/// The operation after a try of the draw: a ticket won leaves one less to draw and one
/// more won; every try moves to the next position.  `None` where a count leaves the
/// integers.
pub open spec fn spec_after_selection(o: SelectionView, result: AdditionalSelectionTryResult) -> Option<SelectionView> {
    let (seed, index, leftover, offset, total) = o;
    if offset + 1 > usize::MAX {
        None
    } else if result == AdditionalSelectionTryResult::Selected {
        if total + 1 > usize::MAX || leftover == 0 {
            None
        } else {
            Some((seed, index, (leftover - 1) as usize, (offset + 1) as usize, (total + 1) as usize))
        }
    } else {
        Some((seed, index, leftover, (offset + 1) as usize, total))
    }
}

/// One draw for the next position after the lottery's winning tickets, and the operation
/// after it.  `None` where a count leaves the integers.
pub open spec fn spec_single_leftover(
    status: Map<usize, bool>,
    pos_map: Map<usize, usize>,
    o: SelectionView,
    nr_original_winning_tickets: usize,
    last: usize,
) -> Option<(Map<usize, bool>, Map<usize, usize>, SelectionView)> {
    let (seed, index, leftover, offset, total) = o;
    if nr_original_winning_tickets + offset > usize::MAX {
        None
    } else {
        let cur = (nr_original_winning_tickets + offset) as usize;
        let (st, pm, seed2, index2, result) = spec_try_select(status, pos_map, seed, index, cur, last);
        match spec_after_selection((seed2, index2, leftover, offset, total), result) {
            Some(o2) => Some((st, pm, o2)),
            None => None,
        }
    }
}

/// The operation after the check whether every ticket was drawn: once the lottery's and
/// the added winning tickets reach the last position nothing is left to draw.  `None`
/// where the count leaves the integers.
pub open spec fn spec_distributed_check(o: SelectionView, nr_original_winning_tickets: usize, last: usize) -> Option<SelectionView> {
    let (seed, index, leftover, offset, total) = o;
    if nr_original_winning_tickets + total > usize::MAX {
        None
    } else if nr_original_winning_tickets + total >= last {
        Some((seed, index, 0usize, offset, total))
    } else {
        Some(o)
    }
}

/// The draw's statuses, positions and operation after one more step of the draw of
/// left-over tickets, and whether it stopped: it stops once no ticket is left to draw.
pub open spec fn spec_leftover_process(
    status: Map<usize, bool>,
    pos_map: Map<usize, usize>,
    o: SelectionView,
    nr_original_winning_tickets: usize,
    last: usize,
) -> Option<(Map<usize, bool>, Map<usize, usize>, SelectionView, bool)> {
    match spec_distributed_check(o, nr_original_winning_tickets, last) {
        None => None,
        Some(o1) => if o1.2 == 0 {
            Some((status, pos_map, o1, true))
        } else {
            match spec_single_leftover(status, pos_map, o1, nr_original_winning_tickets, last) {
                Some((st, pm, o2)) => Some((st, pm, o2, false)),
                None => None,
            }
        },
    }
}


/// The draw of left-over tickets after `n` steps, staying where it stopped.
pub open spec fn spec_leftover_iterate(
    status: Map<usize, bool>,
    pos_map: Map<usize, usize>,
    o: SelectionView,
    nr_original_winning_tickets: usize,
    last: usize,
    n: nat,
) -> Option<(Map<usize, bool>, Map<usize, usize>, SelectionView, bool)>
    decreases n,
{
    if n == 0 {
        Some((status, pos_map, o, false))
    } else {
        match spec_leftover_iterate(status, pos_map, o, nr_original_winning_tickets, last, (n - 1) as nat) {
            None => None,
            Some((st, pm, ov, stopped)) => if stopped {
                Some((st, pm, ov, true))
            } else {
                spec_leftover_process(st, pm, ov, nr_original_winning_tickets, last)
            },
        }
    }
}

/// Counting the winning tickets of a range reads only the range.
proof fn lemma_count_winning_frame(s1: Map<usize, bool>, s2: Map<usize, bool>, first: int, last: int)
    requires
        0 <= first,
        last <= usize::MAX,
        forall|id: usize| first <= id <= last ==> #[trigger] stored_or(s1, id, false) == stored_or(s2, id, false),
    ensures
        spec_count_winning(s1, first, last) == spec_count_winning(s2, first, last),
    decreases last - first + 1,
{
    if last >= first {
        lemma_count_winning_frame(s1, s2, first, last - 1);
        assert(stored_or(s1, last as usize, false) == stored_or(s2, last as usize, false));
    }
}

/// A losing ticket of a range that is made winning adds one to the range's count.
proof fn lemma_count_winning_insert(status: Map<usize, bool>, c: usize, first: int, last: int)
    requires
        0 <= first <= c <= last,
        last <= usize::MAX,
        !is_winning_in(status, c),
    ensures
        spec_count_winning(status.insert(c, true), first, last) == spec_count_winning(status, first, last) + 1,
    decreases last - first + 1,
{
    if last > c {
        lemma_count_winning_insert(status, c, first, last - 1);
        assert(stored_or(status.insert(c, true), last as usize, false) == stored_or(status, last as usize, false));
    } else {
        assert forall|id: usize| first <= id <= last - 1 implies #[trigger] stored_or(status.insert(c, true), id, false)
            == stored_or(status, id, false) by {
        }
        lemma_count_winning_frame(status.insert(c, true), status, first, last - 1);
    }
}

/// Making the first `remaining` losing tickets of `cur..=last` win changes no ticket
/// outside `cur..=last`, keeps every winning ticket winning, and adds to the winning
/// tickets of any range `first..=last` that holds `cur..=last` exactly the tickets it made
/// win, `remaining` less those it could not find.
proof fn lemma_mark_losing_counts(status: Map<usize, bool>, cur: int, last: int, remaining: int, first: int)
    requires
        remaining >= 0,
        0 <= first <= cur,
        last <= usize::MAX,
    ensures
        ({
            let (st, rem) = spec_mark_losing(status, cur, last, remaining);
            &&& forall|id: usize| (id < cur || id > last) ==> #[trigger] stored_or(st, id, false) == stored_or(status, id, false)
            &&& forall|id: usize| is_winning_in(status, id) ==> #[trigger] is_winning_in(st, id)
            &&& spec_count_winning(st, first, last) == spec_count_winning(status, first, last) + remaining - rem
        }),
    decreases last - cur + 1,
{
    if remaining > 0 && cur <= last {
        if is_winning_in(status, cur as usize) {
            lemma_mark_losing_counts(status, cur + 1, last, remaining, first);
        } else {
            let s1 = status.insert(cur as usize, true);
            lemma_mark_losing_counts(s1, cur + 1, last, remaining - 1, first);
            lemma_count_winning_insert(status, cur as usize, first, last);
        }
    }
}

/// Every guaranteed ticket of a user is accounted for.  For a user with a status whose
/// tiers, read against the confirmed tickets, give `g` tickets to win and `l` to leave
/// for the draw (together all the tickets the tiers guarantee), the step takes the user
/// off the list and adds `g + l` to the tickets won or left for the draw, less the
/// tickets the user already won in the lottery where those fall short of `g`.  In that
/// case the user's winning tickets grow by exactly the tickets counted as won and no
/// ticket outside the user's range changes; in any other case no ticket changes.
pub proof fn lemma_guarantee_accounted(
    ws: Seq<Address>,
    status: Map<usize, bool>,
    op: GuaranteedTicketsSelectionOperation,
    statuses: Map<Address, StatusView>,
    confirmed: Map<Address, usize>,
    ranges: Map<Address, TicketRange>,
)
    requires
        ws.len() > 0,
        ws.no_duplicates(),
        statuses.contains_key(ws[0]),
        spec_calculate(statuses[ws[0]].1, stored_or(confirmed, ws[0], 0)) is Some,
        op.total_additional_winning_tickets + spec_info_sum(statuses[ws[0]].1) <= usize::MAX,
        op.leftover_tickets + spec_info_sum(statuses[ws[0]].1) <= usize::MAX,
        ranges.contains_key(ws[0]) ==> 0 <= ranges[ws[0]].first_id,
    ensures
        spec_guaranteed_process(ws, status, op, statuses, confirmed, ranges) matches Some((ws2, st, op2, stopped)) && {
            let u = ws[0];
            let (g, l) = spec_calculate(statuses[u].1, stored_or(confirmed, u, 0)).unwrap();
            let range = ranges[u];
            let won = spec_count_winning(status, range.first_id as int, range.last_id as int);
            let topped_up = g > 0 && ranges.contains_key(u) && won < g;
            &&& !stopped
            &&& g + l == spec_info_sum(statuses[u].1)
            &&& op2.total_additional_winning_tickets + op2.leftover_tickets
                == op.total_additional_winning_tickets + op.leftover_tickets + g + l - (if topped_up { won } else { 0 })
            &&& topped_up ==> {
                &&& spec_count_winning(st, range.first_id as int, range.last_id as int)
                    == won + op2.total_additional_winning_tickets - op.total_additional_winning_tickets
                &&& forall|id: usize| (id < range.first_id || id > range.last_id) ==> #[trigger] stored_or(st, id, false)
                    == stored_or(status, id, false)
            }
            &&& !topped_up ==> st == status && op2.total_additional_winning_tickets == op.total_additional_winning_tickets
            &&& op2.rng == op.rng && op2.leftover_ticket_pos_offset == op.leftover_ticket_pos_offset
            &&& ws2.len() == ws.len() - 1
            &&& forall|x: Address| #[trigger] ws2.contains(x) <==> ws.contains(x) && x != u
        },
{
    let u = ws[0];
    assert(ws.contains(u));
    lemma_swap_remove(ws, u);
    let infos = statuses[u].1;
    let c = stored_or(confirmed, u, 0);
    lemma_met_unmet_partition(infos, c);
    let (g, l) = spec_calculate(infos, c).unwrap();
    if g > 0 && ranges.contains_key(u) {
        let range = ranges[u];
        let won = spec_count_winning(status, range.first_id as int, range.last_id as int);
        lemma_count_winning_bounds(status, range.first_id as int, range.last_id as int);
        if won < g {
            let ttw = (g - won) as usize;
            lemma_mark_losing_bounds(status, range.first_id as int, range.last_id as int, ttw as int);
            lemma_mark_losing_counts(status, range.first_id as int, range.last_id as int, ttw as int, range.first_id as int);
        }
    }
}

/// The statuses, the users with guaranteed tickets and the operation after one more step
/// of the giving of guaranteed tickets, and whether it stopped: the first user left is
/// taken off the list, wins the guaranteed tickets of the tiers met, up to the confirmed
/// tickets, and leaves the rest for the draw.
pub open spec fn spec_guaranteed_process(
    ws: Seq<Address>,
    status: Map<usize, bool>,
    op: GuaranteedTicketsSelectionOperation,
    statuses: Map<Address, StatusView>,
    confirmed: Map<Address, usize>,
    ranges: Map<Address, TicketRange>,
) -> Option<(Seq<Address>, Map<usize, bool>, GuaranteedTicketsSelectionOperation, bool)> {
    if ws.len() == 0 {
        Some((ws, status, op, true))
    } else {
        let u = ws[0];
        let ws2 = spec_swap_remove(ws, u);
        if !statuses.contains_key(u) {
            Some((ws2, status, op, false))
        } else {
            match spec_calculate(statuses[u].1, stored_or(confirmed, u, 0)) {
                None => None,
                Some((g, l)) => match spec_add_leftover(op, l as int) {
                    None => None,
                    Some(op2) => if g > 0 {
                        match spec_process_guaranteed(status, ranges, op2, u, g) {
                            None => None,
                            Some((st, op3)) => Some((ws2, st, op3, false)),
                        }
                    } else {
                        Some((ws2, status, op2, false))
                    },
                },
            }
        }
    }
}

/// The giving of guaranteed tickets after `n` steps, staying where it stopped.
pub open spec fn spec_guaranteed_iterate(
    ws: Seq<Address>,
    status: Map<usize, bool>,
    op: GuaranteedTicketsSelectionOperation,
    statuses: Map<Address, StatusView>,
    confirmed: Map<Address, usize>,
    ranges: Map<Address, TicketRange>,
    n: nat,
) -> Option<(Seq<Address>, Map<usize, bool>, GuaranteedTicketsSelectionOperation, bool)>
    decreases n,
{
    if n == 0 {
        Some((ws, status, op, false))
    } else {
        match spec_guaranteed_iterate(ws, status, op, statuses, confirmed, ranges, (n - 1) as nat) {
            None => None,
            Some((w, st, o, stopped)) => if stopped {
                Some((w, st, o, true))
            } else {
                spec_guaranteed_process(w, st, o, statuses, confirmed, ranges)
            },
        }
    }
}

/// A run of the giving of guaranteed tickets from one state to another: `n` steps were
/// taken, the gas allowed each step but the first, and the run stopped either because
/// no user was left (`completed`) or because the gas would not allow another step.
pub open spec fn spec_guaranteed_ran(
    ws0: Seq<Address>,
    st0: Map<usize, bool>,
    op0: GuaranteedTicketsSelectionOperation,
    statuses: Map<Address, StatusView>,
    confirmed: Map<Address, usize>,
    ranges: Map<Address, TicketRange>,
    gas0: u64,
    cost: u64,
    ws: Seq<Address>,
    st: Map<usize, bool>,
    op: GuaranteedTicketsSelectionOperation,
    gas: u64,
    completed: bool,
) -> bool {
    exists|n: nat| #![trigger spec_guaranteed_iterate(ws0, st0, op0, statuses, confirmed, ranges, n)]
        n >= 1 && spec_guaranteed_iterate(ws0, st0, op0, statuses, confirmed, ranges, n) == Some((ws, st, op, completed))
        && gas == spec_gas_iter(gas0, cost, if completed { (n - 1) as nat } else { n })
        && (forall|i: nat| 1 <= i < n ==> {
            &&& #[trigger] spec_guaranteed_iterate(ws0, st0, op0, statuses, confirmed, ranges, i) matches Some(t) && !t.3
            &&& spec_can_continue(spec_gas_iter(gas0, cost, i), cost)
        })
        && (!completed ==> !spec_can_continue(spec_gas_iter(gas0, cost, n), cost))
}

/// A run of the draw of left-over tickets from one state to another, in the same sense.
pub open spec fn spec_leftover_ran(
    st0: Map<usize, bool>,
    pm0: Map<usize, usize>,
    o0: SelectionView,
    nr_original_winning_tickets: usize,
    last: usize,
    gas0: u64,
    cost: u64,
    st: Map<usize, bool>,
    pm: Map<usize, usize>,
    o: SelectionView,
    gas: u64,
    completed: bool,
) -> bool {
    exists|n: nat| #![trigger spec_leftover_iterate(st0, pm0, o0, nr_original_winning_tickets, last, n)]
        n >= 1 && spec_leftover_iterate(st0, pm0, o0, nr_original_winning_tickets, last, n) == Some((st, pm, o, completed))
        && gas == spec_gas_iter(gas0, cost, if completed { (n - 1) as nat } else { n })
        && (forall|i: nat| 1 <= i < n ==> {
            &&& #[trigger] spec_leftover_iterate(st0, pm0, o0, nr_original_winning_tickets, last, i) matches Some(t) && !t.3
            &&& spec_can_continue(spec_gas_iter(gas0, cost, i), cost)
        })
        && (!completed ==> !spec_can_continue(spec_gas_iter(gas0, cost, n), cost))
}

/// A run of the giving of guaranteed tickets that stops on an overflow: the steps before
/// step `n` went through, did not finish the giving and each left gas for another step,
/// and step `n` overflows.
pub open spec fn spec_guaranteed_failed(
    ws0: Seq<Address>,
    st0: Map<usize, bool>,
    op0: GuaranteedTicketsSelectionOperation,
    statuses: Map<Address, StatusView>,
    confirmed: Map<Address, usize>,
    ranges: Map<Address, TicketRange>,
    gas0: u64,
    cost: u64,
) -> bool {
    exists|n: nat| #![trigger spec_guaranteed_iterate(ws0, st0, op0, statuses, confirmed, ranges, n)]
        n >= 1 && spec_guaranteed_iterate(ws0, st0, op0, statuses, confirmed, ranges, n) is None
        && forall|i: nat| 1 <= i < n ==> {
            &&& #[trigger] spec_guaranteed_iterate(ws0, st0, op0, statuses, confirmed, ranges, i) matches Some(t) && !t.3
            &&& spec_can_continue(spec_gas_iter(gas0, cost, i), cost)
        }
}

/// A run of the draw of left-over tickets that stops on an overflow, in the same sense.
pub open spec fn spec_leftover_failed(
    st0: Map<usize, bool>,
    pm0: Map<usize, usize>,
    o0: SelectionView,
    nr_original_winning_tickets: usize,
    last: usize,
    gas0: u64,
    cost: u64,
) -> bool {
    exists|n: nat| #![trigger spec_leftover_iterate(st0, pm0, o0, nr_original_winning_tickets, last, n)]
        n >= 1 && spec_leftover_iterate(st0, pm0, o0, nr_original_winning_tickets, last, n) is None
        && forall|i: nat| 1 <= i < n ==> {
            &&& #[trigger] spec_leftover_iterate(st0, pm0, o0, nr_original_winning_tickets, last, i) matches Some(t) && !t.3
            &&& spec_can_continue(spec_gas_iter(gas0, cost, i), cost)
        }
}

impl LaunchpadState {
    /// One try of the draw for a position: if the ticket there wins already nothing
    /// happens; otherwise a position from it to the last is drawn, and if its ticket loses
    /// it now wins and the drawn position is given the current ticket.
    pub fn try_select_winning_ticket(&mut self, rng: &mut Random, current_ticket_position: usize, last_ticket_position: usize) -> (r: AdditionalSelectionTryResult)
        requires
            last_ticket_position < usize::MAX,
        ensures
            ({
                let (st, pm, seed, index, result) = spec_try_select(
                    old(self).ticket_status@,
                    old(self).ticket_pos_to_id@,
                    old(rng).seed@,
                    old(rng).index as int,
                    current_ticket_position,
                    last_ticket_position,
                );
                &&& final(self).ticket_status@ == st
                &&& final(self).ticket_pos_to_id@ == pm
                &&& final(rng).seed@ == seed
                &&& final(rng).index == index
                &&& r == result
            }),
            *final(self) == (LaunchpadState {
                ticket_status: final(self).ticket_status,
                ticket_pos_to_id: final(self).ticket_pos_to_id,
                ..*old(self)
            }),
    {
        let current_ticket_id = self.get_ticket_id_from_pos(current_ticket_position);
        if get_by_index(&self.ticket_status, current_ticket_id, false) == WINNING_TICKET {
            return AdditionalSelectionTryResult::CurrentAlreadyWinning;
        }
        let rand_pos = rng.next_usize_in_range(current_ticket_position, last_ticket_position + 1);
        let winning_ticket_id = self.get_ticket_id_from_pos(rand_pos);
        if get_by_index(&self.ticket_status, winning_ticket_id, false) == WINNING_TICKET {
            return AdditionalSelectionTryResult::NewlySelectedAlreadyWinning;
        }
        self.ticket_pos_to_id.insert(rand_pos, current_ticket_id);
        self.ticket_status.insert(winning_ticket_id, WINNING_TICKET);
        AdditionalSelectionTryResult::Selected
    }
}

/// Giving the guaranteed tickets, and drawing the tickets left over.
pub trait GuaranteedTicketWinnersModule: GuaranteedTicketsInitModule {
    fn calculate_guaranteed_tickets(&self, user_ticket_status: &UserTicketsStatus, user_confirmed_tickets: usize) -> Result<CalculateGuaranteedTicketsResult, LaunchpadError>;

    fn winning_tickets_in_range(&self, ticket_range: &TicketRange) -> usize
        requires
            ticket_range.last_id < usize::MAX,
    ;

    fn is_already_winning_ticket(&self, ticket_id: usize) -> bool;

    fn select_additional_winning_tickets(&mut self, ticket_range: TicketRange, tickets_to_win: usize, op: &mut GuaranteedTicketsSelectionOperation) -> Result<(), LaunchpadError>
        requires
            ticket_range.last_id < usize::MAX,
    ;

    fn process_guaranteed_tickets(&mut self, user: Address, guaranteed_tickets: usize, op: &mut GuaranteedTicketsSelectionOperation) -> Result<(), LaunchpadError>
        requires
            old(self).guaranteed_wf(),
    ;

    fn try_select_winning_ticket(&mut self, rng: &mut Random, current_ticket_position: usize, last_ticket_position: usize) -> AdditionalSelectionTryResult
        requires
            last_ticket_position < usize::MAX,
    ;

    fn select_winning_ticket(&mut self, op: &mut GuaranteedTicketsSelectionOperation, current_ticket_pos: usize, last_ticket_pos: usize) -> AdditionalSelectionTryResult
        requires
            last_ticket_pos < usize::MAX,
    ;

    fn process_selection_result(&self, op: &mut GuaranteedTicketsSelectionOperation, selection_result: AdditionalSelectionTryResult) -> Result<bool, LaunchpadError>;

    fn are_all_tickets_distributed(&self, nr_original_winning_tickets: usize, op: &mut GuaranteedTicketsSelectionOperation, last_ticket_pos: usize) -> Result<bool, LaunchpadError>;

    fn distribute_single_leftover_ticket(&mut self, op: &mut GuaranteedTicketsSelectionOperation, nr_original_winning_tickets: usize, last_ticket_pos: usize) -> Result<bool, LaunchpadError>
        requires
            last_ticket_pos < usize::MAX,
    ;

    fn distribute_leftover_tickets(&mut self, op: &mut GuaranteedTicketsSelectionOperation, gas: &mut GasBudget) -> Result<OperationCompletionStatus, LaunchpadError>
        requires
            old(self).guaranteed_wf(),
            old(gas).gas_per_iteration > 0,
    ;

    fn select_guaranteed_tickets(&mut self, op: &mut GuaranteedTicketsSelectionOperation, gas: &mut GasBudget) -> Result<OperationCompletionStatus, LaunchpadError>
        requires
            old(self).guaranteed_wf(),
            old(gas).gas_per_iteration > 0,
    ;
}

impl GuaranteedTicketWinnersModule for GuaranteedTicketsLaunchpad {
    /// Splits a user's guaranteed tickets: the tiers whose threshold the user's confirmed
    /// tickets meet are won, at most as many as the confirmed tickets; the rest is left
    /// for the draw.
    fn calculate_guaranteed_tickets(&self, user_ticket_status: &UserTicketsStatus, user_confirmed_tickets: usize) -> (r: Result<CalculateGuaranteedTicketsResult, LaunchpadError>)
        ensures
            r is Err <==> spec_calculate(user_ticket_status.guaranteed_tickets_info@, user_confirmed_tickets) is None,
            r is Err ==> r == Err::<CalculateGuaranteedTicketsResult, _>(LaunchpadError::ArithmeticError),
            r matches Ok(res) ==> spec_calculate(user_ticket_status.guaranteed_tickets_info@, user_confirmed_tickets)
                == Some((res.guaranteed_tickets, res.leftover_tickets)),
            r matches Ok(res) ==> res.guaranteed_tickets <= user_confirmed_tickets
                && res.guaranteed_tickets + res.leftover_tickets == spec_info_sum(user_ticket_status.guaranteed_tickets_info@),
    {
        let infos = &user_ticket_status.guaranteed_tickets_info;
        let ghost s = infos@;
        let mut guaranteed_tickets: usize = 0;
        let mut leftover_tickets: usize = 0;
        let mut j: usize = 0;
        while j < infos.len()
            invariant
                s == infos@,
                s == user_ticket_status.guaranteed_tickets_info@,
                j <= s.len(),
                guaranteed_tickets == spec_met_sum(s.take(j as int), user_confirmed_tickets),
                leftover_tickets == spec_unmet_sum(s.take(j as int), user_confirmed_tickets),
            decreases infos.len() - j,
        {
            proof {
                assert(s.take(j as int + 1).drop_last() =~= s.take(j as int));
                lemma_met_unmet_prefix(s, user_confirmed_tickets, j as int + 1);
                lemma_met_unmet_partition(s, user_confirmed_tickets);
            }
            let info = infos[j];
            assert(s.take(j as int + 1).last() == info);
            assert(spec_met_sum(s.take(j as int + 1), user_confirmed_tickets) == spec_met_sum(s.take(j as int), user_confirmed_tickets)
                + if user_confirmed_tickets >= info.min_confirmed_tickets { info.guaranteed_tickets as int } else { 0 });
            assert(spec_unmet_sum(s.take(j as int + 1), user_confirmed_tickets) == spec_unmet_sum(s.take(j as int), user_confirmed_tickets)
                + if user_confirmed_tickets >= info.min_confirmed_tickets { 0 } else { info.guaranteed_tickets as int });
            if user_confirmed_tickets >= info.min_confirmed_tickets {
                if info.guaranteed_tickets > usize::MAX - guaranteed_tickets {
                    return Err(LaunchpadError::ArithmeticError);
                }
                guaranteed_tickets = guaranteed_tickets + info.guaranteed_tickets;
            } else {
                if info.guaranteed_tickets > usize::MAX - leftover_tickets {
                    return Err(LaunchpadError::ArithmeticError);
                }
                leftover_tickets = leftover_tickets + info.guaranteed_tickets;
            }
            j = j + 1;
        }
        proof {
            assert(s.take(j as int) =~= s);
            lemma_met_unmet_partition(s, user_confirmed_tickets);
        }
        if guaranteed_tickets > user_confirmed_tickets {
            let excess_tickets = guaranteed_tickets - user_confirmed_tickets;
            if excess_tickets > usize::MAX - leftover_tickets {
                return Err(LaunchpadError::ArithmeticError);
            }
            leftover_tickets = leftover_tickets + excess_tickets;
            guaranteed_tickets = user_confirmed_tickets;
        }
        Ok(CalculateGuaranteedTicketsResult::new(guaranteed_tickets, leftover_tickets))
    }

    /// Counts the winning tickets of a range.
    fn winning_tickets_in_range(&self, ticket_range: &TicketRange) -> (r: usize)
        ensures
            r == spec_count_winning(self.base.ticket_status@, ticket_range.first_id as int, ticket_range.last_id as int),
    {
        let ghost status = self.base.ticket_status@;
        let first = ticket_range.first_id;
        let last = ticket_range.last_id;
        if first > last {
            return 0;
        }
        let mut winning_tickets_no: usize = 0;
        let mut ticket_id = first;
        while ticket_id <= last
            invariant
                status == self.base.ticket_status@,
                first <= ticket_id <= last + 1,
                last < usize::MAX,
                winning_tickets_no == spec_count_winning(status, first as int, ticket_id - 1),
                winning_tickets_no <= ticket_id - first,
            decreases last + 1 - ticket_id,
        {
            if get_by_index(&self.base.ticket_status, ticket_id, false) == WINNING_TICKET {
                winning_tickets_no = winning_tickets_no + 1;
            }
            ticket_id = ticket_id + 1;
        }
        winning_tickets_no
    }

    fn is_already_winning_ticket(&self, ticket_id: usize) -> (r: bool)
        ensures
            r == is_winning_in(self.base.ticket_status@, ticket_id),
    {
        get_by_index(&self.base.ticket_status, ticket_id, false) == WINNING_TICKET
    }

    /// Makes `tickets_to_win` more of a user's own tickets win, taking the losing ones in
    /// order; those that cannot be found are left for the draw.  Refused, changing
    /// nothing, where a count would leave the integers.
    fn select_additional_winning_tickets(&mut self, ticket_range: TicketRange, tickets_to_win: usize, op: &mut GuaranteedTicketsSelectionOperation) -> (r: Result<(), LaunchpadError>)
        ensures
            r is Err <==> spec_select_additional(old(self).base.ticket_status@, *old(op), ticket_range, tickets_to_win) is None,
            r is Err ==> r == Err::<(), _>(LaunchpadError::ArithmeticError) && *final(self) == *old(self) && *final(op) == *old(op),
            r is Ok ==> spec_select_additional(old(self).base.ticket_status@, *old(op), ticket_range, tickets_to_win)
                == Some((final(self).base.ticket_status@, *final(op))),
            r is Ok ==> *final(self) == (GuaranteedTicketsLaunchpad {
                base: LaunchpadState { ticket_status: final(self).base.ticket_status, ..old(self).base },
                ..*old(self)
            }),
    {
        let ghost status0 = self.base.ticket_status@;
        let mut status = self.base.ticket_status.clone();
        let mut remaining_tickets = tickets_to_win;
        let mut current_ticket = ticket_range.first_id;
        let last = ticket_range.last_id;
        while remaining_tickets > 0 && current_ticket <= last
            invariant
                last < usize::MAX,
                spec_mark_losing(status0, ticket_range.first_id as int, last as int, tickets_to_win as int)
                    == spec_mark_losing(status@, current_ticket as int, last as int, remaining_tickets as int),
            decreases last + 1 - current_ticket,
        {
            if !get_by_index(&status, current_ticket, false) {
                status.insert(current_ticket, WINNING_TICKET);
                remaining_tickets = remaining_tickets - 1;
            }
            current_ticket = current_ticket + 1;
        }
        proof {
            lemma_mark_losing_bounds(status0, ticket_range.first_id as int, last as int, tickets_to_win as int);
        }
        let won = tickets_to_win - remaining_tickets;
        if won > usize::MAX - op.total_additional_winning_tickets || remaining_tickets > usize::MAX - op.leftover_tickets {
            return Err(LaunchpadError::ArithmeticError);
        }
        op.total_additional_winning_tickets = op.total_additional_winning_tickets + won;
        op.leftover_tickets = op.leftover_tickets + remaining_tickets;
        self.base.ticket_status = status;
        Ok(())
    }

    /// Gives a user `guaranteed_tickets` winning tickets: taken from the user's own losing
    /// tickets where the lottery gave fewer, and otherwise left for the draw.  Refused,
    /// changing nothing, where a count would leave the integers.
    fn process_guaranteed_tickets(&mut self, user: Address, guaranteed_tickets: usize, op: &mut GuaranteedTicketsSelectionOperation) -> (r: Result<(), LaunchpadError>)
        ensures
            r is Err <==> spec_process_guaranteed(old(self).base.ticket_status@, old(self).base.ticket_range_for_address@, *old(op), user, guaranteed_tickets) is None,
            r is Err ==> r == Err::<(), _>(LaunchpadError::ArithmeticError) && *final(self) == *old(self) && *final(op) == *old(op),
            r is Ok ==> spec_process_guaranteed(old(self).base.ticket_status@, old(self).base.ticket_range_for_address@, *old(op), user, guaranteed_tickets)
                == Some((final(self).base.ticket_status@, *final(op))),
            r is Ok ==> *final(self) == (GuaranteedTicketsLaunchpad {
                base: LaunchpadState { ticket_status: final(self).base.ticket_status, ..old(self).base },
                ..*old(self)
            }),
    {
        match self.base.ticket_range_for_address.get(&user) {
            None => {
                if guaranteed_tickets > usize::MAX - op.leftover_tickets {
                    return Err(LaunchpadError::ArithmeticError);
                }
                op.leftover_tickets = op.leftover_tickets + guaranteed_tickets;
                Ok(())
            },
            Some(range) => {
                let ticket_range = *range;
                assert(range_wf(self.base.ticket_range_for_address@[user]));
                let user_winning_tickets = self.winning_tickets_in_range(&ticket_range);
                if guaranteed_tickets > user_winning_tickets {
                    let tickets_to_win = guaranteed_tickets - user_winning_tickets;
                    self.select_additional_winning_tickets(ticket_range, tickets_to_win, op)
                } else {
                    if guaranteed_tickets > usize::MAX - op.leftover_tickets {
                        return Err(LaunchpadError::ArithmeticError);
                    }
                    op.leftover_tickets = op.leftover_tickets + guaranteed_tickets;
                    Ok(())
                }
            },
        }
    }

    /// One try of the draw for a position: if the ticket there wins already nothing
    /// happens; otherwise a position from it to the last is drawn, and if its ticket loses
    /// it now wins and the drawn position is given the current ticket.
    fn try_select_winning_ticket(&mut self, rng: &mut Random, current_ticket_position: usize, last_ticket_position: usize) -> (r: AdditionalSelectionTryResult)
        ensures
            ({
                let (st, pm, seed, index, result) = spec_try_select(
                    old(self).base.ticket_status@,
                    old(self).base.ticket_pos_to_id@,
                    old(rng).seed@,
                    old(rng).index as int,
                    current_ticket_position,
                    last_ticket_position,
                );
                &&& final(self).base.ticket_status@ == st
                &&& final(self).base.ticket_pos_to_id@ == pm
                &&& final(rng).seed@ == seed
                &&& final(rng).index == index
                &&& r == result
            }),
            *final(self) == (GuaranteedTicketsLaunchpad {
                base: LaunchpadState {
                    ticket_status: final(self).base.ticket_status,
                    ticket_pos_to_id: final(self).base.ticket_pos_to_id,
                    ..old(self).base
                },
                ..*old(self)
            }),
    {
        self.base.try_select_winning_ticket(rng, current_ticket_position, last_ticket_position)
    }

    /// One try of the draw with the operation's generator.
    fn select_winning_ticket(&mut self, op: &mut GuaranteedTicketsSelectionOperation, current_ticket_pos: usize, last_ticket_pos: usize) -> (r: AdditionalSelectionTryResult)
        ensures
            ({
                let (st, pm, seed, index, result) = spec_try_select(
                    old(self).base.ticket_status@,
                    old(self).base.ticket_pos_to_id@,
                    old(op).rng.seed@,
                    old(op).rng.index as int,
                    current_ticket_pos,
                    last_ticket_pos,
                );
                &&& final(self).base.ticket_status@ == st
                &&& final(self).base.ticket_pos_to_id@ == pm
                &&& op_view(*final(op)) == (seed, index, old(op).leftover_tickets, old(op).leftover_ticket_pos_offset, old(op).total_additional_winning_tickets)
                &&& r == result
            }),
            *final(self) == (GuaranteedTicketsLaunchpad {
                base: LaunchpadState {
                    ticket_status: final(self).base.ticket_status,
                    ticket_pos_to_id: final(self).base.ticket_pos_to_id,
                    ..old(self).base
                },
                ..*old(self)
            }),
    {
        self.try_select_winning_ticket(&mut op.rng, current_ticket_pos, last_ticket_pos)
    }

    /// Counts a try of the draw: a ticket won leaves one less to draw and one more won;
    /// every try moves to the next position.  Refused, changing nothing, where a count
    /// would leave the integers.
    fn process_selection_result(&self, op: &mut GuaranteedTicketsSelectionOperation, selection_result: AdditionalSelectionTryResult) -> (r: Result<bool, LaunchpadError>)
        ensures
            r is Err <==> spec_after_selection(op_view(*old(op)), selection_result) is None,
            r is Err ==> r == Err::<bool, _>(LaunchpadError::ArithmeticError) && *final(op) == *old(op),
            r is Ok ==> r == Ok::<bool, LaunchpadError>(true)
                && spec_after_selection(op_view(*old(op)), selection_result) == Some(op_view(*final(op)))
                && final(op).rng == old(op).rng,
    {
        if op.leftover_ticket_pos_offset == usize::MAX {
            return Err(LaunchpadError::ArithmeticError);
        }
        match selection_result {
            AdditionalSelectionTryResult::Selected => {
                if op.total_additional_winning_tickets == usize::MAX || op.leftover_tickets == 0 {
                    return Err(LaunchpadError::ArithmeticError);
                }
                op.leftover_tickets = op.leftover_tickets - 1;
                op.total_additional_winning_tickets = op.total_additional_winning_tickets + 1;
                op.leftover_ticket_pos_offset = op.leftover_ticket_pos_offset + 1;
            },
            AdditionalSelectionTryResult::CurrentAlreadyWinning | AdditionalSelectionTryResult::NewlySelectedAlreadyWinning => {
                op.leftover_ticket_pos_offset = op.leftover_ticket_pos_offset + 1;
            },
        }
        Ok(true)
    }

    /// Whether every left-over ticket was drawn: nothing is left once the lottery's and
    /// the added winning tickets reach the last position.
    fn are_all_tickets_distributed(&self, nr_original_winning_tickets: usize, op: &mut GuaranteedTicketsSelectionOperation, last_ticket_pos: usize) -> (r: Result<bool, LaunchpadError>)
        ensures
            r is Err <==> spec_distributed_check(op_view(*old(op)), nr_original_winning_tickets, last_ticket_pos) is None,
            r is Err ==> r == Err::<bool, _>(LaunchpadError::ArithmeticError) && *final(op) == *old(op),
            r matches Ok(b) ==> spec_distributed_check(op_view(*old(op)), nr_original_winning_tickets, last_ticket_pos)
                == Some(op_view(*final(op))) && final(op).rng == old(op).rng && b == (final(op).leftover_tickets == 0),
    {
        if op.total_additional_winning_tickets > usize::MAX - nr_original_winning_tickets {
            return Err(LaunchpadError::ArithmeticError);
        }
        if nr_original_winning_tickets + op.total_additional_winning_tickets >= last_ticket_pos {
            op.leftover_tickets = 0;
        }
        Ok(op.leftover_tickets == 0)
    }

    /// Draws for the next position after the lottery's winning tickets.  Refused,
    /// changing nothing, where a count would leave the integers.
    fn distribute_single_leftover_ticket(&mut self, op: &mut GuaranteedTicketsSelectionOperation, nr_original_winning_tickets: usize, last_ticket_pos: usize) -> (r: Result<bool, LaunchpadError>)
        ensures
            r is Err <==> spec_single_leftover(
                old(self).base.ticket_status@,
                old(self).base.ticket_pos_to_id@,
                op_view(*old(op)),
                nr_original_winning_tickets,
                last_ticket_pos,
            ) is None,
            r is Err ==> r == Err::<bool, _>(LaunchpadError::ArithmeticError) && *final(op) == *old(op)
                && final(self).base.ticket_status@ == old(self).base.ticket_status@
                && final(self).base.ticket_pos_to_id@ == old(self).base.ticket_pos_to_id@,
            r is Ok ==> r == Ok::<bool, LaunchpadError>(true) && spec_single_leftover(
                old(self).base.ticket_status@,
                old(self).base.ticket_pos_to_id@,
                op_view(*old(op)),
                nr_original_winning_tickets,
                last_ticket_pos,
            ) == Some((final(self).base.ticket_status@, final(self).base.ticket_pos_to_id@, op_view(*final(op)))),
            *final(self) == (GuaranteedTicketsLaunchpad {
                base: LaunchpadState {
                    ticket_status: final(self).base.ticket_status,
                    ticket_pos_to_id: final(self).base.ticket_pos_to_id,
                    ..old(self).base
                },
                ..*old(self)
            }),
    {
        if op.leftover_ticket_pos_offset > usize::MAX - nr_original_winning_tickets {
            return Err(LaunchpadError::ArithmeticError);
        }
        let current_ticket_pos = nr_original_winning_tickets + op.leftover_ticket_pos_offset;
        let saved_status = self.base.ticket_status.clone();
        let saved_pos_to_id = self.base.ticket_pos_to_id.clone();
        let saved_op = *op;
        let selection_result = self.select_winning_ticket(op, current_ticket_pos, last_ticket_pos);
        match self.process_selection_result(op, selection_result) {
            Ok(b) => Ok(b),
            Err(e) => {
                self.base.ticket_status = saved_status;
                self.base.ticket_pos_to_id = saved_pos_to_id;
                *op = saved_op;
                Err(e)
            },
        }
    }

    /// Draws the left-over tickets while the gas lasts, one position at a time after the
    /// lottery's winning tickets, until none is left.  Refused, changing nothing, where a
    /// count would leave the integers.
    fn distribute_leftover_tickets(&mut self, op: &mut GuaranteedTicketsSelectionOperation, gas: &mut GasBudget) -> (r: Result<OperationCompletionStatus, LaunchpadError>)
        ensures
            r is Err ==> *final(op) == *old(op) && final(self).base.ticket_status@ == old(self).base.ticket_status@
                && final(self).base.ticket_pos_to_id@ == old(self).base.ticket_pos_to_id@,
            r matches Err(e) ==> e == LaunchpadError::ArithmeticError,
            r is Err ==> spec_leftover_failed(
                old(self).base.ticket_status@,
                old(self).base.ticket_pos_to_id@,
                op_view(*old(op)),
                old(self).base.nr_winning_tickets,
                old(self).base.last_ticket_id,
                old(gas).gas_left,
                old(gas).gas_per_iteration,
            ),
            r matches Ok(status) ==> spec_leftover_ran(
                old(self).base.ticket_status@,
                old(self).base.ticket_pos_to_id@,
                op_view(*old(op)),
                old(self).base.nr_winning_tickets,
                old(self).base.last_ticket_id,
                old(gas).gas_left,
                old(gas).gas_per_iteration,
                final(self).base.ticket_status@,
                final(self).base.ticket_pos_to_id@,
                op_view(*final(op)),
                final(gas).gas_left,
                status == OperationCompletionStatus::Completed,
            ),
            *final(self) == (GuaranteedTicketsLaunchpad {
                base: LaunchpadState {
                    ticket_status: final(self).base.ticket_status,
                    ticket_pos_to_id: final(self).base.ticket_pos_to_id,
                    ..old(self).base
                },
                ..*old(self)
            }),
            final(gas).gas_per_iteration == old(gas).gas_per_iteration,
    {
        let budget = *gas;
        let nr_original_winning_tickets = self.base.nr_winning_tickets;
        let last_ticket_pos = self.base.get_total_tickets();
        let ghost st0 = self.base.ticket_status@;
        let ghost pm0 = self.base.ticket_pos_to_id@;
        let ghost o0 = op_view(*op);
        let ghost old_self = *self;
        let ghost old_op = *op;
        let saved_status = self.base.ticket_status.clone();
        let saved_pos_to_id = self.base.ticket_pos_to_id.clone();
        let saved_op = *op;
        let mut gas_left = budget.gas_left;
        let ghost mut n: nat = 0;
        let mut status = OperationCompletionStatus::InterruptedBeforeOutOfGas;
        loop
            invariant_except_break
                budget.gas_per_iteration > 0,
                budget == *old(gas),
                *gas == *old(gas),
                last_ticket_pos < usize::MAX,
                old_self.guaranteed_wf(),
                st0 == old_self.base.ticket_status@,
                pm0 == old_self.base.ticket_pos_to_id@,
                o0 == op_view(old_op),
                saved_status@ == st0,
                saved_pos_to_id@ == pm0,
                saved_op == old_op,
                old_op == *old(op),
                old_self == *old(self),
                nr_original_winning_tickets == old_self.base.nr_winning_tickets,
                last_ticket_pos == old_self.base.last_ticket_id,
                spec_leftover_iterate(st0, pm0, o0, nr_original_winning_tickets, last_ticket_pos, n)
                    == Some((self.base.ticket_status@, self.base.ticket_pos_to_id@, op_view(*op), false)),
                forall|i: nat| 1 <= i <= n ==> {
                    &&& #[trigger] spec_leftover_iterate(st0, pm0, o0, nr_original_winning_tickets, last_ticket_pos, i) matches Some(t) && !t.3
                    &&& spec_can_continue(spec_gas_iter(budget.gas_left, budget.gas_per_iteration, i), budget.gas_per_iteration)
                },
                gas_left == spec_gas_iter(budget.gas_left, budget.gas_per_iteration, n),
                status == OperationCompletionStatus::InterruptedBeforeOutOfGas,
                *self == (GuaranteedTicketsLaunchpad {
                    base: LaunchpadState {
                        ticket_status: self.base.ticket_status,
                        ticket_pos_to_id: self.base.ticket_pos_to_id,
                        ..old_self.base
                    },
                    ..old_self
                }),
            ensures
                n >= 1,
                budget == *old(gas),
                gas_left == spec_gas_iter(budget.gas_left, budget.gas_per_iteration,
                    if status == OperationCompletionStatus::Completed { (n - 1) as nat } else { n }),
                spec_leftover_iterate(st0, pm0, o0, nr_original_winning_tickets, last_ticket_pos, n)
                    == Some((self.base.ticket_status@, self.base.ticket_pos_to_id@, op_view(*op), status == OperationCompletionStatus::Completed)),
                forall|i: nat| 1 <= i < n ==> {
                    &&& #[trigger] spec_leftover_iterate(st0, pm0, o0, nr_original_winning_tickets, last_ticket_pos, i) matches Some(t) && !t.3
                    &&& spec_can_continue(spec_gas_iter(budget.gas_left, budget.gas_per_iteration, i), budget.gas_per_iteration)
                },
                status == OperationCompletionStatus::InterruptedBeforeOutOfGas
                    ==> !spec_can_continue(spec_gas_iter(budget.gas_left, budget.gas_per_iteration, n), budget.gas_per_iteration),
                *self == (GuaranteedTicketsLaunchpad {
                    base: LaunchpadState {
                        ticket_status: self.base.ticket_status,
                        ticket_pos_to_id: self.base.ticket_pos_to_id,
                        ..old_self.base
                    },
                    ..old_self
                }),
            decreases gas_left,
        {
            let ghost before = (self.base.ticket_status@, self.base.ticket_pos_to_id@, op_view(*op));
            proof {
                n = n + 1;
            }
            match self.are_all_tickets_distributed(nr_original_winning_tickets, op, last_ticket_pos) {
                Err(e) => {
                    assert(spec_leftover_iterate(st0, pm0, o0, nr_original_winning_tickets, last_ticket_pos, n) is None);
                    self.base.ticket_status = saved_status;
                    self.base.ticket_pos_to_id = saved_pos_to_id;
                    *op = saved_op;
                    return Err(e);
                },
                Ok(true) => {
                    status = OperationCompletionStatus::Completed;
                    break;
                },
                Ok(false) => {},
            }
            match self.distribute_single_leftover_ticket(op, nr_original_winning_tickets, last_ticket_pos) {
                Err(e) => {
                    assert(spec_leftover_iterate(st0, pm0, o0, nr_original_winning_tickets, last_ticket_pos, n) is None);
                    self.base.ticket_status = saved_status;
                    self.base.ticket_pos_to_id = saved_pos_to_id;
                    *op = saved_op;
                    return Err(e);
                },
                Ok(_) => {},
            }
            let ghost g0 = gas_left;
            gas_left = gas_after(gas_left, budget.gas_per_iteration);
            if !self.base.can_continue_operation(gas_left, budget.gas_per_iteration) {
                break;
            }
            assert(gas_left < g0);
        }
        gas.gas_left = gas_left;
        Ok(status)
    }

    /// Gives the guaranteed tickets while the gas lasts, one user at a time, until no user
    /// with guaranteed tickets is left.  Refused, changing nothing, where a count would
    /// leave the integers.
    fn select_guaranteed_tickets(&mut self, op: &mut GuaranteedTicketsSelectionOperation, gas: &mut GasBudget) -> (r: Result<OperationCompletionStatus, LaunchpadError>)
        ensures
            r is Err ==> *final(op) == *old(op) && final(self).base.ticket_status@ == old(self).base.ticket_status@
                && final(self).users_with_guaranteed_ticket@ == old(self).users_with_guaranteed_ticket@,
            r matches Err(e) ==> e == LaunchpadError::ArithmeticError,
            r is Err ==> spec_guaranteed_failed(
                old(self).users_with_guaranteed_ticket@,
                old(self).base.ticket_status@,
                *old(op),
                statuses_view(old(self).user_ticket_status@),
                old(self).base.nr_confirmed_tickets@,
                old(self).base.ticket_range_for_address@,
                old(gas).gas_left,
                old(gas).gas_per_iteration,
            ),
            r matches Ok(status) ==> spec_guaranteed_ran(
                old(self).users_with_guaranteed_ticket@,
                old(self).base.ticket_status@,
                *old(op),
                statuses_view(old(self).user_ticket_status@),
                old(self).base.nr_confirmed_tickets@,
                old(self).base.ticket_range_for_address@,
                old(gas).gas_left,
                old(gas).gas_per_iteration,
                final(self).users_with_guaranteed_ticket@,
                final(self).base.ticket_status@,
                *final(op),
                final(gas).gas_left,
                status == OperationCompletionStatus::Completed,
            ),
            *final(self) == (GuaranteedTicketsLaunchpad {
                base: LaunchpadState { ticket_status: final(self).base.ticket_status, ..old(self).base },
                users_with_guaranteed_ticket: final(self).users_with_guaranteed_ticket,
                ..*old(self)
            }),
            final(self).guaranteed_wf(),
            final(gas).gas_per_iteration == old(gas).gas_per_iteration,
    {
        let budget = *gas;
        let ghost ws0 = self.users_with_guaranteed_ticket@;
        let ghost st0 = self.base.ticket_status@;
        let ghost op0 = *op;
        let ghost statuses = statuses_view(self.user_ticket_status@);
        let ghost conf = self.base.nr_confirmed_tickets@;
        let ghost ranges = self.base.ticket_range_for_address@;
        let ghost old_self = *self;
        let saved_whitelist = self.users_with_guaranteed_ticket.clone();
        let saved_status = self.base.ticket_status.clone();
        let saved_op = *op;
        let mut gas_left = budget.gas_left;
        let ghost mut n: nat = 0;
        let mut status = OperationCompletionStatus::InterruptedBeforeOutOfGas;
        loop
            invariant_except_break
                budget.gas_per_iteration > 0,
                budget == *old(gas),
                *gas == *old(gas),
                old_self.guaranteed_wf(),
                self.guaranteed_wf(),
                ws0 == old_self.users_with_guaranteed_ticket@,
                st0 == old_self.base.ticket_status@,
                op0 == saved_op,
                op0 == *old(op),
                old_self == *old(self),
                statuses == statuses_view(old_self.user_ticket_status@),
                conf == old_self.base.nr_confirmed_tickets@,
                ranges == old_self.base.ticket_range_for_address@,
                saved_whitelist@ == ws0,
                saved_status@ == st0,
                spec_guaranteed_iterate(ws0, st0, op0, statuses, conf, ranges, n)
                    == Some((self.users_with_guaranteed_ticket@, self.base.ticket_status@, *op, false)),
                forall|i: nat| 1 <= i <= n ==> {
                    &&& #[trigger] spec_guaranteed_iterate(ws0, st0, op0, statuses, conf, ranges, i) matches Some(t) && !t.3
                    &&& spec_can_continue(spec_gas_iter(budget.gas_left, budget.gas_per_iteration, i), budget.gas_per_iteration)
                },
                gas_left == spec_gas_iter(budget.gas_left, budget.gas_per_iteration, n),
                status == OperationCompletionStatus::InterruptedBeforeOutOfGas,
                *self == (GuaranteedTicketsLaunchpad {
                    base: LaunchpadState { ticket_status: self.base.ticket_status, ..old_self.base },
                    users_with_guaranteed_ticket: self.users_with_guaranteed_ticket,
                    ..old_self
                }),
            ensures
                n >= 1,
                budget == *old(gas),
                gas_left == spec_gas_iter(budget.gas_left, budget.gas_per_iteration,
                    if status == OperationCompletionStatus::Completed { (n - 1) as nat } else { n }),
                self.guaranteed_wf(),
                spec_guaranteed_iterate(ws0, st0, op0, statuses, conf, ranges, n)
                    == Some((self.users_with_guaranteed_ticket@, self.base.ticket_status@, *op, status == OperationCompletionStatus::Completed)),
                forall|i: nat| 1 <= i < n ==> {
                    &&& #[trigger] spec_guaranteed_iterate(ws0, st0, op0, statuses, conf, ranges, i) matches Some(t) && !t.3
                    &&& spec_can_continue(spec_gas_iter(budget.gas_left, budget.gas_per_iteration, i), budget.gas_per_iteration)
                },
                status == OperationCompletionStatus::InterruptedBeforeOutOfGas
                    ==> !spec_can_continue(spec_gas_iter(budget.gas_left, budget.gas_per_iteration, n), budget.gas_per_iteration),
                *self == (GuaranteedTicketsLaunchpad {
                    base: LaunchpadState { ticket_status: self.base.ticket_status, ..old_self.base },
                    users_with_guaranteed_ticket: self.users_with_guaranteed_ticket,
                    ..old_self
                }),
            decreases gas_left,
        {
            proof {
                n = n + 1;
            }
            if self.users_with_guaranteed_ticket.len() == 0 {
                status = OperationCompletionStatus::Completed;
                break;
            }
            let current_user = self.users_with_guaranteed_ticket[0];
            proof {
                lemma_swap_remove(self.users_with_guaranteed_ticket@, current_user);
            }
            vec_swap_remove_value(&mut self.users_with_guaranteed_ticket, current_user);
            match self.user_ticket_status.get(&current_user) {
                None => {},
                Some(user_ticket_status) => {
                    let user_confirmed_tickets = get_by_address(&self.base.nr_confirmed_tickets, current_user, 0);
                    let result = match self.calculate_guaranteed_tickets(user_ticket_status, user_confirmed_tickets) {
                        Ok(res) => res,
                        Err(e) => {
                            assert(spec_guaranteed_iterate(ws0, st0, op0, statuses, conf, ranges, n) is None);
                            self.users_with_guaranteed_ticket = saved_whitelist;
                            self.base.ticket_status = saved_status;
                            *op = saved_op;
                            return Err(e);
                        },
                    };
                    if result.leftover_tickets > usize::MAX - op.leftover_tickets {
                        assert(spec_guaranteed_iterate(ws0, st0, op0, statuses, conf, ranges, n) is None);
                        self.users_with_guaranteed_ticket = saved_whitelist;
                        self.base.ticket_status = saved_status;
                        *op = saved_op;
                        return Err(LaunchpadError::ArithmeticError);
                    }
                    op.leftover_tickets = op.leftover_tickets + result.leftover_tickets;
                    if result.guaranteed_tickets > 0 {
                        match self.process_guaranteed_tickets(current_user, result.guaranteed_tickets, op) {
                            Ok(()) => {},
                            Err(e) => {
                                assert(spec_guaranteed_iterate(ws0, st0, op0, statuses, conf, ranges, n) is None);
                                self.users_with_guaranteed_ticket = saved_whitelist;
                                self.base.ticket_status = saved_status;
                                *op = saved_op;
                                return Err(e);
                            },
                        }
                    }
                },
            }
            let ghost g0 = gas_left;
            gas_left = gas_after(gas_left, budget.gas_per_iteration);
            if !self.base.can_continue_operation(gas_left, budget.gas_per_iteration) {
                break;
            }
            assert(gas_left < g0);
        }
        gas.gas_left = gas_left;
        Ok(status)
    }
}

} // verus!
