//! Tickets: each user holds a contiguous range of ticket ids, recorded both by user
//! (the range) and by the range's first id (the batch).

use std::collections::HashMap;
use std::collections::HashSet;
use vstd::prelude::*;

use crate::launchpad_common::config::{CallContext, LaunchpadState};
use crate::launchpad_common::errors::LaunchpadError;
use crate::launchpad_common::launch_stage::{LaunchStage, LaunchStageModule};
use crate::launchpad_common::storage::{get_by_address, get_by_index, stored_or, Address};

verus! {

broadcast use vstd::std_specs::hash::group_hash_axioms;

/// The id of the first ticket; ids are consecutive from here.
pub const FIRST_TICKET_ID: usize = 1;

/// Whether a ticket won.
pub type TicketStatus = bool;

/// The status of a winning ticket.
pub const WINNING_TICKET: TicketStatus = true;

/// The ids `first_id..=last_id` of a user's tickets; empty when `last_id < first_id`.
#[derive(Debug, Clone, Copy, PartialEq, Eq, Structural)]
pub struct TicketRange {
    pub first_id: usize,
    pub last_id: usize,
}

/// The owner and the number of the tickets that start at some id.
#[derive(Debug, Clone, Copy, PartialEq, Eq, Structural)]
pub struct TicketBatch {
    pub address: Address,
    pub nr_tickets: usize,
}

/// The batch read where nothing was stored: the zero account with no tickets.
pub open spec fn empty_batch() -> TicketBatch {
    TicketBatch { address: 0, nr_tickets: 0 }
}

/// A range that can be stored: it starts at a ticket id, ends at most one id
/// before it starts, and leaves room to count one past its end.
pub open spec fn range_wf(r: TicketRange) -> bool {
    &&& r.first_id >= FIRST_TICKET_ID
    &&& r.first_id <= r.last_id + 1
    &&& r.last_id < usize::MAX
}

/// The number of tickets in a range.
pub open spec fn range_len(r: TicketRange) -> int {
    r.last_id - r.first_id + 1
}

/// The ticket tables after tickets are created for each pair of a list in turn:
/// each user gets the ids that follow the last one handed out.
pub open spec fn spec_tickets_after(
    last: usize,
    ranges: Map<Address, TicketRange>,
    batches: Map<usize, TicketBatch>,
    pairs: Seq<(Address, usize)>,
) -> (usize, Map<Address, TicketRange>, Map<usize, TicketBatch>)
    decreases pairs.len(),
{
    if pairs.len() == 0 {
        (last, ranges, batches)
    } else {
        let (l, rs, bs) = spec_tickets_after(last, ranges, batches, pairs.drop_last());
        let (buyer, nr) = pairs.last();
        let first = (l + 1) as usize;
        let new_last = (l + nr) as usize;
        (
            new_last,
            rs.insert(buyer, TicketRange { first_id: first, last_id: new_last }),
            bs.insert(first, TicketBatch { address: buyer, nr_tickets: nr }),
        )
    }
}

/// The sum of the ticket counts of a list of pairs.
pub open spec fn spec_total_tickets(pairs: Seq<(Address, usize)>) -> int
    decreases pairs.len(),
{
    if pairs.len() == 0 {
        0
    } else {
        spec_total_tickets(pairs.drop_last()) + pairs.last().1
    }
}

/// No user of a list is named twice, and none already holds tickets.
pub open spec fn spec_new_holders(ranges: Map<Address, TicketRange>, pairs: Seq<(Address, usize)>) -> bool {
    &&& forall|i: int| 0 <= i < pairs.len() ==> !ranges.contains_key(#[trigger] pairs[i].0)
    &&& forall|i: int, j: int| 0 <= i < j < pairs.len() ==> #[trigger] pairs[i].0 != #[trigger] pairs[j].0
}

/// Whether tickets can be created for every pair of a list in turn: the holders are new,
/// and the ids stay in range.
pub open spec fn spec_can_add_tickets(
    last: usize,
    ranges: Map<Address, TicketRange>,
    pairs: Seq<(Address, usize)>,
) -> bool {
    &&& spec_new_holders(ranges, pairs)
    &&& last + spec_total_tickets(pairs) < usize::MAX
}

/// Whether a ticket id lies in a range.
pub open spec fn in_range(r: TicketRange, id: int) -> bool {
    r.first_id <= id <= r.last_id
}

/// Whether a ticket id lies in some user's range.
pub open spec fn id_held(ranges: Map<Address, TicketRange>, id: int) -> bool {
    exists|a: Address| ranges.contains_key(a) && #[trigger] in_range(ranges[a], id)
}

/// The ranges of the users split the ids `1..=last` among them: each range lies within
/// them, no id lies in the ranges of two users, and every id lies in some user's range.
pub open spec fn ranges_partition(ranges: Map<Address, TicketRange>, last: usize) -> bool {
    &&& forall|a: Address| #[trigger] ranges.contains_key(a) ==> FIRST_TICKET_ID <= ranges[a].first_id && ranges[a].last_id <= last
    &&& forall|a: Address, b: Address, id: int|
        ranges.contains_key(a) && ranges.contains_key(b) && a != b && #[trigger] in_range(ranges[a], id)
            ==> !#[trigger] in_range(ranges[b], id)
    &&& forall|id: int| FIRST_TICKET_ID <= id <= last ==> #[trigger] id_held(ranges, id)
}

/// Creating tickets for a list of new holders keeps the ranges a split of all the ids
/// handed out: from ranges that split `1..=last`, the ranges after the list split
/// `1..=last + total`, each holder of the list gets as many ids as it asked for, the
/// holders get their ids in the order of the list, one after the other, and the ranges
/// that were there stay as they were.
pub proof fn lemma_added_ranges_partition(
    last: usize,
    ranges: Map<Address, TicketRange>,
    batches: Map<usize, TicketBatch>,
    pairs: Seq<(Address, usize)>,
)
    requires
        ranges_partition(ranges, last),
        spec_can_add_tickets(last, ranges, pairs),
    ensures
        ({
            let (l, rs, bs) = spec_tickets_after(last, ranges, batches, pairs);
            &&& l == last + spec_total_tickets(pairs)
            &&& ranges_partition(rs, l)
            &&& forall|i: int| 0 <= i < pairs.len() ==> rs.contains_key(#[trigger] pairs[i].0)
                && rs[pairs[i].0].first_id == last + spec_total_tickets(pairs.take(i)) + 1
                && range_len(rs[pairs[i].0]) == pairs[i].1
            &&& forall|a: Address| #[trigger] ranges.contains_key(a) ==> rs.contains_key(a) && rs[a] == ranges[a]
            &&& forall|a: Address| #[trigger] rs.contains_key(a) ==> ranges.contains_key(a) || exists|i: int| 0 <= i < pairs.len() && pairs[i].0 == a
        }),
    decreases pairs.len(),
{
    lemma_total_nonneg(pairs);
    if pairs.len() > 0 {
        let p1 = pairs.drop_last();
        lemma_total_nonneg(p1);
        assert(spec_can_add_tickets(last, ranges, p1)) by {
            assert forall|i: int, j: int| 0 <= i < j < p1.len() implies #[trigger] p1[i].0 != #[trigger] p1[j].0 by {
                assert(p1[i] == pairs[i] && p1[j] == pairs[j]);
            }
            assert forall|i: int| 0 <= i < p1.len() implies !ranges.contains_key(#[trigger] p1[i].0) by {
                assert(p1[i] == pairs[i]);
            }
        }
        lemma_added_ranges_partition(last, ranges, batches, p1);
        let (l1, rs1, bs1) = spec_tickets_after(last, ranges, batches, p1);
        let (buyer, nr) = pairs.last();
        let first = (l1 + 1) as usize;
        let new_last = (l1 + nr) as usize;
        let nr_r = TicketRange { first_id: first, last_id: new_last };
        let rs = rs1.insert(buyer, nr_r);
        assert(l1 + nr < usize::MAX);
        assert(!rs1.contains_key(buyer)) by {
            if rs1.contains_key(buyer) {
                if !ranges.contains_key(buyer) {
                    let i = choose|i: int| 0 <= i < p1.len() && p1[i].0 == buyer;
                    assert(pairs[i].0 == pairs[pairs.len() - 1].0);
                }
                assert(!ranges.contains_key(pairs[pairs.len() - 1].0));
            }
        }
        assert forall|a: Address, b: Address, id: int|
            rs.contains_key(a) && rs.contains_key(b) && a != b && #[trigger] in_range(rs[a], id) implies !#[trigger] in_range(rs[b], id) by {
            if a != buyer && b != buyer {
                assert(in_range(rs1[a], id));
            } else if a == buyer {
                assert(rs1[b].last_id <= l1);
            } else {
                assert(rs1[a].last_id <= l1);
            }
        }
        assert forall|id: int| FIRST_TICKET_ID <= id <= new_last implies #[trigger] id_held(rs, id) by {
            if id <= l1 {
                assert(id_held(rs1, id));
                let a = choose|a: Address| rs1.contains_key(a) && #[trigger] in_range(rs1[a], id);
                assert(a != buyer);
                assert(rs.contains_key(a) && in_range(rs[a], id));
            } else {
                assert(rs.contains_key(buyer) && in_range(rs[buyer], id));
            }
        }
        assert(pairs.take(pairs.len() - 1) =~= p1);
        assert forall|i: int| 0 <= i < pairs.len() implies rs.contains_key(#[trigger] pairs[i].0)
            && rs[pairs[i].0].first_id == last + spec_total_tickets(pairs.take(i)) + 1
            && range_len(rs[pairs[i].0]) == pairs[i].1 by {
            if i < pairs.len() - 1 {
                assert(p1[i] == pairs[i]);
                assert(pairs[i].0 != pairs[pairs.len() - 1].0);
                assert(p1.take(i) =~= pairs.take(i));
            }
        }
        assert forall|a: Address| #[trigger] rs.contains_key(a) implies ranges.contains_key(a) || exists|i: int| 0 <= i < pairs.len() && pairs[i].0 == a by {
            if a == buyer {
                assert(pairs[pairs.len() - 1].0 == a);
            } else if !ranges.contains_key(a) {
                let i = choose|i: int| 0 <= i < p1.len() && p1[i].0 == a;
                assert(pairs[i].0 == a);
            }
        }
    }
}

pub proof fn lemma_total_tickets_prefix(pairs: Seq<(Address, usize)>, i: int)
    requires
        0 <= i <= pairs.len(),
    ensures
        0 <= spec_total_tickets(pairs.take(i)) <= spec_total_tickets(pairs),
    decreases pairs.len(),
{
    if pairs.len() > 0 && i < pairs.len() {
        assert(pairs.drop_last().take(i) =~= pairs.take(i));
        lemma_total_tickets_prefix(pairs.drop_last(), i);
    } else if i == pairs.len() {
        assert(pairs.take(i) =~= pairs);
        lemma_total_nonneg(pairs);
    }
}

pub proof fn lemma_total_nonneg(pairs: Seq<(Address, usize)>)
    ensures
        spec_total_tickets(pairs) >= 0,
    decreases pairs.len(),
{
    if pairs.len() > 0 {
        lemma_total_nonneg(pairs.drop_last());
    }
}

/// The ticket tables of a launchpad.
pub trait TicketsModule {
    /// The ticket tables hold well-formed ranges and room for one more id.
    spec fn tickets_wf(&self) -> bool;

    fn add_tickets(&mut self, ctx: &CallContext, address_number_pairs: &Vec<(Address, usize)>) -> Result<(), LaunchpadError>
        requires
            old(self).tickets_wf(),
    ;

    fn get_ticket_range_for_address(&self, address: Address) -> Option<(usize, usize)>;

    fn get_total_number_of_tickets_for_address(&self, address: Address) -> usize
        requires
            self.tickets_wf(),
    ;

    fn try_create_tickets(&mut self, buyer: Address, nr_tickets: usize) -> Result<(), LaunchpadError>
        requires
            old(self).tickets_wf(),
    ;

    fn try_get_ticket_range(&self, address: Address) -> Result<TicketRange, LaunchpadError>;

    fn get_ticket_id_from_pos(&self, ticket_pos: usize) -> usize;

    fn get_total_tickets(&self) -> usize;
}

impl LaunchpadState {
    /// The id of the ticket at a position of the shuffle: stored, or the position itself.
    pub open spec fn ticket_id_at(&self, pos: usize) -> usize {
        let stored = stored_or(self.ticket_pos_to_id@, pos, 0);
        if stored == 0 {
            pos
        } else {
            stored
        }
    }

    /// The number of tickets a user holds.
    pub open spec fn total_tickets_of(&self, address: Address) -> int {
        if self.ticket_range_for_address@.contains_key(address) {
            range_len(self.ticket_range_for_address@[address])
        } else {
            0
        }
    }

    /// The part of the state that the ticket tables do not touch is the same.
    pub open spec fn same_except_tickets(&self, other: &LaunchpadState) -> bool {
        &&& self.launchpad_token_id == other.launchpad_token_id
        &&& self.launchpad_tokens_per_winning_ticket == other.launchpad_tokens_per_winning_ticket
        &&& self.ticket_price == other.ticket_price
        &&& self.nr_winning_tickets == other.nr_winning_tickets
        &&& self.launchpad_tokens_deposited == other.launchpad_tokens_deposited
        &&& self.total_launchpad_tokens_deposited == other.total_launchpad_tokens_deposited
        &&& self.claimable_ticket_payment == other.claimable_ticket_payment
        &&& self.configuration == other.configuration
        &&& self.flags == other.flags
        &&& self.support_address == other.support_address
        &&& self.ticket_status == other.ticket_status
        &&& self.nr_confirmed_tickets == other.nr_confirmed_tickets
        &&& self.ticket_pos_to_id == other.ticket_pos_to_id
        &&& self.blacklist == other.blacklist
        &&& self.claimed_tokens == other.claimed_tokens
        &&& self.current_ongoing_operation == other.current_ongoing_operation
        &&& self.paused == other.paused
    }
}


/// Checks a list of new ticket holders before any ticket is created, so that a
/// refused list creates none.
pub fn check_new_ticket_pairs(
    last_ticket_id: usize,
    ranges: &HashMap<Address, TicketRange>,
    pairs: &Vec<(Address, usize)>,
) -> (r: Result<(), LaunchpadError>)
    requires
        last_ticket_id < usize::MAX,
    ensures
        r is Ok <==> spec_can_add_tickets(last_ticket_id, ranges@, pairs@),
        r is Err ==> r == Err::<(), _>(LaunchpadError::DuplicateEntry) || r == Err::<(), _>(LaunchpadError::ArithmeticError),
        r is Err && spec_new_holders(ranges@, pairs@) ==> r == Err::<(), _>(LaunchpadError::ArithmeticError),
        r is Err && last_ticket_id + spec_total_tickets(pairs@) < usize::MAX ==> r == Err::<(), _>(LaunchpadError::DuplicateEntry),
{
    let n = pairs.len();
    // check every pair before creating any ticket, so a refused call creates none
    let mut seen: HashSet<Address> = HashSet::new();
    let mut total: usize = last_ticket_id;
    let mut i: usize = 0;
    while i < n
        invariant
            n == pairs@.len(),
            i <= n,
            last_ticket_id < usize::MAX,
            total == last_ticket_id + spec_total_tickets(pairs@.take(i as int)),
            total < usize::MAX,
            forall|a: Address| #[trigger] seen@.contains(a) <==> exists|j: int| 0 <= j < i && pairs@[j].0 == a,
            forall|j: int| 0 <= j < i ==> !ranges@.contains_key(#[trigger] pairs@[j].0),
            forall|j: int, k: int| 0 <= j < k < i ==> #[trigger] pairs@[j].0 != #[trigger] pairs@[k].0,
        decreases n - i,
    {
        let (buyer, nr) = pairs[i];
        assert(pairs@.take(i as int + 1).drop_last() =~= pairs@.take(i as int));
        if ranges.contains_key(&buyer) {
            proof {
                assert(pairs@[i as int].0 == buyer);
                assert(ranges@.contains_key(pairs@[i as int].0));
                assert(!spec_can_add_tickets(last_ticket_id, ranges@, pairs@));
            }
            return Err(LaunchpadError::DuplicateEntry);
        }
        if seen.contains(&buyer) {
            proof {
                let j = choose|j: int| 0 <= j < i && pairs@[j].0 == buyer;
                assert(pairs@[j].0 == pairs@[i as int].0);
                assert(!spec_can_add_tickets(last_ticket_id, ranges@, pairs@));
            }
            return Err(LaunchpadError::DuplicateEntry);
        }
        if nr >= usize::MAX - total {
            proof {
                lemma_total_tickets_prefix(pairs@, i as int + 1);
            }
            return Err(LaunchpadError::ArithmeticError);
        }
        total = total + nr;
        seen.insert(buyer);
        i = i + 1;
        proof {
            assert forall|a: Address| #[trigger] seen@.contains(a) implies exists|j: int| 0 <= j < i && pairs@[j].0 == a by {
                if a != buyer {
                    let j = choose|j: int| 0 <= j < i - 1 && pairs@[j].0 == a;
                    assert(0 <= j < i && pairs@[j].0 == a);
                } else {
                    assert(pairs@[i - 1].0 == a);
                }
            }
        }
    }
    assert(pairs@.take(n as int) =~= pairs@);
    Ok(())
}

impl TicketsModule for LaunchpadState {
    open spec fn tickets_wf(&self) -> bool {
        &&& self.last_ticket_id < usize::MAX
        &&& forall|a: Address| #[trigger] self.ticket_range_for_address@.contains_key(a)
            ==> range_wf(self.ticket_range_for_address@[a])
    }

    fn add_tickets(&mut self, ctx: &CallContext, address_number_pairs: &Vec<(Address, usize)>) -> (r: Result<(), LaunchpadError>)
        ensures
            r is Ok <==> {
                &&& ctx.caller == ctx.owner
                &&& old(self).stage_at(ctx.block_round) == LaunchStage::AddTickets
                &&& spec_can_add_tickets(old(self).last_ticket_id, old(self).ticket_range_for_address@, address_number_pairs@)
            },
            r is Ok ==> {
                let (l, rs, bs) = spec_tickets_after(
                    old(self).last_ticket_id,
                    old(self).ticket_range_for_address@,
                    old(self).ticket_batch@,
                    address_number_pairs@,
                );
                &&& final(self).last_ticket_id == l
                &&& final(self).ticket_range_for_address@ == rs
                &&& final(self).ticket_batch@ == bs
                &&& final(self).same_except_tickets(old(self))
                &&& final(self).tickets_wf()
            },
            r == Err::<(), _>(LaunchpadError::OnlyOwner) <==> ctx.caller != ctx.owner,
            ctx.caller == ctx.owner && old(self).stage_at(ctx.block_round) != LaunchStage::AddTickets
                ==> r == Err::<(), _>(LaunchpadError::AddTicketsPeriodPassed),
            ctx.caller == ctx.owner && old(self).stage_at(ctx.block_round) == LaunchStage::AddTickets && r is Err ==> {
                &&& spec_new_holders(old(self).ticket_range_for_address@, address_number_pairs@)
                    ==> r == Err::<(), _>(LaunchpadError::ArithmeticError)
                &&& old(self).last_ticket_id + spec_total_tickets(address_number_pairs@) < usize::MAX
                    ==> r == Err::<(), _>(LaunchpadError::DuplicateEntry)
            },
            r is Err ==> *final(self) == *old(self),
    {
        if ctx.caller != ctx.owner {
            return Err(LaunchpadError::OnlyOwner);
        }
        self.require_add_tickets_period(ctx.block_round)?;
        check_new_ticket_pairs(self.last_ticket_id, &self.ticket_range_for_address, address_number_pairs)?;
        let pairs = address_number_pairs;
        let n = pairs.len();
        let ghost old_self = *self;
        let mut k: usize = 0;
        while k < n
            invariant
                n == pairs@.len(),
                k <= n,
                spec_can_add_tickets(old_self.last_ticket_id, old_self.ticket_range_for_address@, pairs@),
                old_self.tickets_wf(),
                ({
                    let (l, rs, bs) = spec_tickets_after(
                        old_self.last_ticket_id,
                        old_self.ticket_range_for_address@,
                        old_self.ticket_batch@,
                        pairs@.take(k as int),
                    );
                    &&& self.last_ticket_id == l
                    &&& self.ticket_range_for_address@ == rs
                    &&& self.ticket_batch@ == bs
                }),
                self.last_ticket_id == old_self.last_ticket_id + spec_total_tickets(pairs@.take(k as int)),
                self.same_except_tickets(&old_self),
                self.tickets_wf(),
                forall|j: int| k <= j < n ==> !self.ticket_range_for_address@.contains_key(#[trigger] pairs@[j].0),
            decreases n - k,
        {
            let (buyer, nr) = pairs[k];
            proof {
                assert(pairs@.take(k as int + 1).drop_last() =~= pairs@.take(k as int));
                lemma_total_tickets_prefix(pairs@, k as int + 1);
            }
            let res = self.try_create_tickets(buyer, nr);
            assert(res is Ok);
            k = k + 1;
            proof {
                assert forall|j: int| k <= j < n implies !self.ticket_range_for_address@.contains_key(#[trigger] pairs@[j].0) by {
                    assert(pairs@[j].0 != pairs@[k - 1].0);
                }
            }
        }
        assert(pairs@.take(n as int) =~= pairs@);
        Ok(())
    }

    fn get_ticket_range_for_address(&self, address: Address) -> (r: Option<(usize, usize)>)
        ensures
            r is None <==> !self.ticket_range_for_address@.contains_key(address),
            r matches Some(p) ==> p.0 == self.ticket_range_for_address@[address].first_id
                && p.1 == self.ticket_range_for_address@[address].last_id,
    {
        match self.ticket_range_for_address.get(&address) {
            Some(range) => Some((range.first_id, range.last_id)),
            None => None,
        }
    }

    fn get_total_number_of_tickets_for_address(&self, address: Address) -> (r: usize)
        ensures
            r == self.total_tickets_of(address),
    {
        match self.ticket_range_for_address.get(&address) {
            Some(range) => {
                assert(range_wf(self.ticket_range_for_address@[address]));
                range.last_id + 1 - range.first_id
            },
            None => 0,
        }
    }

    fn try_create_tickets(&mut self, buyer: Address, nr_tickets: usize) -> (r: Result<(), LaunchpadError>)
        ensures
            r is Ok <==> !old(self).ticket_range_for_address@.contains_key(buyer)
                && old(self).last_ticket_id + nr_tickets < usize::MAX,
            r == Err::<(), _>(LaunchpadError::DuplicateEntry) <==> old(self).ticket_range_for_address@.contains_key(buyer),
            r is Ok ==> {
                let first = (old(self).last_ticket_id + 1) as usize;
                let last = (old(self).last_ticket_id + nr_tickets) as usize;
                &&& final(self).ticket_range_for_address@ == old(self).ticket_range_for_address@.insert(
                    buyer,
                    TicketRange { first_id: first, last_id: last },
                )
                &&& final(self).ticket_batch@ == old(self).ticket_batch@.insert(
                    first,
                    TicketBatch { address: buyer, nr_tickets },
                )
                &&& final(self).last_ticket_id == last
                &&& final(self).same_except_tickets(old(self))
                &&& final(self).tickets_wf()
            },
            r is Err ==> *final(self) == *old(self),
    {
        if self.ticket_range_for_address.contains_key(&buyer) {
            return Err(LaunchpadError::DuplicateEntry);
        }
        if nr_tickets >= usize::MAX - self.last_ticket_id {
            return Err(LaunchpadError::ArithmeticError);
        }
        let first_ticket_id = self.last_ticket_id + 1;
        let last_ticket_id = self.last_ticket_id + nr_tickets;
        self.ticket_range_for_address.insert(
            buyer,
            TicketRange { first_id: first_ticket_id, last_id: last_ticket_id },
        );
        self.ticket_batch.insert(first_ticket_id, TicketBatch { address: buyer, nr_tickets });
        self.last_ticket_id = last_ticket_id;
        Ok(())
    }

    fn try_get_ticket_range(&self, address: Address) -> (r: Result<TicketRange, LaunchpadError>)
        ensures
            r is Ok <==> self.ticket_range_for_address@.contains_key(address),
            r matches Ok(range) ==> range == self.ticket_range_for_address@[address],
            r is Err ==> r == Err::<TicketRange, _>(LaunchpadError::NoTickets),
    {
        match self.ticket_range_for_address.get(&address) {
            Some(range) => Ok(*range),
            None => Err(LaunchpadError::NoTickets),
        }
    }

    fn get_ticket_id_from_pos(&self, ticket_pos: usize) -> (r: usize)
        ensures
            r == self.ticket_id_at(ticket_pos),
    {
        let ticket_id = get_by_index(&self.ticket_pos_to_id, ticket_pos, 0);
        if ticket_id == 0 {
            ticket_pos
        } else {
            ticket_id
        }
    }

    fn get_total_tickets(&self) -> (r: usize)
        ensures
            r == self.last_ticket_id,
    {
        self.last_ticket_id
    }
}

} // verus!
