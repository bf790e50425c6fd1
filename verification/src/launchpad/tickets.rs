//! The tickets of the first launchpad: the owner allots a range of ticket ids to each
//! user, and may later give a user a larger allotment that replaces the old one.

use std::collections::HashMap;
use vstd::prelude::*;

use crate::launchpad::launch_stage::LaunchStageModule;
use crate::launchpad::state::EpochLaunchpad;
use crate::launchpad_common::config::CallContext;
use crate::launchpad_common::errors::LaunchpadError;
use crate::launchpad_common::launch_stage::LaunchStage;
use crate::launchpad_common::storage::{get_by_index, stored_or, Address};
use crate::launchpad_common::tickets::{
    check_new_ticket_pairs, lemma_total_tickets_prefix, range_len, range_wf, spec_can_add_tickets, spec_new_holders,
    spec_tickets_after, spec_total_tickets, TicketBatch, TicketRange,
};

verus! {

broadcast use vstd::std_specs::hash::group_hash_axioms;

/// The ticket tables after a user with tickets is given a larger allotment: the old
/// batch is kept for the zero account, so that the filter drops it, and the user gets
/// the ids that follow the last one handed out.
pub open spec fn spec_more_tickets_step(
    last: usize,
    ranges: Map<Address, TicketRange>,
    batches: Map<usize, TicketBatch>,
    buyer: Address,
    nr: usize,
) -> Result<(usize, Map<Address, TicketRange>, Map<usize, TicketBatch>), LaunchpadError> {
    if !ranges.contains_key(buyer) {
        Err(LaunchpadError::NoTickets)
    } else {
        let old_range = ranges[buyer];
        let nr_old = range_len(old_range);
        if !(nr_old < nr) {
            Err(LaunchpadError::NewTicketsNotMore)
        } else if last + nr >= usize::MAX {
            Err(LaunchpadError::ArithmeticError)
        } else {
            let first = (last + 1) as usize;
            let new_last = (last + nr) as usize;
            Ok((
                new_last,
                ranges.insert(buyer, TicketRange { first_id: first, last_id: new_last }),
                batches.insert(old_range.first_id, TicketBatch { address: 0, nr_tickets: nr_old as usize }).insert(
                    first,
                    TicketBatch { address: buyer, nr_tickets: nr },
                ),
            ))
        }
    }
}

/// The ticket tables after each pair of a list in turn gets a larger allotment; the
/// first refusal ends it.
pub open spec fn spec_more_tickets_after(
    last: usize,
    ranges: Map<Address, TicketRange>,
    batches: Map<usize, TicketBatch>,
    pairs: Seq<(Address, usize)>,
) -> Result<(usize, Map<Address, TicketRange>, Map<usize, TicketBatch>), LaunchpadError>
    decreases pairs.len(),
{
    if pairs.len() == 0 {
        Ok((last, ranges, batches))
    } else {
        match spec_more_tickets_after(last, ranges, batches, pairs.drop_last()) {
            Err(e) => Err(e),
            Ok((l, rs, bs)) => spec_more_tickets_step(l, rs, bs, pairs.last().0, pairs.last().1),
        }
    }
}

/// Every stored range is well formed.
pub open spec fn ranges_wf(ranges: Map<Address, TicketRange>) -> bool {
    forall|a: Address| #[trigger] ranges.contains_key(a) ==> range_wf(ranges[a])
}

/// One larger allotment, on the ticket tables.
fn more_tickets_step(
    last: &mut usize,
    ranges: &mut HashMap<Address, TicketRange>,
    batches: &mut HashMap<usize, TicketBatch>,
    buyer: Address,
    nr: usize,
) -> (r: Result<(), LaunchpadError>)
    requires
        *old(last) < usize::MAX,
        ranges_wf(old(ranges)@),
    ensures
        match spec_more_tickets_step(*old(last), old(ranges)@, old(batches)@, buyer, nr) {
            Err(e) => r == Err::<(), _>(e),
            Ok((l, rs, bs)) => r is Ok && *final(last) == l && final(ranges)@ == rs && final(batches)@ == bs,
        },
        *final(last) < usize::MAX,
        ranges_wf(final(ranges)@),
{
    let old_range = match ranges.get(&buyer) {
        Some(range) => *range,
        None => return Err(LaunchpadError::NoTickets),
    };
    assert(range_wf(old_range));
    let nr_old_tickets = old_range.last_id + 1 - old_range.first_id;
    if nr_old_tickets >= nr {
        return Err(LaunchpadError::NewTicketsNotMore);
    }
    if nr >= usize::MAX - *last {
        return Err(LaunchpadError::ArithmeticError);
    }
    batches.insert(old_range.first_id, TicketBatch { address: 0, nr_tickets: nr_old_tickets });
    let first_ticket_id = *last + 1;
    let last_ticket_id = *last + nr;
    ranges.insert(buyer, TicketRange { first_id: first_ticket_id, last_id: last_ticket_id });
    batches.insert(first_ticket_id, TicketBatch { address: buyer, nr_tickets: nr });
    *last = last_ticket_id;
    Ok(())
}

impl EpochLaunchpad {
    /// The part of the state that the ticket tables do not touch is the same.
    pub open spec fn same_except_tickets(&self, other: &EpochLaunchpad) -> bool {
        *self == (EpochLaunchpad {
            last_ticket_id: self.last_ticket_id,
            ticket_range_for_address: self.ticket_range_for_address,
            ticket_batch: self.ticket_batch,
            ..*other
        })
    }

    /// The id of the ticket at a position of the shuffle: stored, or the position itself.
    pub open spec fn ticket_id_at(&self, pos: usize) -> usize {
        let stored = stored_or(self.ticket_pos_to_id@, pos, 0);
        if stored == 0 {
            pos
        } else {
            stored
        }
    }

    /// The number of tickets a user holds.
    pub open spec fn total_tickets_of(&self, address: Address) -> int {
        if self.ticket_range_for_address@.contains_key(address) {
            range_len(self.ticket_range_for_address@[address])
        } else {
            0
        }
    }
}

/// The ticket tables.
pub trait TicketsModule {
    /// The ticket tables hold well-formed ranges and room for one more id.
    spec fn tickets_wf(&self) -> bool;

    fn add_tickets(&mut self, ctx: &CallContext, address_number_pairs: &Vec<(Address, usize)>) -> Result<(), LaunchpadError>
        requires
            old(self).tickets_wf(),
    ;

    fn add_more_tickets(&mut self, ctx: &CallContext, address_number_pairs: &Vec<(Address, usize)>) -> Result<(), LaunchpadError>
        requires
            old(self).tickets_wf(),
    ;

    fn get_ticket_range_for_address(&self, address: Address) -> Option<(usize, usize)>;

    fn get_total_number_of_tickets_for_address(&self, address: Address) -> usize
        requires
            self.tickets_wf(),
    ;

    fn try_create_tickets(&mut self, buyer: Address, nr_tickets: usize) -> Result<(), LaunchpadError>
        requires
            old(self).tickets_wf(),
    ;

    fn set_ticket_range_batch_for_user(&mut self, buyer: Address, nr_tickets: usize) -> Result<(), LaunchpadError>
        requires
            old(self).tickets_wf(),
    ;

    fn try_add_more_tickets_for_same_user(&mut self, buyer: Address, nr_tickets: usize) -> Result<(), LaunchpadError>
        requires
            old(self).tickets_wf(),
    ;

    fn try_get_ticket_range(&self, address: Address) -> Result<TicketRange, LaunchpadError>;

    fn get_ticket_id_from_pos(&self, ticket_pos: usize) -> usize;

    fn get_total_tickets(&self) -> usize;
}

impl TicketsModule for EpochLaunchpad {
    open spec fn tickets_wf(&self) -> bool {
        self.wf()
    }

    /// While tickets are added, the owner gives each user of a list a range of ids; a
    /// list that names a user twice, or one who holds tickets, is refused whole.
    fn add_tickets(&mut self, ctx: &CallContext, address_number_pairs: &Vec<(Address, usize)>) -> (r: Result<(), LaunchpadError>)
        ensures
            r is Ok <==> {
                &&& ctx.caller == ctx.owner
                &&& old(self).stage_at(ctx.block_epoch) == LaunchStage::AddTickets
                &&& spec_can_add_tickets(old(self).last_ticket_id, old(self).ticket_range_for_address@, address_number_pairs@)
            },
            r is Ok ==> {
                let (l, rs, bs) = spec_tickets_after(
                    old(self).last_ticket_id,
                    old(self).ticket_range_for_address@,
                    old(self).ticket_batch@,
                    address_number_pairs@,
                );
                &&& final(self).last_ticket_id == l
                &&& final(self).ticket_range_for_address@ == rs
                &&& final(self).ticket_batch@ == bs
                &&& final(self).same_except_tickets(old(self))
            },
            ctx.caller != ctx.owner ==> r == Err::<(), _>(LaunchpadError::OnlyOwner),
            ctx.caller == ctx.owner && old(self).stage_at(ctx.block_epoch) != LaunchStage::AddTickets
                ==> r == Err::<(), _>(LaunchpadError::AddTicketsPeriodPassed),
            ctx.caller == ctx.owner && old(self).stage_at(ctx.block_epoch) == LaunchStage::AddTickets && r is Err ==> {
                &&& spec_new_holders(old(self).ticket_range_for_address@, address_number_pairs@)
                    ==> r == Err::<(), _>(LaunchpadError::ArithmeticError)
                &&& old(self).last_ticket_id + spec_total_tickets(address_number_pairs@) < usize::MAX
                    ==> r == Err::<(), _>(LaunchpadError::DuplicateEntry)
            },
            r is Err ==> *final(self) == *old(self),
            final(self).wf(),
    {
        if ctx.caller != ctx.owner {
            return Err(LaunchpadError::OnlyOwner);
        }
        self.require_add_tickets_period(ctx.block_epoch)?;
        check_new_ticket_pairs(self.last_ticket_id, &self.ticket_range_for_address, address_number_pairs)?;
        let pairs = address_number_pairs;
        let n = pairs.len();
        let ghost old_self = *self;
        let mut k: usize = 0;
        while k < n
            invariant
                n == pairs@.len(),
                k <= n,
                spec_can_add_tickets(old_self.last_ticket_id, old_self.ticket_range_for_address@, pairs@),
                old_self.wf(),
                ({
                    let (l, rs, bs) = spec_tickets_after(
                        old_self.last_ticket_id,
                        old_self.ticket_range_for_address@,
                        old_self.ticket_batch@,
                        pairs@.take(k as int),
                    );
                    &&& self.last_ticket_id == l
                    &&& self.ticket_range_for_address@ == rs
                    &&& self.ticket_batch@ == bs
                }),
                self.last_ticket_id == old_self.last_ticket_id + spec_total_tickets(pairs@.take(k as int)),
                self.same_except_tickets(&old_self),
                self.wf(),
                forall|j: int| k <= j < n ==> !self.ticket_range_for_address@.contains_key(#[trigger] pairs@[j].0),
            decreases n - k,
        {
            let (buyer, nr) = pairs[k];
            proof {
                assert(pairs@.take(k as int + 1).drop_last() =~= pairs@.take(k as int));
                lemma_total_tickets_prefix(pairs@, k as int + 1);
            }
            let res = self.try_create_tickets(buyer, nr);
            assert(res is Ok);
            k = k + 1;
            proof {
                assert forall|j: int| k <= j < n implies !self.ticket_range_for_address@.contains_key(#[trigger] pairs@[j].0) by {
                    assert(pairs@[j].0 != pairs@[k - 1].0);
                }
            }
        }
        assert(pairs@.take(n as int) =~= pairs@);
        Ok(())
    }

    /// The owner gives each user of a list, in turn, a larger allotment than the user
    /// holds; the first refusal refuses the whole list.
    fn add_more_tickets(&mut self, ctx: &CallContext, address_number_pairs: &Vec<(Address, usize)>) -> (r: Result<(), LaunchpadError>)
        ensures
            ctx.caller != ctx.owner ==> r == Err::<(), _>(LaunchpadError::OnlyOwner),
            ctx.caller == ctx.owner ==> match spec_more_tickets_after(
                old(self).last_ticket_id,
                old(self).ticket_range_for_address@,
                old(self).ticket_batch@,
                address_number_pairs@,
            ) {
                Err(e) => r == Err::<(), _>(e),
                Ok((l, rs, bs)) => {
                    &&& r is Ok
                    &&& final(self).last_ticket_id == l
                    &&& final(self).ticket_range_for_address@ == rs
                    &&& final(self).ticket_batch@ == bs
                    &&& final(self).same_except_tickets(old(self))
                },
            },
            r is Err ==> *final(self) == *old(self),
            final(self).wf(),
    {
        if ctx.caller != ctx.owner {
            return Err(LaunchpadError::OnlyOwner);
        }
        let pairs = address_number_pairs;
        let n = pairs.len();
        let mut last = self.last_ticket_id;
        let mut ranges = self.ticket_range_for_address.clone();
        let mut batches = self.ticket_batch.clone();
        let mut k: usize = 0;
        while k < n
            invariant
                n == pairs@.len(),
                k <= n,
                old(self).wf(),
                ctx.caller == ctx.owner,
                pairs@ == address_number_pairs@,
                *self == *old(self),
                last < usize::MAX,
                ranges_wf(ranges@),
                spec_more_tickets_after(
                    old(self).last_ticket_id,
                    old(self).ticket_range_for_address@,
                    old(self).ticket_batch@,
                    pairs@.take(k as int),
                ) == Ok::<_, LaunchpadError>((last, ranges@, batches@)),
            decreases n - k,
        {
            let (buyer, nr) = pairs[k];
            proof {
                assert(pairs@.take(k as int + 1).drop_last() =~= pairs@.take(k as int));
                assert(pairs@.take(k as int + 1).last() == pairs@[k as int]);
            }
            let ghost pre = (last, ranges@, batches@);
            let step = more_tickets_step(&mut last, &mut ranges, &mut batches, buyer, nr);
            if let Err(e) = step {
                proof {
                    assert(spec_more_tickets_after(
                        old(self).last_ticket_id,
                        old(self).ticket_range_for_address@,
                        old(self).ticket_batch@,
                        pairs@.take(k as int + 1),
                    ) == spec_more_tickets_step(pre.0, pre.1, pre.2, buyer, nr));
                    lemma_more_tickets_err_stays(
                        old(self).last_ticket_id,
                        old(self).ticket_range_for_address@,
                        old(self).ticket_batch@,
                        pairs@,
                        k as int + 1,
                    );
                    assert(spec_more_tickets_step(pre.0, pre.1, pre.2, buyer, nr) == Err::<(usize, Map<Address, TicketRange>, Map<usize, TicketBatch>), LaunchpadError>(e));
                }
                return Err(e);
            }
            k = k + 1;
        }
        assert(pairs@.take(n as int) =~= pairs@);
        self.last_ticket_id = last;
        self.ticket_range_for_address = ranges;
        self.ticket_batch = batches;
        Ok(())
    }

    fn get_ticket_range_for_address(&self, address: Address) -> (r: Option<(usize, usize)>)
        ensures
            r is None <==> !self.ticket_range_for_address@.contains_key(address),
            r matches Some(p) ==> p.0 == self.ticket_range_for_address@[address].first_id
                && p.1 == self.ticket_range_for_address@[address].last_id,
    {
        match self.ticket_range_for_address.get(&address) {
            Some(range) => Some((range.first_id, range.last_id)),
            None => None,
        }
    }

    fn get_total_number_of_tickets_for_address(&self, address: Address) -> (r: usize)
        ensures
            r == self.total_tickets_of(address),
    {
        match self.ticket_range_for_address.get(&address) {
            Some(range) => {
                assert(range_wf(self.ticket_range_for_address@[address]));
                range.last_id + 1 - range.first_id
            },
            None => 0,
        }
    }

    /// Gives a user without tickets the ids that follow the last one handed out.
    fn try_create_tickets(&mut self, buyer: Address, nr_tickets: usize) -> (r: Result<(), LaunchpadError>)
        ensures
            r is Ok <==> !old(self).ticket_range_for_address@.contains_key(buyer)
                && old(self).last_ticket_id + nr_tickets < usize::MAX,
            r == Err::<(), _>(LaunchpadError::DuplicateEntry) <==> old(self).ticket_range_for_address@.contains_key(buyer),
            r is Ok ==> {
                let first = (old(self).last_ticket_id + 1) as usize;
                let last = (old(self).last_ticket_id + nr_tickets) as usize;
                &&& final(self).ticket_range_for_address@ == old(self).ticket_range_for_address@.insert(
                    buyer,
                    TicketRange { first_id: first, last_id: last },
                )
                &&& final(self).ticket_batch@ == old(self).ticket_batch@.insert(
                    first,
                    TicketBatch { address: buyer, nr_tickets },
                )
                &&& final(self).last_ticket_id == last
                &&& final(self).same_except_tickets(old(self))
            },
            r is Err ==> *final(self) == *old(self),
            final(self).wf(),
    {
        if self.ticket_range_for_address.contains_key(&buyer) {
            return Err(LaunchpadError::DuplicateEntry);
        }
        self.set_ticket_range_batch_for_user(buyer, nr_tickets)
    }

    /// Gives a user the ids that follow the last one handed out, replacing the user's
    /// range.
    fn set_ticket_range_batch_for_user(&mut self, buyer: Address, nr_tickets: usize) -> (r: Result<(), LaunchpadError>)
        ensures
            r is Ok <==> old(self).last_ticket_id + nr_tickets < usize::MAX,
            r is Err ==> r == Err::<(), _>(LaunchpadError::ArithmeticError) && *final(self) == *old(self),
            r is Ok ==> {
                let first = (old(self).last_ticket_id + 1) as usize;
                let last = (old(self).last_ticket_id + nr_tickets) as usize;
                &&& final(self).ticket_range_for_address@ == old(self).ticket_range_for_address@.insert(
                    buyer,
                    TicketRange { first_id: first, last_id: last },
                )
                &&& final(self).ticket_batch@ == old(self).ticket_batch@.insert(
                    first,
                    TicketBatch { address: buyer, nr_tickets },
                )
                &&& final(self).last_ticket_id == last
                &&& final(self).same_except_tickets(old(self))
            },
            final(self).wf(),
    {
        if nr_tickets >= usize::MAX - self.last_ticket_id {
            return Err(LaunchpadError::ArithmeticError);
        }
        let first_ticket_id = self.last_ticket_id + 1;
        let last_ticket_id = self.last_ticket_id + nr_tickets;
        self.ticket_range_for_address.insert(buyer, TicketRange { first_id: first_ticket_id, last_id: last_ticket_id });
        self.ticket_batch.insert(first_ticket_id, TicketBatch { address: buyer, nr_tickets });
        self.last_ticket_id = last_ticket_id;
        Ok(())
    }

    /// Gives a user with tickets a larger allotment; the old batch is kept for the zero
    /// account.
    fn try_add_more_tickets_for_same_user(&mut self, buyer: Address, nr_tickets: usize) -> (r: Result<(), LaunchpadError>)
        ensures
            match spec_more_tickets_step(old(self).last_ticket_id, old(self).ticket_range_for_address@, old(self).ticket_batch@, buyer, nr_tickets) {
                Err(e) => r == Err::<(), _>(e) && *final(self) == *old(self),
                Ok((l, rs, bs)) => {
                    &&& r is Ok
                    &&& final(self).last_ticket_id == l
                    &&& final(self).ticket_range_for_address@ == rs
                    &&& final(self).ticket_batch@ == bs
                    &&& final(self).same_except_tickets(old(self))
                },
            },
            final(self).wf(),
    {
        let old_ticket_range = self.try_get_ticket_range(buyer)?;
        assert(range_wf(old_ticket_range));
        let nr_old_tickets = old_ticket_range.last_id + 1 - old_ticket_range.first_id;
        if nr_old_tickets >= nr_tickets {
            return Err(LaunchpadError::NewTicketsNotMore);
        }
        if nr_tickets >= usize::MAX - self.last_ticket_id {
            return Err(LaunchpadError::ArithmeticError);
        }
        self.ticket_batch.insert(old_ticket_range.first_id, TicketBatch { address: 0, nr_tickets: nr_old_tickets });
        let r = self.set_ticket_range_batch_for_user(buyer, nr_tickets);
        assert(r is Ok);
        r
    }

    fn try_get_ticket_range(&self, address: Address) -> (r: Result<TicketRange, LaunchpadError>)
        ensures
            r is Ok <==> self.ticket_range_for_address@.contains_key(address),
            r matches Ok(range) ==> range == self.ticket_range_for_address@[address],
            r is Err ==> r == Err::<TicketRange, _>(LaunchpadError::NoTickets),
    {
        match self.ticket_range_for_address.get(&address) {
            Some(range) => Ok(*range),
            None => Err(LaunchpadError::NoTickets),
        }
    }

    fn get_ticket_id_from_pos(&self, ticket_pos: usize) -> (r: usize)
        ensures
            r == self.ticket_id_at(ticket_pos),
    {
        let ticket_id = get_by_index(&self.ticket_pos_to_id, ticket_pos, 0);
        if ticket_id == 0 {
            ticket_pos
        } else {
            ticket_id
        }
    }

    fn get_total_tickets(&self) -> (r: usize)
        ensures
            r == self.last_ticket_id,
    {
        self.last_ticket_id
    }
}

/// Once a prefix of the list is refused, the whole list is refused with the same error.
pub proof fn lemma_more_tickets_err_stays(
    last: usize,
    ranges: Map<Address, TicketRange>,
    batches: Map<usize, TicketBatch>,
    pairs: Seq<(Address, usize)>,
    k: int,
)
    requires
        0 <= k <= pairs.len(),
        spec_more_tickets_after(last, ranges, batches, pairs.take(k)) is Err,
    ensures
        spec_more_tickets_after(last, ranges, batches, pairs) == spec_more_tickets_after(last, ranges, batches, pairs.take(k)),
    decreases pairs.len() - k,
{
    if k < pairs.len() {
        assert(pairs.take(k + 1).drop_last() =~= pairs.take(k));
        lemma_more_tickets_err_stays(last, ranges, batches, pairs, k + 1);
    } else {
        assert(pairs.take(k) =~= pairs);
    }
}

} // verus!
