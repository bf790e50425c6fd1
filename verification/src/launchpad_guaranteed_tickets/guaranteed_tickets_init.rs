//! Adding tickets with guarantees: a user who stakes at least the threshold, and a user
//! who migrated tokens, each have a winning ticket reserved out of the winning tickets.

use std::collections::HashMap;
use std::collections::HashSet;
use vstd::prelude::*;

use crate::launchpad_common::config::LaunchpadState;
use crate::launchpad_common::errors::LaunchpadError;
use crate::launchpad_common::launch_stage::{LaunchStage, LaunchStageModule};
use crate::launchpad_common::storage::{stored_or, Address};
use crate::launchpad_common::tickets::{spec_tickets_after, spec_total_tickets, TicketsModule};
use crate::launchpad_guaranteed_tickets::state::GuaranteedTicketsLaunchpadV1;
use crate::launchpad_guaranteed_tickets_v2::guaranteed_tickets_init::{
    lemma_swap_remove, spec_set_push, spec_swap_remove, vec_contains, vec_set_insert, vec_swap_remove_value,
};

verus! {

broadcast use vstd::std_specs::hash::group_hash_axioms;

/// The guaranteed tickets a staking user gets.
pub const STAKING_GUARANTEED_TICKETS_NO: usize = 1;

/// The guaranteed tickets a user who migrated tokens gets.
pub const MIGRATION_GUARANTEED_TICKETS_NO: usize = 1;

/// What a user was allotted: staking and energy tickets, and guaranteed tickets.
#[derive(Debug, Clone, Copy, PartialEq, Eq, Structural)]
pub struct UserTicketsStatus {
    pub staking_tickets_allowance: usize,
    pub energy_tickets_allowance: usize,
    pub staking_guaranteed_tickets: usize,
    pub migration_guaranteed_tickets: usize,
}

impl UserTicketsStatus {
    pub fn new(staking_tickets_allowance: usize, energy_tickets_allowance: usize) -> (r: UserTicketsStatus)
        ensures
            r == (UserTicketsStatus {
                staking_tickets_allowance,
                energy_tickets_allowance,
                staking_guaranteed_tickets: 0,
                migration_guaranteed_tickets: 0,
            }),
    {
        UserTicketsStatus {
            staking_tickets_allowance,
            energy_tickets_allowance,
            staking_guaranteed_tickets: 0usize,
            migration_guaranteed_tickets: 0usize,
        }
    }
}

/// A user with staking tickets, energy tickets, and whether the user migrated tokens.
pub type GuaranteedEntryV1 = (Address, usize, usize, bool);

/// The user and ticket count of each entry.
pub open spec fn spec_v1_pairs(entries: Seq<GuaranteedEntryV1>) -> Seq<(Address, usize)> {
    Seq::new(entries.len(), |i: int| (entries[i].0, (entries[i].1 + entries[i].2) as usize))
}

/// The first refusal met when the entries are added in order from the `i`-th.
pub open spec fn spec_v1_entries_error(
    held: Set<Address>,
    last: int,
    winning: int,
    guaranteed: int,
    min_confirmed: usize,
    entries: Seq<GuaranteedEntryV1>,
    i: int,
) -> Option<LaunchpadError>
    decreases entries.len() - i,
{
    if i < 0 || i >= entries.len() {
        None
    } else {
        let (buyer, staking, energy, migrated) = entries[i];
        let staked = staking >= min_confirmed;
        let w1 = if staked { winning - 1 } else { winning };
        let g1 = if staked { guaranteed + 1 } else { guaranteed };
        if staking + energy > usize::MAX {
            Some(LaunchpadError::ArithmeticError)
        } else if held.contains(buyer) {
            Some(LaunchpadError::DuplicateEntry)
        } else if last + staking + energy >= usize::MAX {
            Some(LaunchpadError::ArithmeticError)
        } else if staked && winning == 0 {
            Some(LaunchpadError::TooManyGuaranteedUsers)
        } else if staked && guaranteed + 1 > usize::MAX {
            Some(LaunchpadError::ArithmeticError)
        } else if migrated && w1 == 0 {
            Some(LaunchpadError::TooManyGuaranteedUsers)
        } else if migrated && g1 + 1 > usize::MAX {
            Some(LaunchpadError::ArithmeticError)
        } else {
            let w2 = if migrated { w1 - 1 } else { w1 };
            let g2 = if migrated { g1 + 1 } else { g1 };
            spec_v1_entries_error(held.insert(buyer), last + staking + energy, w2, g2, min_confirmed, entries, i + 1)
        }
    }
}

/// The first refusal of adding a list of entries at a round.
pub open spec fn spec_v1_add_error(s: &GuaranteedTicketsLaunchpadV1, entries: Seq<GuaranteedEntryV1>, round: u64) -> Option<LaunchpadError> {
    if s.base.stage_at(round) != LaunchStage::AddTickets {
        Some(LaunchpadError::AddTicketsPeriodPassed)
    } else {
        spec_v1_entries_error(
            s.base.ticket_range_for_address@.dom(),
            s.base.last_ticket_id as int,
            s.base.nr_winning_tickets as int,
            s.total_guaranteed_tickets as int,
            s.min_confirmed_for_guaranteed_ticket,
            entries,
            0,
        )
    }
}

/// The users with a guaranteed ticket, the winning and guaranteed counts and the
/// statuses after a list of entries is added.
pub open spec fn spec_v1_after(
    ws: Seq<Address>,
    winning: int,
    guaranteed: int,
    statuses: Map<Address, UserTicketsStatus>,
    min_confirmed: usize,
    entries: Seq<GuaranteedEntryV1>,
) -> (Seq<Address>, int, int, Map<Address, UserTicketsStatus>)
    decreases entries.len(),
{
    if entries.len() == 0 {
        (ws, winning, guaranteed, statuses)
    } else {
        let (w, n, g, st) = spec_v1_after(ws, winning, guaranteed, statuses, min_confirmed, entries.drop_last());
        let (buyer, staking, energy, migrated) = entries.last();
        let staked = staking >= min_confirmed;
        let k: int = (if staked { 1int } else { 0 }) + (if migrated { 1int } else { 0 });
        let status = UserTicketsStatus {
            staking_tickets_allowance: staking,
            energy_tickets_allowance: energy,
            staking_guaranteed_tickets: if staked { STAKING_GUARANTEED_TICKETS_NO } else { 0 },
            migration_guaranteed_tickets: if migrated { MIGRATION_GUARANTEED_TICKETS_NO } else { 0 },
        };
        (if k > 0 { spec_set_push(w, buyer) } else { w }, n - k, g + k, st.insert(buyer, status))
    }
}

/// What adding a list of entries did: the tickets of each entry were created, the
/// guarantees are as `spec_v1_after` has them, and nothing else changed.
pub open spec fn spec_v1_add_effect(old: &GuaranteedTicketsLaunchpadV1, new: &GuaranteedTicketsLaunchpadV1, entries: Seq<GuaranteedEntryV1>) -> bool {
    let (l, rs, bs) = spec_tickets_after(
        old.base.last_ticket_id,
        old.base.ticket_range_for_address@,
        old.base.ticket_batch@,
        spec_v1_pairs(entries),
    );
    let (w, nw, g, st) = spec_v1_after(
        old.users_with_guaranteed_ticket@,
        old.base.nr_winning_tickets as int,
        old.total_guaranteed_tickets as int,
        old.user_ticket_status@,
        old.min_confirmed_for_guaranteed_ticket,
        entries,
    );
    &&& new.base.last_ticket_id == l
    &&& new.base.ticket_range_for_address@ == rs
    &&& new.base.ticket_batch@ == bs
    &&& new.users_with_guaranteed_ticket@ == w
    &&& new.base.nr_winning_tickets == nw
    &&& new.total_guaranteed_tickets == g
    &&& new.user_ticket_status@ == st
    &&& new.base == (LaunchpadState {
        last_ticket_id: new.base.last_ticket_id,
        ticket_range_for_address: new.base.ticket_range_for_address,
        ticket_batch: new.base.ticket_batch,
        nr_winning_tickets: new.base.nr_winning_tickets,
        ..old.base
    })
    &&& *new == (GuaranteedTicketsLaunchpadV1 {
        base: new.base,
        users_with_guaranteed_ticket: new.users_with_guaranteed_ticket,
        total_guaranteed_tickets: new.total_guaranteed_tickets,
        user_ticket_status: new.user_ticket_status,
        ..*old
    })
    &&& new.wf()
}

/// The guaranteed tickets of a status.
pub open spec fn spec_v1_status_sum(s: UserTicketsStatus) -> int {
    s.staking_guaranteed_tickets + s.migration_guaranteed_tickets
}

/// The status read where none is stored.
pub open spec fn default_v1_status() -> UserTicketsStatus {
    UserTicketsStatus { staking_tickets_allowance: 0, energy_tickets_allowance: 0, staking_guaranteed_tickets: 0, migration_guaranteed_tickets: 0 }
}

/// The users with a guaranteed ticket, the winning tickets given back so far, the
/// guaranteed count and the statuses, while blacklisted users are cleared.
pub type ClearModelV1 = (Seq<Address>, int, int, Map<Address, UserTicketsStatus>);

/// Why clearing a blacklisted user fails: a count leaves the integers.
pub open spec fn spec_v1_clear_step_error(m: ClearModelV1, u: Address) -> bool {
    let (ws, removed, guaranteed, statuses) = m;
    let s = stored_or(statuses, u, default_v1_status());
    ws.contains(u) && (removed + spec_v1_status_sum(s) > usize::MAX || spec_v1_status_sum(s) > guaranteed)
}

/// A blacklisted user leaves the users with a guaranteed ticket, and the user's status
/// goes; its guaranteed tickets are counted to go back to the winning tickets.
pub open spec fn spec_v1_clear_step(m: ClearModelV1, u: Address) -> ClearModelV1 {
    let (ws, removed, guaranteed, statuses) = m;
    if ws.contains(u) {
        let s = stored_or(statuses, u, default_v1_status());
        (spec_swap_remove(ws, u), removed + spec_v1_status_sum(s), guaranteed - spec_v1_status_sum(s), statuses.remove(u))
    } else {
        m
    }
}

/// The model after each user of a list is cleared in turn.
pub open spec fn spec_v1_clear_after(m: ClearModelV1, users: Seq<Address>) -> ClearModelV1
    decreases users.len(),
{
    if users.len() == 0 {
        m
    } else {
        spec_v1_clear_step(spec_v1_clear_after(m, users.drop_last()), users.last())
    }
}

/// Whether clearing each user of a list in turn fails somewhere, or the winning tickets
/// given back then leave the integers.
pub open spec fn spec_v1_clear_fails(s: &GuaranteedTicketsLaunchpadV1, users: Seq<Address>) -> bool {
    let m0: ClearModelV1 = (s.users_with_guaranteed_ticket@, 0int, s.total_guaranteed_tickets as int, s.user_ticket_status@);
    ||| exists|i: int| 0 <= i < users.len() && #[trigger] spec_v1_clear_step_error(spec_v1_clear_after(m0, users.take(i)), users[i])
    ||| s.base.nr_winning_tickets + spec_v1_clear_after(m0, users).1 > usize::MAX
}

/// Adding users with guarantees, and clearing them when blacklisted.
pub trait GuaranteedTicketsInitModule {
    /// The ticket tables are well formed and the sets of users hold no user twice.
    spec fn guaranteed_wf(&self) -> bool;

    fn add_tickets_with_guaranteed_winners(&mut self, current_round: u64, entries: &Vec<GuaranteedEntryV1>) -> Result<(), LaunchpadError>
        requires
            old(self).guaranteed_wf(),
    ;

    fn clear_users_with_guaranteed_ticket_after_blacklist(&mut self, users: &Vec<Address>) -> Result<(), LaunchpadError>
        requires
            old(self).guaranteed_wf(),
    ;
}

impl GuaranteedTicketsLaunchpadV1 {
    /// Checks a list of entries before anything is added.
    fn check_v1_entries(&self, entries: &Vec<GuaranteedEntryV1>) -> (r: Result<(), LaunchpadError>)
        ensures
            r is Err <==> spec_v1_entries_error(
                self.base.ticket_range_for_address@.dom(),
                self.base.last_ticket_id as int,
                self.base.nr_winning_tickets as int,
                self.total_guaranteed_tickets as int,
                self.min_confirmed_for_guaranteed_ticket,
                entries@,
                0,
            ) is Some,
            r matches Err(e) ==> spec_v1_entries_error(
                self.base.ticket_range_for_address@.dom(),
                self.base.last_ticket_id as int,
                self.base.nr_winning_tickets as int,
                self.total_guaranteed_tickets as int,
                self.min_confirmed_for_guaranteed_ticket,
                entries@,
                0,
            ) == Some(e),
    {
        let ghost held0 = self.base.ticket_range_for_address@.dom();
        let ghost mut held = held0;
        let min_confirmed = self.min_confirmed_for_guaranteed_ticket;
        let mut seen: HashSet<Address> = HashSet::new();
        let mut last: usize = self.base.last_ticket_id;
        let mut winning: usize = self.base.nr_winning_tickets;
        let mut guaranteed: usize = self.total_guaranteed_tickets;
        let n = entries.len();
        let mut i: usize = 0;
        while i < n
            invariant
                n == entries@.len(),
                i <= n,
                held0 == self.base.ticket_range_for_address@.dom(),
                min_confirmed == self.min_confirmed_for_guaranteed_ticket,
                spec_v1_entries_error(
                    held0,
                    self.base.last_ticket_id as int,
                    self.base.nr_winning_tickets as int,
                    self.total_guaranteed_tickets as int,
                    min_confirmed,
                    entries@,
                    0,
                ) == spec_v1_entries_error(held, last as int, winning as int, guaranteed as int, min_confirmed, entries@, i as int),
                forall|a: Address| #[trigger] held.contains(a) <==> self.base.ticket_range_for_address@.contains_key(a)
                    || seen@.contains(a),
            decreases n - i,
        {
            let (buyer, staking, energy, migrated) = entries[i];
            if staking > usize::MAX - energy {
                return Err(LaunchpadError::ArithmeticError);
            }
            let nr = staking + energy;
            if self.base.ticket_range_for_address.contains_key(&buyer) || seen.contains(&buyer) {
                return Err(LaunchpadError::DuplicateEntry);
            }
            if nr >= usize::MAX - last {
                return Err(LaunchpadError::ArithmeticError);
            }
            if staking >= min_confirmed {
                if winning == 0 {
                    return Err(LaunchpadError::TooManyGuaranteedUsers);
                }
                if guaranteed == usize::MAX {
                    return Err(LaunchpadError::ArithmeticError);
                }
                winning = winning - 1;
                guaranteed = guaranteed + 1;
            }
            if migrated {
                if winning == 0 {
                    return Err(LaunchpadError::TooManyGuaranteedUsers);
                }
                if guaranteed == usize::MAX {
                    return Err(LaunchpadError::ArithmeticError);
                }
                winning = winning - 1;
                guaranteed = guaranteed + 1;
            }
            seen.insert(buyer);
            proof {
                held = held.insert(buyer);
            }
            last = last + nr;
            i = i + 1;
        }
        Ok(())
    }
}

impl GuaranteedTicketsInitModule for GuaranteedTicketsLaunchpadV1 {
    open spec fn guaranteed_wf(&self) -> bool {
        self.wf()
    }

    /// Creates the tickets of each entry in turn; a user who stakes at least the
    /// threshold, and one who migrated tokens, each get a winning ticket reserved.  The
    /// whole call is refused, and changes nothing, on the first entry that cannot be added.
    fn add_tickets_with_guaranteed_winners(&mut self, current_round: u64, entries: &Vec<GuaranteedEntryV1>) -> (r: Result<(), LaunchpadError>)
        ensures
            r is Err <==> spec_v1_add_error(old(self), entries@, current_round) is Some,
            r matches Err(e) ==> spec_v1_add_error(old(self), entries@, current_round) == Some(e),
            r is Err ==> *final(self) == *old(self),
            r is Ok ==> spec_v1_add_effect(old(self), final(self), entries@),
            final(self).base.nr_winning_tickets + final(self).total_guaranteed_tickets
                == old(self).base.nr_winning_tickets + old(self).total_guaranteed_tickets,
    {
        self.base.require_add_tickets_period(current_round)?;
        self.check_v1_entries(entries)?;
        let ghost old_self = *self;
        let ghost pairs = spec_v1_pairs(entries@);
        let min_confirmed = self.min_confirmed_for_guaranteed_ticket;
        let n = entries.len();
        let mut k: usize = 0;
        while k < n
            invariant
                n == entries@.len(),
                k <= n,
                pairs == spec_v1_pairs(entries@),
                min_confirmed == old_self.min_confirmed_for_guaranteed_ticket,
                old_self.wf(),
                self.wf(),
                spec_v1_entries_error(
                    self.base.ticket_range_for_address@.dom(),
                    self.base.last_ticket_id as int,
                    self.base.nr_winning_tickets as int,
                    self.total_guaranteed_tickets as int,
                    min_confirmed,
                    entries@,
                    k as int,
                ) is None,
                ({
                    let (l, rs, bs) = spec_tickets_after(
                        old_self.base.last_ticket_id,
                        old_self.base.ticket_range_for_address@,
                        old_self.base.ticket_batch@,
                        pairs.take(k as int),
                    );
                    &&& self.base.last_ticket_id == l
                    &&& self.base.ticket_range_for_address@ == rs
                    &&& self.base.ticket_batch@ == bs
                }),
                ({
                    let (w, nw, g, st) = spec_v1_after(
                        old_self.users_with_guaranteed_ticket@,
                        old_self.base.nr_winning_tickets as int,
                        old_self.total_guaranteed_tickets as int,
                        old_self.user_ticket_status@,
                        min_confirmed,
                        entries@.take(k as int),
                    );
                    &&& self.users_with_guaranteed_ticket@ == w
                    &&& self.base.nr_winning_tickets == nw
                    &&& self.total_guaranteed_tickets == g
                    &&& self.user_ticket_status@ == st
                }),
                self.base == (LaunchpadState {
                    last_ticket_id: self.base.last_ticket_id,
                    ticket_range_for_address: self.base.ticket_range_for_address,
                    ticket_batch: self.base.ticket_batch,
                    nr_winning_tickets: self.base.nr_winning_tickets,
                    ..old_self.base
                }),
                *self == (GuaranteedTicketsLaunchpadV1 {
                    base: self.base,
                    users_with_guaranteed_ticket: self.users_with_guaranteed_ticket,
                    total_guaranteed_tickets: self.total_guaranteed_tickets,
                    user_ticket_status: self.user_ticket_status,
                    ..old_self
                }),
                self.base.nr_winning_tickets + self.total_guaranteed_tickets
                    == old_self.base.nr_winning_tickets + old_self.total_guaranteed_tickets,
            decreases n - k,
        {
            let (buyer, staking, energy, migrated) = entries[k];
            proof {
                assert(pairs.take(k as int + 1).drop_last() =~= pairs.take(k as int));
                assert(entries@.take(k as int + 1).drop_last() =~= entries@.take(k as int));
            }
            let ghost old_dom = self.base.ticket_range_for_address@.dom();
            let created = self.base.try_create_tickets(buyer, staking + energy);
            assert(created is Ok);
            proof {
                assert(self.base.ticket_range_for_address@.dom() =~= old_dom.insert(buyer));
            }
            let mut user_ticket_status = UserTicketsStatus::new(staking, energy);
            let mut joined = false;
            if staking >= min_confirmed {
                self.base.nr_winning_tickets = self.base.nr_winning_tickets - STAKING_GUARANTEED_TICKETS_NO;
                self.total_guaranteed_tickets = self.total_guaranteed_tickets + STAKING_GUARANTEED_TICKETS_NO;
                user_ticket_status.staking_guaranteed_tickets = STAKING_GUARANTEED_TICKETS_NO;
                joined = true;
            }
            if migrated {
                self.base.nr_winning_tickets = self.base.nr_winning_tickets - MIGRATION_GUARANTEED_TICKETS_NO;
                self.total_guaranteed_tickets = self.total_guaranteed_tickets + MIGRATION_GUARANTEED_TICKETS_NO;
                user_ticket_status.migration_guaranteed_tickets = MIGRATION_GUARANTEED_TICKETS_NO;
                joined = true;
            }
            if joined {
                vec_set_insert(&mut self.users_with_guaranteed_ticket, buyer);
            }
            self.user_ticket_status.insert(buyer, user_ticket_status);
            k = k + 1;
        }
        proof {
            assert(pairs.take(n as int) =~= pairs);
            assert(entries@.take(n as int) =~= entries@);
        }
        Ok(())
    }

    /// Each blacklisted user with a guaranteed ticket leaves the list of such users, the
    /// user's status goes, and the guaranteed tickets go back to the winning tickets.
    /// The whole call is refused, and changes nothing, where a count would leave the
    /// integers.
    fn clear_users_with_guaranteed_ticket_after_blacklist(&mut self, users: &Vec<Address>) -> (r: Result<(), LaunchpadError>)
        ensures
            r is Err <==> spec_v1_clear_fails(old(self), users@),
            r is Err ==> r == Err::<(), _>(LaunchpadError::ArithmeticError) && *final(self) == *old(self),
            r is Ok ==> {
                let m0: ClearModelV1 = (old(self).users_with_guaranteed_ticket@, 0int, old(self).total_guaranteed_tickets as int, old(self).user_ticket_status@);
                let (ws, removed, guaranteed, statuses) = spec_v1_clear_after(m0, users@);
                &&& final(self).users_with_guaranteed_ticket@ == ws
                &&& final(self).base.nr_winning_tickets == old(self).base.nr_winning_tickets + removed
                &&& final(self).total_guaranteed_tickets == guaranteed
                &&& final(self).user_ticket_status@ == statuses
                &&& *final(self) == (GuaranteedTicketsLaunchpadV1 {
                    base: LaunchpadState { nr_winning_tickets: final(self).base.nr_winning_tickets, ..old(self).base },
                    users_with_guaranteed_ticket: final(self).users_with_guaranteed_ticket,
                    total_guaranteed_tickets: final(self).total_guaranteed_tickets,
                    user_ticket_status: final(self).user_ticket_status,
                    ..*old(self)
                })
                &&& final(self).wf()
            },
            final(self).base.nr_winning_tickets + final(self).total_guaranteed_tickets
                == old(self).base.nr_winning_tickets + old(self).total_guaranteed_tickets,
    {
        let ghost m0: ClearModelV1 = (self.users_with_guaranteed_ticket@, 0int, self.total_guaranteed_tickets as int, self.user_ticket_status@);
        let ghost old_self = *self;
        let mut whitelist = self.users_with_guaranteed_ticket.clone();
        let mut statuses = self.user_ticket_status.clone();
        let mut removed: usize = 0;
        let mut guaranteed: usize = self.total_guaranteed_tickets;
        let n = users.len();
        let mut k: usize = 0;
        while k < n
            invariant
                n == users@.len(),
                k <= n,
                old_self == *old(self),
                old_self.wf(),
                m0 == (old_self.users_with_guaranteed_ticket@, 0int, old_self.total_guaranteed_tickets as int, old_self.user_ticket_status@),
                *self == old_self,
                forall|i: int| 0 <= i < k ==> !#[trigger] spec_v1_clear_step_error(spec_v1_clear_after(m0, users@.take(i)), users@[i]),
                spec_v1_clear_after(m0, users@.take(k as int)) == (whitelist@, removed as int, guaranteed as int, statuses@),
                whitelist@.no_duplicates(),
                removed + guaranteed == old_self.total_guaranteed_tickets,
            decreases n - k,
        {
            let user = users[k];
            proof {
                assert(users@.take(k as int + 1).drop_last() =~= users@.take(k as int));
                lemma_swap_remove(whitelist@, user);
            }
            let ghost before = (whitelist@, removed as int, guaranteed as int, statuses@);
            if vec_swap_remove_value(&mut whitelist, user) {
                let status = match statuses.remove(&user) {
                    Some(s) => s,
                    None => UserTicketsStatus::new(0, 0),
                };
                let sum = status.staking_guaranteed_tickets as u128 + status.migration_guaranteed_tickets as u128;
                if sum > (usize::MAX - removed) as u128 || sum > guaranteed as u128 {
                    proof {
                        assert(spec_v1_clear_step_error(spec_v1_clear_after(m0, users@.take(k as int)), users@[k as int]));
                    }
                    return Err(LaunchpadError::ArithmeticError);
                }
                removed = removed + status.staking_guaranteed_tickets + status.migration_guaranteed_tickets;
                guaranteed = guaranteed - status.staking_guaranteed_tickets - status.migration_guaranteed_tickets;
                proof {
                    assert(statuses@ =~= before.3.remove(user));
                }
            }
            k = k + 1;
            proof {
                assert forall|i: int| 0 <= i < k implies !#[trigger] spec_v1_clear_step_error(spec_v1_clear_after(m0, users@.take(i)), users@[i]) by {
                    if i == k - 1 {
                        assert(users@.take(i) =~= users@.take(k as int - 1));
                    }
                }
            }
        }
        assert(users@.take(n as int) =~= users@);
        if removed > usize::MAX - self.base.nr_winning_tickets {
            return Err(LaunchpadError::ArithmeticError);
        }
        self.users_with_guaranteed_ticket = whitelist;
        self.user_ticket_status = statuses;
        self.total_guaranteed_tickets = guaranteed;
        self.base.nr_winning_tickets = self.base.nr_winning_tickets + removed;
        Ok(())
    }
}

} // verus!
