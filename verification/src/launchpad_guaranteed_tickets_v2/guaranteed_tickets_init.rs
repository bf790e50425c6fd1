//! Adding tickets with guaranteed winners: some of a user's tickets are sure to win when
//! the user confirms enough of them.  Each guaranteed ticket is reserved out of the
//! winning tickets, and goes back to them when the user is blacklisted.

use std::collections::HashMap;
use std::collections::HashSet;
use vstd::prelude::*;

use crate::launchpad_common::config::{CallContext, LaunchpadState};
use crate::launchpad_common::errors::LaunchpadError;
use crate::launchpad_common::launch_stage::{LaunchStage, LaunchStageModule};
use crate::launchpad_common::storage::{stored_or, Address};
use crate::launchpad_common::tickets::{spec_tickets_after, spec_total_tickets, TicketsModule};
use crate::launchpad_guaranteed_tickets_v2::state::GuaranteedTicketsLaunchpad;

verus! {

broadcast use vstd::std_specs::hash::group_hash_axioms;

/// The most tiers of guaranteed tickets a user may have.
pub const MAX_GUARANTEED_TICKETS_ENTRIES: usize = 10;

/// Tickets guaranteed to win once the user confirms at least `min_confirmed_tickets`.
#[derive(Debug, Clone, Copy, PartialEq, Eq, Structural)]
pub struct GuaranteedTicketInfo {
    pub guaranteed_tickets: usize,
    pub min_confirmed_tickets: usize,
}

/// What a user was allotted: tickets, and guaranteed winning tickets by tier.
pub struct UserTicketsStatus {
    pub total_tickets_allowance: usize,
    pub guaranteed_tickets_info: Vec<GuaranteedTicketInfo>,
}

/// The totals of one call that adds tickets.
#[derive(Debug, Clone, Copy, PartialEq, Eq, Structural)]
pub struct AddTicketsResult {
    pub total_users_count: usize,
    pub total_tickets_added: usize,
    pub total_guaranteed_tickets_added: usize,
}

/// A user with tickets, and tiers of guaranteed tickets as `(guaranteed, min confirmed)`.
pub type GuaranteedTicketsEntry = (Address, usize, Vec<(usize, usize)>);

impl View for UserTicketsStatus {
    type V = (usize, Seq<GuaranteedTicketInfo>);

    open spec fn view(&self) -> (usize, Seq<GuaranteedTicketInfo>) {
        (self.total_tickets_allowance, self.guaranteed_tickets_info@)
    }
}

/// The statuses of a table of users, each taken by its view.
pub open spec fn statuses_view(m: Map<Address, UserTicketsStatus>) -> Map<Address, (usize, Seq<GuaranteedTicketInfo>)> {
    m.map_values(|s: UserTicketsStatus| s@)
}

impl UserTicketsStatus {
    pub fn new(total_tickets_allowance: usize) -> (r: UserTicketsStatus)
        ensures
            r.total_tickets_allowance == total_tickets_allowance,
            r.guaranteed_tickets_info@.len() == 0,
    {
        UserTicketsStatus { total_tickets_allowance, guaranteed_tickets_info: Vec::new() }
    }
}

/// The guaranteed tickets of some tiers.
pub open spec fn spec_info_sum(infos: Seq<GuaranteedTicketInfo>) -> int
    decreases infos.len(),
{
    if infos.len() == 0 {
        0
    } else {
        spec_info_sum(infos.drop_last()) + infos.last().guaranteed_tickets
    }
}

/// The guaranteed tickets of some raw tiers.
pub open spec fn spec_raw_sum(raw: Seq<(usize, usize)>) -> int
    decreases raw.len(),
{
    if raw.len() == 0 {
        0
    } else {
        spec_raw_sum(raw.drop_last()) + raw.last().0
    }
}

/// The guaranteed tickets of the first `n` entries.
pub open spec fn spec_entries_sum(entries: Seq<GuaranteedTicketsEntry>, n: int) -> int
    decreases n,
{
    if n <= 0 {
        0
    } else {
        spec_entries_sum(entries, n - 1) + spec_raw_sum(entries[n - 1].2@)
    }
}

/// The user and ticket count of each entry.
pub open spec fn spec_entry_pairs(entries: Seq<GuaranteedTicketsEntry>) -> Seq<(Address, usize)> {
    Seq::new(entries.len(), |i: int| (entries[i].0, entries[i].1))
}

/// The tiers of an entry as stored.
pub open spec fn spec_infos_of(raw: Seq<(usize, usize)>) -> Seq<GuaranteedTicketInfo> {
    Seq::new(raw.len(), |i: int| GuaranteedTicketInfo { guaranteed_tickets: raw[i].0, min_confirmed_tickets: raw[i].1 })
}

/// The first refusal met when the tiers of an entry are read in order from the `j`-th,
/// with `acc` guaranteed tickets counted before it: a tier guaranteeing more tickets than
/// it asks to confirm, or a count that leaves the integers.
pub open spec fn spec_tiers_error(raw: Seq<(usize, usize)>, j: int, acc: int) -> Option<LaunchpadError>
    decreases raw.len() - j,
{
    if j < 0 || j >= raw.len() {
        None
    } else if raw[j].0 > raw[j].1 {
        Some(LaunchpadError::InvalidGuaranteedTicketMinConfirmed)
    } else if acc + raw[j].0 > usize::MAX {
        Some(LaunchpadError::ArithmeticError)
    } else {
        spec_tiers_error(raw, j + 1, acc + raw[j].0)
    }
}

/// The first refusal met when the entries are added in order from the `i`-th, with the
/// users in `held` already holding tickets, `last` the last ticket id handed out, and
/// `winning` and `guaranteed` the winning and guaranteed tickets so far.
pub open spec fn spec_entries_error(
    held: Set<Address>,
    last: int,
    winning: int,
    guaranteed: int,
    entries: Seq<GuaranteedTicketsEntry>,
    i: int,
) -> Option<LaunchpadError>
    decreases entries.len() - i,
{
    if i < 0 || i >= entries.len() {
        None
    } else {
        let (buyer, nr, raw) = entries[i];
        let sum = spec_raw_sum(raw@);
        if raw@.len() > MAX_GUARANTEED_TICKETS_ENTRIES {
            Some(LaunchpadError::TooManyGuaranteedTicketsEntries)
        } else if held.contains(buyer) {
            Some(LaunchpadError::DuplicateEntry)
        } else if last + nr >= usize::MAX {
            Some(LaunchpadError::ArithmeticError)
        } else if spec_tiers_error(raw@, 0, 0) is Some {
            spec_tiers_error(raw@, 0, 0)
        } else if sum > winning {
            Some(LaunchpadError::NotEnoughWinningTickets)
        } else if guaranteed + sum > usize::MAX {
            Some(LaunchpadError::ArithmeticError)
        } else {
            spec_entries_error(held.insert(buyer), last + nr, winning - sum, guaranteed + sum, entries, i + 1)
        }
    }
}

/// The first refusal of adding a list of entries to a launchpad at a round.
pub open spec fn spec_add_guaranteed_error(s: &GuaranteedTicketsLaunchpad, entries: Seq<GuaranteedTicketsEntry>, round: u64) -> Option<LaunchpadError> {
    if s.base.stage_at(round) != LaunchStage::AddTickets {
        Some(LaunchpadError::AddTicketsPeriodPassed)
    } else {
        spec_entries_error(
            s.base.ticket_range_for_address@.dom(),
            s.base.last_ticket_id as int,
            s.base.nr_winning_tickets as int,
            s.total_guaranteed_tickets as int,
            entries,
            0,
        )
    }
}

/// Appends an account to a list that holds each account once, unless it is there.
pub open spec fn spec_set_push(ws: Seq<Address>, a: Address) -> Seq<Address> {
    if ws.contains(a) {
        ws
    } else {
        ws.push(a)
    }
}

/// The users with guaranteed tickets, the winning and guaranteed ticket counts and the
/// users' statuses after a list of entries is added: a user whose tiers guarantee some
/// tickets joins the list and has them moved from the winning to the guaranteed count,
/// and every user's status records the allowance and the tiers, if they guarantee any.
pub open spec fn spec_guaranteed_after(
    ws: Seq<Address>,
    winning: int,
    guaranteed: int,
    statuses: Map<Address, (usize, Seq<GuaranteedTicketInfo>)>,
    entries: Seq<GuaranteedTicketsEntry>,
) -> (Seq<Address>, int, int, Map<Address, (usize, Seq<GuaranteedTicketInfo>)>)
    decreases entries.len(),
{
    if entries.len() == 0 {
        (ws, winning, guaranteed, statuses)
    } else {
        let (w, n, g, st) = spec_guaranteed_after(ws, winning, guaranteed, statuses, entries.drop_last());
        let (buyer, nr, raw) = entries.last();
        let sum = spec_raw_sum(raw@);
        if sum > 0 {
            (spec_set_push(w, buyer), n - sum, g + sum, st.insert(buyer, (nr, spec_infos_of(raw@))))
        } else {
            (w, n, g, st.insert(buyer, (nr, Seq::empty())))
        }
    }
}

pub proof fn lemma_raw_sum_nonneg(raw: Seq<(usize, usize)>)
    ensures
        spec_raw_sum(raw) >= 0,
    decreases raw.len(),
{
    if raw.len() > 0 {
        lemma_raw_sum_nonneg(raw.drop_last());
    }
}

pub proof fn lemma_entries_sum_monotonic(entries: Seq<GuaranteedTicketsEntry>, i: int, n: int)
    requires
        0 <= i <= n,
    ensures
        0 <= spec_entries_sum(entries, i) <= spec_entries_sum(entries, n),
    decreases n,
{
    if n > i {
        lemma_entries_sum_monotonic(entries, i, n - 1);
        lemma_raw_sum_nonneg(entries[n - 1].2@);
    } else {
        lemma_entries_sum_nonneg(entries, n);
    }
}

pub proof fn lemma_entries_sum_nonneg(entries: Seq<GuaranteedTicketsEntry>, n: int)
    ensures
        spec_entries_sum(entries, n) >= 0,
    decreases n,
{
    if n > 0 {
        lemma_entries_sum_nonneg(entries, n - 1);
        lemma_raw_sum_nonneg(entries[n - 1].2@);
    }
}

/// Tells whether an account is in a vector.
pub fn vec_contains(v: &Vec<Address>, a: Address) -> (r: bool)
    ensures
        r == v@.contains(a),
{
    let mut i: usize = 0;
    while i < v.len()
        invariant
            i <= v@.len(),
            forall|j: int| 0 <= j < i ==> v@[j] != a,
        decreases v.len() - i,
    {
        if v[i] == a {
            return true;
        }
        i = i + 1;
    }
    false
}

/// Adds an account to a vector that holds each account once.
pub fn vec_set_insert(v: &mut Vec<Address>, a: Address) -> (r: bool)
    requires
        old(v)@.no_duplicates(),
    ensures
        r == !old(v)@.contains(a),
        final(v)@ == if r { old(v)@.push(a) } else { old(v)@ },
        final(v)@.no_duplicates(),
        final(v)@.to_set() == old(v)@.to_set().insert(a),
{
    if vec_contains(v, a) {
        assert(v@.to_set() =~= v@.to_set().insert(a));
        false
    } else {
        let ghost old_v = v@;
        v.push(a);
        assert(v@.to_set() =~= old_v.to_set().insert(a)) by {
            assert forall|x: Address| v@.contains(x) <==> old_v.contains(x) || x == a by {
                if v@.contains(x) && x != a {
                    let j = choose|j: int| 0 <= j < v@.len() && v@[j] == x;
                    assert(old_v[j] == x);
                }
                if old_v.contains(x) {
                    let j = choose|j: int| 0 <= j < old_v.len() && old_v[j] == x;
                    assert(v@[j] == x);
                }
                if x == a {
                    assert(v@[old_v.len() as int] == x);
                }
            }
        }
        true
    }
}

/// A user's status taken by its view: the tickets allowed and the tiers.
pub type StatusView = (usize, Seq<GuaranteedTicketInfo>);

/// The status read where none is stored.
pub open spec fn default_status() -> StatusView {
    (0, Seq::empty())
}

/// The list after an account leaves it the way it leaves an unordered set: the last
/// account takes its place.
pub open spec fn spec_swap_remove(ws: Seq<Address>, a: Address) -> Seq<Address> {
    if ws.contains(a) {
        ws.update(ws.index_of(a), ws.last()).drop_last()
    } else {
        ws
    }
}

pub proof fn lemma_swap_remove(ws: Seq<Address>, a: Address)
    requires
        ws.no_duplicates(),
    ensures
        spec_swap_remove(ws, a).no_duplicates(),
        forall|x: Address| #[trigger] spec_swap_remove(ws, a).contains(x) <==> ws.contains(x) && x != a,
{
    if ws.contains(a) {
        let i = ws.index_of(a);
        let r = spec_swap_remove(ws, a);
        let n = ws.len();
        assert(0 <= i < n && ws[i] == a);
        assert forall|x: Address| #[trigger] r.contains(x) <==> ws.contains(x) && x != a by {
            if r.contains(x) {
                let j = choose|j: int| 0 <= j < r.len() && r[j] == x;
                if j == i {
                    assert(ws[n - 1] == x);
                } else {
                    assert(ws[j] == x);
                }
            }
            if ws.contains(x) && x != a {
                let j = choose|j: int| 0 <= j < n && ws[j] == x;
                if j == n - 1 {
                    assert(r[i] == x);
                } else {
                    assert(r[j] == x);
                }
            }
        }
        assert forall|p: int, q: int| 0 <= p < r.len() && 0 <= q < r.len() && p != q implies r[p] != r[q] by {
            if p == i {
                assert(r[p] == ws[n - 1]);
                assert(r[q] == ws[q]);
            } else if q == i {
                assert(r[q] == ws[n - 1]);
                assert(r[p] == ws[p]);
            } else {
                assert(r[p] == ws[p] && r[q] == ws[q]);
            }
        }
    }
}

/// Removes an account from a vector that holds each account once, the way it leaves an
/// unordered set.
pub fn vec_swap_remove_value(v: &mut Vec<Address>, a: Address) -> (r: bool)
    requires
        old(v)@.no_duplicates(),
    ensures
        r == old(v)@.contains(a),
        final(v)@ == spec_swap_remove(old(v)@, a),
{
    let mut i: usize = 0;
    while i < v.len()
        invariant
            v@ == old(v)@,
            v@.no_duplicates(),
            i <= v@.len(),
            forall|j: int| 0 <= j < i ==> v@[j] != a,
        decreases v.len() - i,
    {
        if v[i] == a {
            proof {
                assert(v@[i as int] == a);
                assert(v@.contains(a));
                let k = v@.index_of(a);
                assert(v@[k] == a);
                assert(k == i as int);
            }
            v.swap_remove(i);
            return true;
        }
        i = i + 1;
    }
    false
}

pub proof fn lemma_info_sum_prefix(infos: Seq<GuaranteedTicketInfo>, j: int)
    requires
        0 <= j <= infos.len(),
    ensures
        0 <= spec_info_sum(infos.take(j)) <= spec_info_sum(infos),
    decreases infos.len(),
{
    if infos.len() > 0 && j < infos.len() {
        assert(infos.drop_last().take(j) =~= infos.take(j));
        lemma_info_sum_prefix(infos.drop_last(), j);
    } else if j == infos.len() {
        assert(infos.take(j) =~= infos);
        lemma_info_sum_nonneg(infos);
    }
}

pub proof fn lemma_info_sum_nonneg(infos: Seq<GuaranteedTicketInfo>)
    ensures
        spec_info_sum(infos) >= 0,
    decreases infos.len(),
{
    if infos.len() > 0 {
        lemma_info_sum_nonneg(infos.drop_last());
    }
}

/// The tickets guaranteed by some tiers, unless counting them leaves the integers.
pub fn sum_guaranteed(infos: &Vec<GuaranteedTicketInfo>) -> (r: Option<usize>)
    ensures
        r is None <==> spec_info_sum(infos@) > usize::MAX,
        r matches Some(x) ==> x == spec_info_sum(infos@),
{
    let mut acc: usize = 0;
    let mut j: usize = 0;
    while j < infos.len()
        invariant
            j <= infos@.len(),
            acc == spec_info_sum(infos@.take(j as int)),
        decreases infos.len() - j,
    {
        proof {
            assert(infos@.take(j as int + 1).drop_last() =~= infos@.take(j as int));
        }
        let g = infos[j].guaranteed_tickets;
        if g > usize::MAX - acc {
            proof {
                lemma_info_sum_prefix(infos@, j as int + 1);
            }
            return None;
        }
        acc = acc + g;
        j = j + 1;
    }
    proof {
        assert(infos@.take(j as int) =~= infos@);
    }
    Some(acc)
}

/// What the blacklist part of the guaranteed tickets keeps: the users with guaranteed
/// tickets, the winning and guaranteed ticket counts, and the statuses of the users and
/// of the blacklisted users.
pub type GuaranteedModel = (Seq<Address>, int, int, Map<Address, StatusView>, Map<Address, StatusView>);

/// The model of a launchpad.
pub open spec fn guaranteed_model(s: &GuaranteedTicketsLaunchpad) -> GuaranteedModel {
    (
        s.users_with_guaranteed_ticket@,
        s.base.nr_winning_tickets as int,
        s.total_guaranteed_tickets as int,
        statuses_view(s.user_ticket_status@),
        statuses_view(s.blacklist_user_ticket_status@),
    )
}

/// Why a blacklisted user's guaranteed tickets cannot go back to the winning tickets:
/// counting them, adding them to the winning tickets or taking them from the guaranteed
/// tickets leaves the integers.
pub open spec fn spec_clear_step_error(m: GuaranteedModel, u: Address) -> Option<LaunchpadError> {
    let (ws, winning, guaranteed, statuses, black) = m;
    let rec = spec_info_sum(stored_or(statuses, u, default_status()).1);
    if ws.contains(u) && (rec > usize::MAX || winning + rec > usize::MAX || rec > guaranteed) {
        Some(LaunchpadError::ArithmeticError)
    } else {
        None
    }
}

/// A blacklisted user leaves the users with guaranteed tickets, which go back to the
/// winning tickets, and the user's status moves to the blacklisted statuses.
pub open spec fn spec_clear_step(m: GuaranteedModel, u: Address) -> GuaranteedModel {
    let (ws, winning, guaranteed, statuses, black) = m;
    if ws.contains(u) {
        let status = stored_or(statuses, u, default_status());
        let rec = spec_info_sum(status.1);
        (spec_swap_remove(ws, u), winning + rec, guaranteed - rec, statuses.remove(u), black.insert(u, status))
    } else {
        m
    }
}

/// The model after each user of a list is blacklisted in turn.
pub open spec fn spec_clear_after(m: GuaranteedModel, users: Seq<Address>) -> GuaranteedModel
    decreases users.len(),
{
    if users.len() == 0 {
        m
    } else {
        spec_clear_step(spec_clear_after(m, users.drop_last()), users.last())
    }
}

/// The first refusal met when each user of a list is blacklisted in turn.
pub open spec fn spec_clear_error(m: GuaranteedModel, users: Seq<Address>) -> Option<LaunchpadError>
    decreases users.len(),
{
    if users.len() == 0 {
        None
    } else if spec_clear_error(m, users.drop_last()) is Some {
        spec_clear_error(m, users.drop_last())
    } else {
        spec_clear_step_error(spec_clear_after(m, users.drop_last()), users.last())
    }
}

pub proof fn lemma_clear_error_stays(m: GuaranteedModel, users: Seq<Address>, j: int)
    requires
        0 <= j <= users.len(),
        spec_clear_error(m, users.take(j)) is Some,
    ensures
        spec_clear_error(m, users) == spec_clear_error(m, users.take(j)),
    decreases users.len(),
{
    if j < users.len() {
        assert(users.drop_last().take(j) =~= users.take(j));
        lemma_clear_error_stays(m, users.drop_last(), j);
    } else {
        assert(users.take(j) =~= users);
    }
}

/// Why a forgiven user's guaranteed tickets cannot be taken from the winning tickets
/// again: counting them leaves the integers, there are not enough winning tickets, or
/// the guaranteed count leaves the integers.
pub open spec fn spec_restore_step_error(m: GuaranteedModel, ranges: Set<Address>, u: Address) -> Option<LaunchpadError> {
    let (ws, winning, guaranteed, statuses, black) = m;
    if statuses.contains_key(u) || !ranges.contains(u) || !black.contains_key(u) {
        None
    } else {
        let added = spec_info_sum(black[u].1);
        if added > usize::MAX {
            Some(LaunchpadError::ArithmeticError)
        } else if added > 0 && added > winning {
            Some(LaunchpadError::WinningTicketsExceeded)
        } else if added > 0 && guaranteed + added > usize::MAX {
            Some(LaunchpadError::ArithmeticError)
        } else {
            None
        }
    }
}

/// A user taken off the blacklist who holds tickets and no status gets the blacklisted
/// status back; where it guarantees tickets, the user rejoins the users with guaranteed
/// tickets and they are taken from the winning tickets again.
pub open spec fn spec_restore_step(m: GuaranteedModel, ranges: Set<Address>, u: Address) -> GuaranteedModel {
    let (ws, winning, guaranteed, statuses, black) = m;
    if statuses.contains_key(u) || !ranges.contains(u) || !black.contains_key(u) {
        m
    } else {
        let status = black[u];
        let added = spec_info_sum(status.1);
        if added > 0 {
            (spec_set_push(ws, u), winning - added, guaranteed + added, statuses.insert(u, status), black.remove(u))
        } else {
            (ws, winning, guaranteed, statuses, black.remove(u))
        }
    }
}

/// The model after each user of a list is taken off the blacklist in turn.
pub open spec fn spec_restore_after(m: GuaranteedModel, ranges: Set<Address>, users: Seq<Address>) -> GuaranteedModel
    decreases users.len(),
{
    if users.len() == 0 {
        m
    } else {
        spec_restore_step(spec_restore_after(m, ranges, users.drop_last()), ranges, users.last())
    }
}

/// The first refusal met when each user of a list is taken off the blacklist in turn.
pub open spec fn spec_restore_error(m: GuaranteedModel, ranges: Set<Address>, users: Seq<Address>) -> Option<LaunchpadError>
    decreases users.len(),
{
    if users.len() == 0 {
        None
    } else if spec_restore_error(m, ranges, users.drop_last()) is Some {
        spec_restore_error(m, ranges, users.drop_last())
    } else {
        spec_restore_step_error(spec_restore_after(m, ranges, users.drop_last()), ranges, users.last())
    }
}

pub proof fn lemma_restore_error_stays(m: GuaranteedModel, ranges: Set<Address>, users: Seq<Address>, j: int)
    requires
        0 <= j <= users.len(),
        spec_restore_error(m, ranges, users.take(j)) is Some,
    ensures
        spec_restore_error(m, ranges, users) == spec_restore_error(m, ranges, users.take(j)),
    decreases users.len(),
{
    if j < users.len() {
        assert(users.drop_last().take(j) =~= users.take(j));
        lemma_restore_error_stays(m, ranges, users.drop_last(), j);
    } else {
        assert(users.take(j) =~= users);
    }
}

/// Blacklisting a user with guaranteed tickets and taking the user off the blacklist
/// again undoes itself: the winning and guaranteed ticket counts, the statuses and the
/// blacklisted statuses are back as they were, and the users with guaranteed tickets are
/// the same users (the list may be in another order).
pub proof fn lemma_blacklist_round_trip(m: GuaranteedModel, ranges: Set<Address>, u: Address)
    requires
        m.0.no_duplicates(),
        0 <= m.1 <= usize::MAX,
        0 <= m.2 <= usize::MAX,
        m.0.contains(u),
        m.3.contains_key(u),
        !m.4.contains_key(u),
        ranges.contains(u),
        spec_clear_step_error(m, u) is None,
        spec_info_sum(m.3[u].1) > 0,
    ensures
        ({
            let m2 = spec_restore_step(spec_clear_step(m, u), ranges, u);
            &&& spec_restore_step_error(spec_clear_step(m, u), ranges, u) is None
            &&& m2.1 == m.1
            &&& m2.2 == m.2
            &&& m2.3 == m.3
            &&& m2.4 == m.4
            &&& m2.0.to_set() == m.0.to_set()
            &&& m2.0.no_duplicates()
        }),
{
    let m1 = spec_clear_step(m, u);
    let m2 = spec_restore_step(m1, ranges, u);
    lemma_swap_remove(m.0, u);
    assert(!m1.0.contains(u));
    assert(m1.3 =~= m.3.remove(u));
    assert(m1.4 =~= m.4.insert(u, m.3[u]));
    assert(m2.0 == m1.0.push(u));
    assert(m2.3 =~= m.3);
    assert(m2.4 =~= m.4);
    assert(m2.0.to_set() =~= m.0.to_set()) by {
        assert forall|x: Address| m2.0.contains(x) <==> m.0.contains(x) by {
            if m2.0.contains(x) && x != u {
                let j = choose|j: int| 0 <= j < m2.0.len() && m2.0[j] == x;
                assert(m1.0[j] == x);
            }
            if m.0.contains(x) && x != u {
                assert(m1.0.contains(x));
                let j = choose|j: int| 0 <= j < m1.0.len() && m1.0[j] == x;
                assert(m2.0[j] == x);
            }
            if x == u {
                assert(m2.0[m1.0.len() as int] == u);
            }
        }
    }
    assert(m2.0.no_duplicates()) by {
        assert forall|i: int, j: int| 0 <= i < j < m2.0.len() implies m2.0[i] != m2.0[j] by {
            if j == m1.0.len() {
                assert(m1.0[i] == m2.0[i]);
                assert(m1.0.contains(m2.0[i]));
            } else {
                assert(m1.0[i] == m2.0[i] && m1.0[j] == m2.0[j]);
            }
        }
    }
}

/// What adding a list of entries did: the tickets of each entry were created in turn,
/// the users with guaranteed tickets, the counts and the statuses are as
/// `spec_guaranteed_after` has them, nothing else changed, and the totals are returned.
pub open spec fn spec_add_guaranteed_effect(
    old: &GuaranteedTicketsLaunchpad,
    new: &GuaranteedTicketsLaunchpad,
    entries: Seq<GuaranteedTicketsEntry>,
    res: AddTicketsResult,
) -> bool {
    let pairs = spec_entry_pairs(entries);
    let (l, rs, bs) = spec_tickets_after(
        old.base.last_ticket_id,
        old.base.ticket_range_for_address@,
        old.base.ticket_batch@,
        pairs,
    );
    let (w, nw, g, st) = spec_guaranteed_after(
        old.users_with_guaranteed_ticket@,
        old.base.nr_winning_tickets as int,
        old.total_guaranteed_tickets as int,
        statuses_view(old.user_ticket_status@),
        entries,
    );
    &&& new.base.last_ticket_id == l
    &&& new.base.ticket_range_for_address@ == rs
    &&& new.base.ticket_batch@ == bs
    &&& new.users_with_guaranteed_ticket@ == w
    &&& new.base.nr_winning_tickets == nw
    &&& new.total_guaranteed_tickets == g
    &&& statuses_view(new.user_ticket_status@) == st
    &&& new.base == (LaunchpadState {
        last_ticket_id: new.base.last_ticket_id,
        ticket_range_for_address: new.base.ticket_range_for_address,
        ticket_batch: new.base.ticket_batch,
        nr_winning_tickets: new.base.nr_winning_tickets,
        ..old.base
    })
    &&& *new == (GuaranteedTicketsLaunchpad {
        base: new.base,
        users_with_guaranteed_ticket: new.users_with_guaranteed_ticket,
        total_guaranteed_tickets: new.total_guaranteed_tickets,
        user_ticket_status: new.user_ticket_status,
        ..*old
    })
    &&& res.total_users_count == entries.len()
    &&& res.total_tickets_added == spec_total_tickets(pairs)
    &&& res.total_guaranteed_tickets_added == spec_entries_sum(entries, entries.len() as int)
    &&& new.guaranteed_wf()
}

/// What blacklisting a list of users did to the guaranteed tickets: the model is as
/// `spec_clear_after` has it and nothing else changed.
pub open spec fn spec_clear_effect(old: &GuaranteedTicketsLaunchpad, new: &GuaranteedTicketsLaunchpad, users: Seq<Address>) -> bool {
    &&& guaranteed_model(new) == spec_clear_after(guaranteed_model(old), users)
    &&& new.base == (LaunchpadState { nr_winning_tickets: new.base.nr_winning_tickets, ..old.base })
    &&& *new == (GuaranteedTicketsLaunchpad {
        base: new.base,
        users_with_guaranteed_ticket: new.users_with_guaranteed_ticket,
        total_guaranteed_tickets: new.total_guaranteed_tickets,
        user_ticket_status: new.user_ticket_status,
        blacklist_user_ticket_status: new.blacklist_user_ticket_status,
        ..*old
    })
    &&& new.guaranteed_wf()
}

/// What taking a list of users off the blacklist did to the guaranteed tickets: the model
/// is as `spec_restore_after` has it and nothing else changed.
pub open spec fn spec_restore_effect(old: &GuaranteedTicketsLaunchpad, new: &GuaranteedTicketsLaunchpad, users: Seq<Address>) -> bool {
    &&& guaranteed_model(new) == spec_restore_after(
        guaranteed_model(old),
        old.base.ticket_range_for_address@.dom(),
        users,
    )
    &&& new.base == (LaunchpadState { nr_winning_tickets: new.base.nr_winning_tickets, ..old.base })
    &&& *new == (GuaranteedTicketsLaunchpad {
        base: new.base,
        users_with_guaranteed_ticket: new.users_with_guaranteed_ticket,
        total_guaranteed_tickets: new.total_guaranteed_tickets,
        user_ticket_status: new.user_ticket_status,
        blacklist_user_ticket_status: new.blacklist_user_ticket_status,
        ..*old
    })
    &&& new.guaranteed_wf()
}

/// Blacklisting a user with guaranteed tickets and then taking the user off the
/// blacklist restores the launchpad: where the blacklisting call for the user alone
/// went through (`s0` to `s1`), the call that takes the user off again is not refused,
/// and where it went through (`s1` to `s2`) the winning and guaranteed ticket counts,
/// the users' statuses and the blacklisted statuses are as they were in `s0`, and the
/// users with guaranteed tickets are the same users.
pub proof fn lemma_blacklist_calls_round_trip(
    s0: GuaranteedTicketsLaunchpad,
    s1: GuaranteedTicketsLaunchpad,
    s2: GuaranteedTicketsLaunchpad,
    u: Address,
)
    requires
        s0.guaranteed_wf(),
        s0.users_with_guaranteed_ticket@.contains(u),
        statuses_view(s0.user_ticket_status@).contains_key(u),
        !statuses_view(s0.blacklist_user_ticket_status@).contains_key(u),
        s0.base.ticket_range_for_address@.dom().contains(u),
        spec_info_sum(statuses_view(s0.user_ticket_status@)[u].1) > 0,
        spec_clear_error(guaranteed_model(&s0), seq![u]) is None,
        spec_clear_effect(&s0, &s1, seq![u]),
    ensures
        spec_restore_error(guaranteed_model(&s1), s1.base.ticket_range_for_address@.dom(), seq![u]) is None,
        spec_restore_effect(&s1, &s2, seq![u]) ==> {
            &&& s2.base.nr_winning_tickets == s0.base.nr_winning_tickets
            &&& s2.total_guaranteed_tickets == s0.total_guaranteed_tickets
            &&& statuses_view(s2.user_ticket_status@) == statuses_view(s0.user_ticket_status@)
            &&& statuses_view(s2.blacklist_user_ticket_status@) == statuses_view(s0.blacklist_user_ticket_status@)
            &&& s2.users_with_guaranteed_ticket@.to_set() == s0.users_with_guaranteed_ticket@.to_set()
        },
{
    let m = guaranteed_model(&s0);
    let one = seq![u];
    assert(one.drop_last() =~= Seq::<Address>::empty());
    assert(one.last() == u);
    assert(spec_clear_after(m, one) == spec_clear_step(m, one.last()));
    assert(spec_clear_step_error(m, u) is None);
    let ranges = s0.base.ticket_range_for_address@.dom();
    assert(s1.base.ticket_range_for_address@.dom() == ranges);
    lemma_blacklist_round_trip(m, ranges, u);
    let m1 = guaranteed_model(&s1);
    assert(m1 == spec_clear_step(m, u));
    assert(spec_restore_after(m1, ranges, one.drop_last()) == m1);
    assert(spec_restore_error(m1, ranges, one.drop_last()) is None);
    assert(spec_restore_after(m1, ranges, one) == spec_restore_step(m1, ranges, one.last()));
    assert(spec_restore_error(m1, ranges, one) == spec_restore_step_error(m1, ranges, u));
}

/// Reads the tiers of an entry in order: the tickets they guarantee, and the tiers as
/// stored.
fn read_guaranteed_tiers(raw: &Vec<(usize, usize)>) -> (r: Result<(usize, Vec<GuaranteedTicketInfo>), LaunchpadError>)
    ensures
        r is Err <==> spec_tiers_error(raw@, 0, 0) is Some,
        r matches Err(e) ==> spec_tiers_error(raw@, 0, 0) == Some(e),
        r matches Ok((sum, infos)) ==> sum == spec_raw_sum(raw@) && infos@ == spec_infos_of(raw@),
{
    let mut acc: usize = 0;
    let mut infos: Vec<GuaranteedTicketInfo> = Vec::new();
    let mut j: usize = 0;
    while j < raw.len()
        invariant
            j <= raw@.len(),
            acc == spec_raw_sum(raw@.take(j as int)),
            spec_tiers_error(raw@, 0, 0) == spec_tiers_error(raw@, j as int, acc as int),
            infos@ == spec_infos_of(raw@.take(j as int)),
        decreases raw.len() - j,
    {
        let (guaranteed_tickets, min_confirmed_tickets) = raw[j];
        proof {
            assert(raw@.take(j as int + 1).drop_last() =~= raw@.take(j as int));
        }
        if guaranteed_tickets > min_confirmed_tickets {
            return Err(LaunchpadError::InvalidGuaranteedTicketMinConfirmed);
        }
        if guaranteed_tickets > usize::MAX - acc {
            return Err(LaunchpadError::ArithmeticError);
        }
        acc = acc + guaranteed_tickets;
        infos.push(GuaranteedTicketInfo { guaranteed_tickets, min_confirmed_tickets });
        j = j + 1;
        proof {
            assert(infos@ =~= spec_infos_of(raw@.take(j as int)));
        }
    }
    proof {
        assert(raw@.take(j as int) =~= raw@);
    }
    Ok((acc, infos))
}

impl GuaranteedTicketsLaunchpad {
    /// Checks a list of entries before anything is added, so that a refused list adds
    /// nothing.
    fn check_guaranteed_entries(&self, entries: &Vec<GuaranteedTicketsEntry>) -> (r: Result<(), LaunchpadError>)
        ensures
            r is Err <==> spec_entries_error(
                self.base.ticket_range_for_address@.dom(),
                self.base.last_ticket_id as int,
                self.base.nr_winning_tickets as int,
                self.total_guaranteed_tickets as int,
                entries@,
                0,
            ) is Some,
            r matches Err(e) ==> spec_entries_error(
                self.base.ticket_range_for_address@.dom(),
                self.base.last_ticket_id as int,
                self.base.nr_winning_tickets as int,
                self.total_guaranteed_tickets as int,
                entries@,
                0,
            ) == Some(e),
    {
        let ghost held0 = self.base.ticket_range_for_address@.dom();
        let ghost mut held = held0;
        let mut seen: HashSet<Address> = HashSet::new();
        let mut last: usize = self.base.last_ticket_id;
        let mut winning: usize = self.base.nr_winning_tickets;
        let mut guaranteed: usize = self.total_guaranteed_tickets;
        let n = entries.len();
        let mut i: usize = 0;
        while i < n
            invariant
                n == entries@.len(),
                i <= n,
                held0 == self.base.ticket_range_for_address@.dom(),
                spec_entries_error(
                    held0,
                    self.base.last_ticket_id as int,
                    self.base.nr_winning_tickets as int,
                    self.total_guaranteed_tickets as int,
                    entries@,
                    0,
                ) == spec_entries_error(held, last as int, winning as int, guaranteed as int, entries@, i as int),
                forall|a: Address| #[trigger] held.contains(a) <==> self.base.ticket_range_for_address@.contains_key(a)
                    || seen@.contains(a),
            decreases n - i,
        {
            let entry = &entries[i];
            let buyer = entry.0;
            let nr = entry.1;
            assert(entry.2@ == entries@[i as int].2@ && buyer == entries@[i as int].0 && nr == entries@[i as int].1);
            if entry.2.len() > MAX_GUARANTEED_TICKETS_ENTRIES {
                return Err(LaunchpadError::TooManyGuaranteedTicketsEntries);
            }
            if self.base.ticket_range_for_address.contains_key(&buyer) || seen.contains(&buyer) {
                return Err(LaunchpadError::DuplicateEntry);
            }
            if nr >= usize::MAX - last {
                return Err(LaunchpadError::ArithmeticError);
            }
            let sum = match read_guaranteed_tiers(&entry.2) {
                Ok((sum, _)) => sum,
                Err(e) => {
                    return Err(e);
                },
            };
            if sum > winning {
                return Err(LaunchpadError::NotEnoughWinningTickets);
            }
            if sum > usize::MAX - guaranteed {
                return Err(LaunchpadError::ArithmeticError);
            }
            seen.insert(buyer);
            proof {
                held = held.insert(buyer);
            }
            last = last + nr;
            winning = winning - sum;
            guaranteed = guaranteed + sum;
            i = i + 1;
        }
        Ok(())
    }
}

impl GuaranteedTicketsLaunchpad {
    /// Checks that every user of a list can be blacklisted, without changing anything.
    pub fn check_clear_users(&self, users: &Vec<Address>) -> (r: Result<(), LaunchpadError>)
        requires
            self.guaranteed_wf(),
        ensures
            r is Err <==> spec_clear_error(guaranteed_model(self), users@) is Some,
            r matches Err(e) ==> spec_clear_error(guaranteed_model(self), users@) == Some(e),
    {
        let ghost m0 = guaranteed_model(self);
        let n = users.len();
        // check every user first, so that a refused call changes nothing
        let mut ws = self.users_with_guaranteed_ticket.clone();
        let mut winning: usize = self.base.nr_winning_tickets;
        let mut guaranteed: usize = self.total_guaranteed_tickets;
        let mut k: usize = 0;
        while k < n
            invariant
                n == users@.len(),
                k <= n,
                m0 == guaranteed_model(self),
                spec_clear_error(m0, users@.take(k as int)) is None,
                ({
                    let (w, nw, g, st, bl) = spec_clear_after(m0, users@.take(k as int));
                    &&& ws@ == w
                    &&& winning == nw
                    &&& guaranteed == g
                    &&& forall|a: Address| #[trigger] w.contains(a) ==> stored_or(st, a, default_status()) == stored_or(m0.3, a, default_status())
                }),
                ws@.no_duplicates(),
            decreases n - k,
        {
            let u = users[k];
            proof {
                assert(users@.take(k as int + 1).drop_last() =~= users@.take(k as int));
                lemma_swap_remove(ws@, u);
            }
            if vec_contains(&ws, u) {
                let rec_opt = match self.user_ticket_status.get(&u) {
                    Some(st) => sum_guaranteed(&st.guaranteed_tickets_info),
                    None => Some(0),
                };
                let rec = match rec_opt {
                    Some(x) => x,
                    None => {
                        proof {
                            lemma_clear_error_stays(m0, users@, k as int + 1);
                        }
                        return Err(LaunchpadError::ArithmeticError);
                    },
                };
                if rec > usize::MAX - winning || rec > guaranteed {
                    proof {
                        lemma_clear_error_stays(m0, users@, k as int + 1);
                    }
                    return Err(LaunchpadError::ArithmeticError);
                }
                vec_swap_remove_value(&mut ws, u);
                winning = winning + rec;
                guaranteed = guaranteed - rec;
            }
            k = k + 1;
        }
        assert(users@.take(n as int) =~= users@);
        Ok(())
    }

    /// Checks that every user of a list can be taken off the blacklist, without changing
    /// anything.
    pub fn check_restore_users(&self, users: &Vec<Address>) -> (r: Result<(), LaunchpadError>)
        requires
            self.guaranteed_wf(),
        ensures
            r is Err <==> spec_restore_error(guaranteed_model(self), self.base.ticket_range_for_address@.dom(), users@) is Some,
            r matches Err(e) ==> spec_restore_error(guaranteed_model(self), self.base.ticket_range_for_address@.dom(), users@) == Some(e),
    {
        let ghost m0 = guaranteed_model(self);
        let ghost ranges = self.base.ticket_range_for_address@.dom();
        let n = users.len();
        // check every user first, so that a refused call changes nothing
        let mut ws = self.users_with_guaranteed_ticket.clone();
        let mut winning: usize = self.base.nr_winning_tickets;
        let mut guaranteed: usize = self.total_guaranteed_tickets;
        let mut done: HashSet<Address> = HashSet::new();
        let mut k: usize = 0;
        while k < n
            invariant
                n == users@.len(),
                k <= n,
                m0 == guaranteed_model(self),
                ranges == self.base.ticket_range_for_address@.dom(),
                spec_restore_error(m0, ranges, users@.take(k as int)) is None,
                ({
                    let (w, nw, g, st, bl) = spec_restore_after(m0, ranges, users@.take(k as int));
                    &&& ws@ == w
                    &&& winning == nw
                    &&& guaranteed == g
                    &&& forall|a: Address| !(#[trigger] done@.contains(a)) ==> st.contains_key(a) == m0.3.contains_key(a)
                        && bl.contains_key(a) == m0.4.contains_key(a) && (bl.contains_key(a) ==> bl[a] == m0.4[a])
                    &&& forall|a: Address| #[trigger] done@.contains(a) ==> !bl.contains_key(a)
                }),
                ws@.no_duplicates(),
            decreases n - k,
        {
            let u = users[k];
            proof {
                assert(users@.take(k as int + 1).drop_last() =~= users@.take(k as int));
                let cur = spec_restore_after(m0, ranges, users@.take(k as int));
                if done@.contains(u) {
                    assert(!cur.4.contains_key(u));
                } else {
                    assert(cur.3.contains_key(u) == m0.3.contains_key(u));
                    assert(cur.4.contains_key(u) == m0.4.contains_key(u));
                }
            }
            if !self.user_ticket_status.contains_key(&u) && self.base.ticket_range_for_address.contains_key(&u)
                && !done.contains(&u) {
                match self.blacklist_user_ticket_status.get(&u) {
                    None => {},
                    Some(status) => {
                        let added = match sum_guaranteed(&status.guaranteed_tickets_info) {
                            Some(x) => x,
                            None => {
                                proof {
                                    lemma_restore_error_stays(m0, ranges, users@, k as int + 1);
                                }
                                return Err(LaunchpadError::ArithmeticError);
                            },
                        };
                        if added > 0 {
                            if added > winning {
                                proof {
                                    lemma_restore_error_stays(m0, ranges, users@, k as int + 1);
                                }
                                return Err(LaunchpadError::WinningTicketsExceeded);
                            }
                            if added > usize::MAX - guaranteed {
                                proof {
                                    lemma_restore_error_stays(m0, ranges, users@, k as int + 1);
                                }
                                return Err(LaunchpadError::ArithmeticError);
                            }
                            vec_set_insert(&mut ws, u);
                            winning = winning - added;
                            guaranteed = guaranteed + added;
                        }
                        done.insert(u);
                    },
                }
            }
            k = k + 1;
        }
        assert(users@.take(n as int) =~= users@);
        Ok(())
    }
}

/// Adding users with guaranteed tickets, and moving their guaranteed tickets in and out
/// of the winning tickets when they are blacklisted or forgiven.
pub trait GuaranteedTicketsInitModule {
    /// The ticket tables are well formed and no user is listed twice with guaranteed tickets.
    spec fn guaranteed_wf(&self) -> bool;

    fn add_tickets_with_guaranteed_winners(&mut self, current_round: u64, entries: &Vec<GuaranteedTicketsEntry>) -> Result<AddTicketsResult, LaunchpadError>
        requires
            old(self).guaranteed_wf(),
    ;

    fn clear_users_with_guaranteed_ticket_after_blacklist(&mut self, users: &Vec<Address>) -> Result<(), LaunchpadError>
        requires
            old(self).guaranteed_wf(),
    ;

    fn remove_guaranteed_tickets_from_blacklist(&mut self, users: &Vec<Address>) -> Result<(), LaunchpadError>
        requires
            old(self).guaranteed_wf(),
    ;
}

impl GuaranteedTicketsInitModule for GuaranteedTicketsLaunchpad {
    open spec fn guaranteed_wf(&self) -> bool {
        &&& self.base.tickets_wf()
        &&& self.users_with_guaranteed_ticket@.no_duplicates()
    }

    /// Creates the tickets of each entry in turn and records its tiers; a user whose tiers
    /// guarantee tickets has them moved out of the winning tickets.  The whole call is
    /// refused, and changes nothing, on the first entry that cannot be added.
    fn add_tickets_with_guaranteed_winners(&mut self, current_round: u64, entries: &Vec<GuaranteedTicketsEntry>) -> (r: Result<AddTicketsResult, LaunchpadError>)
        ensures
            r is Err <==> spec_add_guaranteed_error(old(self), entries@, current_round) is Some,
            r matches Err(e) ==> spec_add_guaranteed_error(old(self), entries@, current_round) == Some(e),
            r is Err ==> *final(self) == *old(self),
            r matches Ok(res) ==> spec_add_guaranteed_effect(old(self), final(self), entries@, res),
            final(self).base.nr_winning_tickets + final(self).total_guaranteed_tickets
                == old(self).base.nr_winning_tickets + old(self).total_guaranteed_tickets,
    {
        self.base.require_add_tickets_period(current_round)?;
        self.check_guaranteed_entries(entries)?;
        let ghost old_self = *self;
        let ghost pairs = spec_entry_pairs(entries@);
        let n = entries.len();
        let mut total_tickets_added: usize = 0;
        let mut total_guaranteed_tickets_added: usize = 0;
        let mut k: usize = 0;
        while k < n
            invariant
                n == entries@.len(),
                k <= n,
                pairs == spec_entry_pairs(entries@),
                old_self.guaranteed_wf(),
                self.guaranteed_wf(),
                spec_entries_error(
                    self.base.ticket_range_for_address@.dom(),
                    self.base.last_ticket_id as int,
                    self.base.nr_winning_tickets as int,
                    self.total_guaranteed_tickets as int,
                    entries@,
                    k as int,
                ) is None,
                ({
                    let (l, rs, bs) = spec_tickets_after(
                        old_self.base.last_ticket_id,
                        old_self.base.ticket_range_for_address@,
                        old_self.base.ticket_batch@,
                        pairs.take(k as int),
                    );
                    &&& self.base.last_ticket_id == l
                    &&& self.base.ticket_range_for_address@ == rs
                    &&& self.base.ticket_batch@ == bs
                }),
                ({
                    let (w, nw, g, st) = spec_guaranteed_after(
                        old_self.users_with_guaranteed_ticket@,
                        old_self.base.nr_winning_tickets as int,
                        old_self.total_guaranteed_tickets as int,
                        statuses_view(old_self.user_ticket_status@),
                        entries@.take(k as int),
                    );
                    &&& self.users_with_guaranteed_ticket@ == w
                    &&& self.base.nr_winning_tickets == nw
                    &&& self.total_guaranteed_tickets == g
                    &&& statuses_view(self.user_ticket_status@) == st
                }),
                self.base == (LaunchpadState {
                    last_ticket_id: self.base.last_ticket_id,
                    ticket_range_for_address: self.base.ticket_range_for_address,
                    ticket_batch: self.base.ticket_batch,
                    nr_winning_tickets: self.base.nr_winning_tickets,
                    ..old_self.base
                }),
                *self == (GuaranteedTicketsLaunchpad {
                    base: self.base,
                    users_with_guaranteed_ticket: self.users_with_guaranteed_ticket,
                    total_guaranteed_tickets: self.total_guaranteed_tickets,
                    user_ticket_status: self.user_ticket_status,
                    ..old_self
                }),
                total_tickets_added == spec_total_tickets(pairs.take(k as int)),
                total_tickets_added == self.base.last_ticket_id - old_self.base.last_ticket_id,
                total_guaranteed_tickets_added == spec_entries_sum(entries@, k as int),
                total_guaranteed_tickets_added == self.total_guaranteed_tickets - old_self.total_guaranteed_tickets,
                self.base.nr_winning_tickets + self.total_guaranteed_tickets
                    == old_self.base.nr_winning_tickets + old_self.total_guaranteed_tickets,
            decreases n - k,
        {
            let entry = &entries[k];
            let buyer = entry.0;
            let nr = entry.1;
            assert(entry.2@ == entries@[k as int].2@ && buyer == entries@[k as int].0 && nr == entries@[k as int].1);
            proof {
                assert(pairs.take(k as int + 1).drop_last() =~= pairs.take(k as int));
                assert(entries@.take(k as int + 1).drop_last() =~= entries@.take(k as int));
            }
            let ghost old_dom = self.base.ticket_range_for_address@.dom();
            let created = self.base.try_create_tickets(buyer, nr);
            assert(created is Ok);
            proof {
                assert(self.base.ticket_range_for_address@.dom() =~= old_dom.insert(buyer));
            }
            let tiers = read_guaranteed_tiers(&entry.2);
            let (sum, infos) = match tiers {
                Ok(t) => t,
                Err(_) => {
                    return Err(LaunchpadError::ArithmeticError);
                },
            };
            let ghost old_statuses = self.user_ticket_status@;
            if sum > 0 {
                vec_set_insert(&mut self.users_with_guaranteed_ticket, buyer);
                self.base.nr_winning_tickets = self.base.nr_winning_tickets - sum;
                self.total_guaranteed_tickets = self.total_guaranteed_tickets + sum;
                self.user_ticket_status.insert(
                    buyer,
                    UserTicketsStatus { total_tickets_allowance: nr, guaranteed_tickets_info: infos },
                );
                assert(self.user_ticket_status@[buyer]@ == (nr, spec_infos_of(entries@[k as int].2@)));
            } else {
                let status = UserTicketsStatus::new(nr);
                assert(status.guaranteed_tickets_info@ =~= Seq::<GuaranteedTicketInfo>::empty());
                self.user_ticket_status.insert(buyer, status);
                assert(self.user_ticket_status@[buyer]@ == (nr, Seq::<GuaranteedTicketInfo>::empty()));
            }
            proof {
                assert(statuses_view(self.user_ticket_status@) =~= statuses_view(old_statuses).insert(
                    buyer,
                    self.user_ticket_status@[buyer]@,
                ));
            }
            total_tickets_added = total_tickets_added + nr;
            total_guaranteed_tickets_added = total_guaranteed_tickets_added + sum;
            k = k + 1;
        }
        proof {
            assert(pairs.take(n as int) =~= pairs);
            assert(entries@.take(n as int) =~= entries@);
        }
        Ok(AddTicketsResult {
            total_users_count: n,
            total_tickets_added,
            total_guaranteed_tickets_added,
        })
    }

    /// Each blacklisted user with guaranteed tickets leaves the list of such users; the
    /// guaranteed tickets go back to the winning tickets and the user's status is kept
    /// aside.  The whole call is refused, and changes nothing, where a count would leave
    /// the integers.
    fn clear_users_with_guaranteed_ticket_after_blacklist(&mut self, users: &Vec<Address>) -> (r: Result<(), LaunchpadError>)
        ensures
            r is Err <==> spec_clear_error(guaranteed_model(old(self)), users@) is Some,
            r matches Err(e) ==> spec_clear_error(guaranteed_model(old(self)), users@) == Some(e),
            r is Err ==> *final(self) == *old(self),
            r is Ok ==> spec_clear_effect(old(self), final(self), users@),
            final(self).base.nr_winning_tickets + final(self).total_guaranteed_tickets
                == old(self).base.nr_winning_tickets + old(self).total_guaranteed_tickets,
    {
        let ghost m0 = guaranteed_model(self);
        let n = users.len();
        self.check_clear_users(users)?;
        let ghost old_self = *self;
        let mut k: usize = 0;
        while k < n
            invariant
                n == users@.len(),
                k <= n,
                m0 == guaranteed_model(&old_self),
                old_self.guaranteed_wf(),
                spec_clear_error(m0, users@) is None,
                spec_clear_error(m0, users@.take(k as int)) is None,
                guaranteed_model(self) == spec_clear_after(m0, users@.take(k as int)),
                self.users_with_guaranteed_ticket@.no_duplicates(),
                self.base == (LaunchpadState { nr_winning_tickets: self.base.nr_winning_tickets, ..old_self.base }),
                *self == (GuaranteedTicketsLaunchpad {
                    base: self.base,
                    users_with_guaranteed_ticket: self.users_with_guaranteed_ticket,
                    total_guaranteed_tickets: self.total_guaranteed_tickets,
                    user_ticket_status: self.user_ticket_status,
                    blacklist_user_ticket_status: self.blacklist_user_ticket_status,
                    ..old_self
                }),
                self.base.nr_winning_tickets + self.total_guaranteed_tickets
                    == old_self.base.nr_winning_tickets + old_self.total_guaranteed_tickets,
            decreases n - k,
        {
            let u = users[k];
            proof {
                assert(users@.take(k as int + 1).drop_last() =~= users@.take(k as int));
                lemma_swap_remove(self.users_with_guaranteed_ticket@, u);
                if spec_clear_error(m0, users@.take(k as int + 1)) is Some {
                    lemma_clear_error_stays(m0, users@, k as int + 1);
                }
            }
            let ghost before = guaranteed_model(self);
            let was_whitelisted = vec_swap_remove_value(&mut self.users_with_guaranteed_ticket, u);
            if was_whitelisted {
                let status = match self.user_ticket_status.remove(&u) {
                    Some(st) => st,
                    None => UserTicketsStatus::new(0),
                };
                assert(status@ == stored_or(before.3, u, default_status()));
                let rec = match sum_guaranteed(&status.guaranteed_tickets_info) {
                    Some(x) => x,
                    None => {
                        return Err(LaunchpadError::ArithmeticError);
                    },
                };
                if rec > usize::MAX - self.base.nr_winning_tickets || rec > self.total_guaranteed_tickets {
                    return Err(LaunchpadError::ArithmeticError);
                }
                self.base.nr_winning_tickets = self.base.nr_winning_tickets + rec;
                self.total_guaranteed_tickets = self.total_guaranteed_tickets - rec;
                self.blacklist_user_ticket_status.insert(u, status);
                proof {
                    assert(statuses_view(self.user_ticket_status@) =~= before.3.remove(u));
                    assert(statuses_view(self.blacklist_user_ticket_status@) =~= before.4.insert(u, status@));
                }
            }
            k = k + 1;
        }
        assert(users@.take(n as int) =~= users@);
        Ok(())
    }

    /// Each user taken off the blacklist who holds tickets and no status gets back the
    /// status kept aside; where it guarantees tickets, they are taken from the winning
    /// tickets again.  The whole call is refused, and changes nothing, on the first user
    /// whose guaranteed tickets cannot be taken back.
    fn remove_guaranteed_tickets_from_blacklist(&mut self, users: &Vec<Address>) -> (r: Result<(), LaunchpadError>)
        ensures
            r is Err <==> spec_restore_error(guaranteed_model(old(self)), old(self).base.ticket_range_for_address@.dom(), users@) is Some,
            r matches Err(e) ==> spec_restore_error(guaranteed_model(old(self)), old(self).base.ticket_range_for_address@.dom(), users@) == Some(e),
            r is Err ==> *final(self) == *old(self),
            r is Ok ==> spec_restore_effect(old(self), final(self), users@),
            final(self).base.nr_winning_tickets + final(self).total_guaranteed_tickets
                == old(self).base.nr_winning_tickets + old(self).total_guaranteed_tickets,
    {
        let ghost m0 = guaranteed_model(self);
        let ghost ranges = self.base.ticket_range_for_address@.dom();
        let n = users.len();
        self.check_restore_users(users)?;
        let ghost old_self = *self;
        let mut k: usize = 0;
        while k < n
            invariant
                n == users@.len(),
                k <= n,
                m0 == guaranteed_model(&old_self),
                ranges == old_self.base.ticket_range_for_address@.dom(),
                old_self.guaranteed_wf(),
                spec_restore_error(m0, ranges, users@) is None,
                spec_restore_error(m0, ranges, users@.take(k as int)) is None,
                guaranteed_model(self) == spec_restore_after(m0, ranges, users@.take(k as int)),
                self.users_with_guaranteed_ticket@.no_duplicates(),
                self.base == (LaunchpadState { nr_winning_tickets: self.base.nr_winning_tickets, ..old_self.base }),
                *self == (GuaranteedTicketsLaunchpad {
                    base: self.base,
                    users_with_guaranteed_ticket: self.users_with_guaranteed_ticket,
                    total_guaranteed_tickets: self.total_guaranteed_tickets,
                    user_ticket_status: self.user_ticket_status,
                    blacklist_user_ticket_status: self.blacklist_user_ticket_status,
                    ..old_self
                }),
                self.base.nr_winning_tickets + self.total_guaranteed_tickets
                    == old_self.base.nr_winning_tickets + old_self.total_guaranteed_tickets,
            decreases n - k,
        {
            let u = users[k];
            proof {
                assert(users@.take(k as int + 1).drop_last() =~= users@.take(k as int));
                if spec_restore_error(m0, ranges, users@.take(k as int + 1)) is Some {
                    lemma_restore_error_stays(m0, ranges, users@, k as int + 1);
                }
            }
            let ghost before = guaranteed_model(self);
            if !self.user_ticket_status.contains_key(&u) && self.base.ticket_range_for_address.contains_key(&u) {
                match self.blacklist_user_ticket_status.remove(&u) {
                    None => {},
                    Some(status) => {
                        assert(status@ == before.4[u]);
                        let added = match sum_guaranteed(&status.guaranteed_tickets_info) {
                            Some(x) => x,
                            None => {
                                return Err(LaunchpadError::ArithmeticError);
                            },
                        };
                        if added > 0 {
                            if added > self.base.nr_winning_tickets || added > usize::MAX - self.total_guaranteed_tickets {
                                return Err(LaunchpadError::ArithmeticError);
                            }
                            vec_set_insert(&mut self.users_with_guaranteed_ticket, u);
                            self.base.nr_winning_tickets = self.base.nr_winning_tickets - added;
                            self.total_guaranteed_tickets = self.total_guaranteed_tickets + added;
                            self.user_ticket_status.insert(u, status);
                            proof {
                                assert(statuses_view(self.user_ticket_status@) =~= before.3.insert(u, before.4[u]));
                            }
                        }
                        proof {
                            assert(statuses_view(self.blacklist_user_ticket_status@) =~= before.4.remove(u));
                        }
                    },
                }
            }
            k = k + 1;
        }
        assert(users@.take(n as int) =~= users@);
        Ok(())
    }
}

} // verus!
