//! Releasing the launchpad tokens by milestones: at each milestone's round a percentage
//! of every winner's tokens becomes claimable.

use std::collections::HashMap;
use vstd::prelude::*;

use crate::launchpad_common::config::{CallContext, Payment, Transfer};
use crate::launchpad_common::errors::LaunchpadError;
use crate::launchpad_common::launch_stage::{LaunchStage, LaunchStageModule};
use crate::launchpad_common::storage::{get_by_address, same_bytes, stored_or, Address};
use crate::launchpad_common::common_events::stamped;
use crate::launchpad_guaranteed_tickets_v2::events::{EventsModule, SetUnlockScheduleEvent};
use crate::launchpad_guaranteed_tickets_v2::state::GuaranteedTicketsLaunchpad;

verus! {

broadcast use vstd::std_specs::hash::group_hash_axioms;

/// All of the tokens, in hundredths of a percent.
pub const MAX_PERCENTAGE: u64 = 10_000;

/// The most milestones a schedule may have.
pub const MAX_UNLOCK_MILESTONES_ENTRIES: usize = 60;

/// How far ahead of the current epoch a milestone may be.
pub const MAX_RELEASE_ROUND_DIFF: u64 = 26_280_000;

/// A percentage of the tokens that becomes claimable from an epoch on (`release_round`
/// counts epochs).
#[derive(Debug, Clone, Copy, PartialEq, Eq, Structural)]
pub struct UnlockMilestone {
    pub release_round: u64,
    pub percentage: u64,
}

/// The milestones of a release, in order.
pub struct UnlockSchedule {
    pub milestones: Vec<UnlockMilestone>,
}

/// The sum of the percentages of some milestones.
pub open spec fn spec_total_percentage(ms: Seq<UnlockMilestone>) -> int
    decreases ms.len(),
{
    if ms.len() == 0 {
        0
    } else {
        spec_total_percentage(ms.drop_last()) + ms.last().percentage
    }
}

/// A schedule that can be set at an epoch: at least one milestone, each at most 100%,
/// none before the epoch nor more than the allowed distance after it, in order, 100% in all.
pub open spec fn spec_valid_schedule(ms: Seq<UnlockMilestone>, current_epoch: u64) -> bool {
    &&& ms.len() > 0
    &&& forall|i: int| 0 <= i < ms.len() ==> (#[trigger] ms[i]).percentage <= MAX_PERCENTAGE
        && ms[i].release_round >= current_epoch
        && ms[i].release_round <= current_epoch + MAX_RELEASE_ROUND_DIFF
    &&& forall|i: int, j: int| 0 <= i < j < ms.len() ==> (#[trigger] ms[i]).release_round <= (#[trigger] ms[j]).release_round
    &&& spec_total_percentage(ms) == MAX_PERCENTAGE
}

/// The percentage released by an epoch: the milestones up to the first one still ahead.
pub open spec fn spec_released_percentage(ms: Seq<UnlockMilestone>, current_epoch: u64) -> int
    decreases ms.len(),
{
    if ms.len() == 0 {
        0
    } else if ms[0].release_round <= current_epoch {
        ms[0].percentage + spec_released_percentage(ms.skip(1), current_epoch)
    } else {
        0
    }
}

/// The schedule used when none was set: everything at epoch zero.
pub open spec fn default_milestones() -> Seq<UnlockMilestone> {
    seq![UnlockMilestone { release_round: 0, percentage: MAX_PERCENTAGE }]
}

pub proof fn lemma_total_percentage_prefix(ms: Seq<UnlockMilestone>, i: int)
    requires
        0 <= i < ms.len(),
    ensures
        spec_total_percentage(ms.take(i + 1)) == spec_total_percentage(ms.take(i)) + ms[i].percentage,
{
    assert(ms.take(i + 1).drop_last() =~= ms.take(i));
}

impl UnlockSchedule {
    pub fn new(milestones: Vec<UnlockMilestone>) -> (r: UnlockSchedule)
        ensures
            r.milestones@ == milestones@,
    {
        UnlockSchedule { milestones }
    }

    /// Everything released at epoch zero.
    pub fn default() -> (r: UnlockSchedule)
        ensures
            r.milestones@ == default_milestones(),
    {
        let mut milestones: Vec<UnlockMilestone> = Vec::new();
        milestones.push(UnlockMilestone { release_round: 0, percentage: MAX_PERCENTAGE });
        assert(milestones@ =~= default_milestones());
        UnlockSchedule { milestones }
    }

    /// Whether the schedule can be set at an epoch.
    pub fn validate(&self, current_epoch: u64) -> (r: bool)
        ensures
            r == spec_valid_schedule(self.milestones@, current_epoch),
    {
        let ms = &self.milestones;
        let n = ms.len();
        if n == 0 {
            return false;
        }
        let mut total_percentage: u64 = 0;
        let mut last_round: u64 = 0;
        let mut i: usize = 0;
        while i < n
            invariant
                ms@ == self.milestones@,
                n == ms@.len(),
                n > 0,
                i <= n,
                total_percentage == spec_total_percentage(ms@.take(i as int)),
                total_percentage <= MAX_PERCENTAGE,
                i > 0 ==> last_round == ms@[i - 1].release_round,
                i == 0 ==> last_round == 0,
                forall|j: int| 0 <= j < i ==> (#[trigger] ms@[j]).percentage <= MAX_PERCENTAGE
                    && ms@[j].release_round >= current_epoch
                    && ms@[j].release_round <= current_epoch + MAX_RELEASE_ROUND_DIFF,
                forall|j: int, k: int| 0 <= j < k < i ==> (#[trigger] ms@[j]).release_round <= (#[trigger] ms@[k]).release_round,
            decreases n - i,
        {
            let m = ms[i];
            if m.percentage > MAX_PERCENTAGE || m.release_round < current_epoch || m.release_round < last_round
                || m.release_round - current_epoch > MAX_RELEASE_ROUND_DIFF {
                proof {
                    assert(ms@[i as int] == m);
                    if i > 0 && m.release_round < last_round {
                        assert(ms@[i - 1].release_round > ms@[i as int].release_round);
                    }
                    assert(!spec_valid_schedule(ms@, current_epoch));
                }
                return false;
            }
            proof {
                lemma_total_percentage_prefix(ms@, i as int);
            }
            if total_percentage + m.percentage > MAX_PERCENTAGE {
                proof {
                    lemma_total_percentage_grows(ms@, i as int + 1);
                    assert(spec_total_percentage(ms@) > MAX_PERCENTAGE);
                    assert(!spec_valid_schedule(ms@, current_epoch));
                }
                return false;
            }
            total_percentage = total_percentage + m.percentage;
            last_round = m.release_round;
            i = i + 1;
            proof {
                assert forall|j: int, k: int| 0 <= j < k < i implies (#[trigger] ms@[j]).release_round <= (#[trigger] ms@[k]).release_round by {
                    if k == i - 1 && j < k {
                        if j < k - 1 {
                            assert(ms@[j].release_round <= ms@[k - 1].release_round);
                        }
                    }
                }
            }
        }
        assert(ms@.take(n as int) =~= ms@);
        total_percentage == MAX_PERCENTAGE
    }
}

/// The total percentage only grows as milestones are added.
pub proof fn lemma_total_percentage_grows(ms: Seq<UnlockMilestone>, i: int)
    requires
        0 <= i <= ms.len(),
    ensures
        spec_total_percentage(ms.take(i)) <= spec_total_percentage(ms),
    decreases ms.len() - i,
{
    if i < ms.len() {
        lemma_total_percentage_grows(ms, i + 1);
        lemma_total_percentage_prefix(ms, i);
    } else {
        assert(ms.take(i) =~= ms);
    }
}


/// The released percentage of the milestones from the `i`-th on, once the ones before are released.
proof fn lemma_released_step(ms: Seq<UnlockMilestone>, current_epoch: u64, i: int)
    requires
        0 <= i < ms.len(),
        ms[i].release_round <= current_epoch,
    ensures
        spec_released_percentage(ms.skip(i), current_epoch)
            == ms[i].percentage + spec_released_percentage(ms.skip(i + 1), current_epoch),
{
    assert(ms.skip(i)[0] == ms[i]);
    assert(ms.skip(i).skip(1) =~= ms.skip(i + 1));
}

/// The percentage released by an epoch.
pub fn released_percentage(ms: &Vec<UnlockMilestone>, current_epoch: u64) -> (r: Option<u64>)
    ensures
        r is Some <==> spec_released_percentage(ms@, current_epoch) <= u64::MAX,
        r matches Some(p) ==> p == spec_released_percentage(ms@, current_epoch),
{
    let n = ms.len();
    let mut total: u64 = 0;
    let mut i: usize = 0;
    assert(ms@.skip(0) =~= ms@);
    while i < n
        invariant
            n == ms@.len(),
            i <= n,
            total + spec_released_percentage(ms@.skip(i as int), current_epoch) == spec_released_percentage(ms@, current_epoch),
        decreases n - i,
    {
        let m = ms[i];
        if m.release_round > current_epoch {
            assert(spec_released_percentage(ms@.skip(i as int), current_epoch) == 0);
            return Some(total);
        }
        proof {
            lemma_released_step(ms@, current_epoch, i as int);
            lemma_released_nonneg(ms@.skip(i as int + 1), current_epoch);
        }
        if m.percentage > u64::MAX - total {
            return None;
        }
        total = total + m.percentage;
        i = i + 1;
    }
    assert(ms@.skip(n as int) =~= Seq::<UnlockMilestone>::empty());
    Some(total)
}

pub proof fn lemma_released_nonneg(ms: Seq<UnlockMilestone>, current_epoch: u64)
    ensures
        spec_released_percentage(ms, current_epoch) >= 0,
    decreases ms.len(),
{
    if ms.len() > 0 && ms[0].release_round <= current_epoch {
        lemma_released_nonneg(ms.skip(1), current_epoch);
    }
}

/// The milestones in force: the set schedule, or everything at epoch zero.
pub open spec fn schedule_in_force(s: &GuaranteedTicketsLaunchpad) -> Seq<UnlockMilestone> {
    match s.unlock_schedule {
        Some(schedule) => schedule.milestones@,
        None => default_milestones(),
    }
}

/// What a user can claim by an epoch, or `None` where the contract refuses.
pub open spec fn spec_claimable_tokens(s: &GuaranteedTicketsLaunchpad, address: Address, current_epoch: u64) -> Option<int> {
    spec_claimable_from(
        s,
        stored_or(s.user_total_claimable_balance@, address, 0) as int,
        stored_or(s.user_claimed_balance@, address, 0) as int,
        current_epoch,
    )
}

/// The tokens claimable now by a user entitled to `total` tokens who claimed `claimed`.
pub open spec fn spec_claimable_from(s: &GuaranteedTicketsLaunchpad, total: int, claimed: int, current_epoch: u64) -> Option<int> {
    let pct = spec_released_percentage(schedule_in_force(s), current_epoch);
    let now = total * pct / (MAX_PERCENTAGE as int);
    if total == 0 {
        Some(0)
    } else if claimed >= total || pct > u64::MAX || total * pct > u128::MAX {
        None
    } else if claimed >= now {
        Some(0)
    } else {
        Some(now - claimed)
    }
}

/// The refunds of a list of transfers, as (account, amount) pairs.
pub open spec fn refund_pairs(transfers: Seq<Transfer>) -> Seq<(Address, u128)> {
    transfers.map_values(|t: Transfer| (t.to, t.amount))
}

/// One user of a refund run: `done` are the users handled before, `st` the refunds made
/// so far and what is left of the payment.  A user whose winning tickets were paid back
/// already, earlier in the run, has nothing left to refund.
pub open spec fn refund_step(
    balances: Map<Address, u128>,
    claimed: Map<Address, u128>,
    done: Seq<Address>,
    user: Address,
    per_ticket: u128,
    price: u128,
    st: (Seq<(Address, u128)>, u128),
) -> Result<(Seq<(Address, u128)>, u128), LaunchpadError> {
    let total: int = if done.contains(user) { 0 } else { stored_or(balances, user, 0) as int };
    let refund: int = if per_ticket == 0 { 0 } else { (total / (per_ticket as int)) * price };
    if stored_or(claimed, user, 0) != 0 {
        Err(LaunchpadError::UserAlreadyClaimedTokens)
    } else if total == 0 {
        Ok(st)
    } else if per_ticket == 0 || refund > u128::MAX {
        Err(LaunchpadError::ArithmeticError)
    } else if st.1 < refund {
        Err(LaunchpadError::InsufficientFundsDeposited)
    } else {
        Ok((st.0.push((user, refund as u128)), (st.1 - refund) as u128))
    }
}

/// Refunding the winning tickets of `users`, in order, out of `payment`: the refunds
/// made and what is left of the payment, or the error that stops the run.
pub open spec fn spec_refund_run(
    balances: Map<Address, u128>,
    claimed: Map<Address, u128>,
    users: Seq<Address>,
    per_ticket: u128,
    price: u128,
    payment: u128,
) -> Result<(Seq<(Address, u128)>, u128), LaunchpadError>
    decreases users.len(),
{
    if users.len() == 0 {
        Ok((Seq::empty(), payment))
    } else {
        match spec_refund_run(balances, claimed, users.drop_last(), per_ticket, price, payment) {
            Err(e) => Err(e),
            Ok(st) => refund_step(balances, claimed, users.drop_last(), users.last(), per_ticket, price, st),
        }
    }
}

/// Once a refund run fails on a prefix of the users, it fails with that error on all of them.
proof fn lemma_refund_error_persists(
    balances: Map<Address, u128>,
    claimed: Map<Address, u128>,
    users: Seq<Address>,
    per_ticket: u128,
    price: u128,
    payment: u128,
    k: int,
)
    requires
        0 <= k <= users.len(),
        spec_refund_run(balances, claimed, users.take(k), per_ticket, price, payment) is Err,
    ensures
        spec_refund_run(balances, claimed, users, per_ticket, price, payment)
            == spec_refund_run(balances, claimed, users.take(k), per_ticket, price, payment),
    decreases users.len() - k,
{
    if k < users.len() {
        assert(users.take(k + 1).drop_last() =~= users.take(k));
        lemma_refund_error_persists(balances, claimed, users, per_ticket, price, payment, k + 1);
    } else {
        assert(users.take(k) =~= users);
    }
}

/// Releasing the launchpad tokens.
pub trait TokenReleaseModule {
    fn set_unlock_schedule(&mut self, ctx: &CallContext, unlock_milestones: &Vec<(u64, u64)>) -> Result<SetUnlockScheduleEvent, LaunchpadError>;

    fn refund_winning_tickets(&mut self, ctx: &CallContext, users: &Vec<Address>, payment: &Payment) -> Result<Vec<Transfer>, LaunchpadError>;

    fn compute_claimable_tokens(&self, address: Address, current_epoch: u64) -> Result<u128, LaunchpadError>;

    fn get_user_total_claimable_balance(&self, address: Address) -> u128;

    fn get_user_claimed_balance(&self, address: Address) -> u128;
}

impl TokenReleaseModule for GuaranteedTicketsLaunchpad {
    fn set_unlock_schedule(&mut self, ctx: &CallContext, unlock_milestones: &Vec<(u64, u64)>) -> (r: Result<SetUnlockScheduleEvent, LaunchpadError>)
        ensures
            r is Ok <==> {
                &&& ctx.caller == ctx.owner
                &&& old(self).base.stage_at(ctx.block_round) == LaunchStage::AddTickets
                &&& unlock_milestones@.len() <= MAX_UNLOCK_MILESTONES_ENTRIES
                &&& spec_valid_schedule(
                    Seq::new(unlock_milestones@.len(), |i: int| UnlockMilestone { release_round: unlock_milestones@[i].0, percentage: unlock_milestones@[i].1 }),
                    ctx.block_epoch,
                )
            },
            r matches Ok(e) ==> {
                let ms = Seq::new(unlock_milestones@.len(), |i: int| UnlockMilestone { release_round: unlock_milestones@[i].0, percentage: unlock_milestones@[i].1 });
                &&& final(self).unlock_schedule matches Some(sched) && sched.milestones@ == ms
                &&& *final(self) == (GuaranteedTicketsLaunchpad { unlock_schedule: final(self).unlock_schedule, ..*old(self) })
                &&& stamped(e.admin, e.block, e.epoch, *ctx)
                &&& e.milestones@ == ms
            },
            r matches Err(e) ==> e == if ctx.caller != ctx.owner {
                LaunchpadError::OnlyOwner
            } else if old(self).base.stage_at(ctx.block_round) != LaunchStage::AddTickets {
                LaunchpadError::AddTicketsPeriodPassed
            } else if unlock_milestones@.len() > MAX_UNLOCK_MILESTONES_ENTRIES {
                LaunchpadError::MaxUnlockMilestonesExceeded
            } else {
                LaunchpadError::InvalidUnlockSchedule
            },
            r is Err ==> *final(self) == *old(self),
    {
        if ctx.caller != ctx.owner {
            return Err(LaunchpadError::OnlyOwner);
        }
        self.base.require_add_tickets_period(ctx.block_round)?;
        if unlock_milestones.len() > MAX_UNLOCK_MILESTONES_ENTRIES {
            return Err(LaunchpadError::MaxUnlockMilestonesExceeded);
        }
        let ghost target = Seq::new(unlock_milestones@.len(), |i: int| UnlockMilestone { release_round: unlock_milestones@[i].0, percentage: unlock_milestones@[i].1 });
        let mut milestones: Vec<UnlockMilestone> = Vec::new();
        let mut event_milestones: Vec<UnlockMilestone> = Vec::new();
        let n = unlock_milestones.len();
        let mut i: usize = 0;
        while i < n
            invariant
                n == unlock_milestones@.len(),
                i <= n,
                target == Seq::new(unlock_milestones@.len(), |i: int| UnlockMilestone { release_round: unlock_milestones@[i].0, percentage: unlock_milestones@[i].1 }),
                milestones@ == target.take(i as int),
                event_milestones@ == target.take(i as int),
            decreases n - i,
        {
            let (release_round, percentage) = unlock_milestones[i];
            milestones.push(UnlockMilestone { release_round, percentage });
            event_milestones.push(UnlockMilestone { release_round, percentage });
            i = i + 1;
            assert(milestones@ =~= target.take(i as int));
            assert(event_milestones@ =~= target.take(i as int));
        }
        assert(target.take(n as int) =~= target);
        let unlock_schedule = UnlockSchedule::new(milestones);
        if !unlock_schedule.validate(ctx.block_epoch) {
            return Err(LaunchpadError::InvalidUnlockSchedule);
        }
        self.unlock_schedule = Some(unlock_schedule);
        Ok(self.emit_set_unlock_schedule_event(ctx, event_milestones))
    }

    /// The owner pays back, in the ticket payment token, the winning tickets of users who
    /// claimed nothing yet; what is left of the payment goes back to the owner.
    fn refund_winning_tickets(&mut self, ctx: &CallContext, users: &Vec<Address>, payment: &Payment) -> (r: Result<Vec<Transfer>, LaunchpadError>)
        ensures
            ({
                let run = spec_refund_run(
                    old(self).user_total_claimable_balance@,
                    old(self).user_claimed_balance@,
                    users@,
                    old(self).base.launchpad_tokens_per_winning_ticket,
                    old(self).base.ticket_price.amount,
                    payment.amount,
                );
                &&& r is Ok <==> {
                    &&& ctx.caller == ctx.owner
                    &&& payment.token_id@ == old(self).base.ticket_price.token_id@
                    &&& run is Ok
                }
                &&& r matches Err(e) ==> e == if ctx.caller != ctx.owner {
                    LaunchpadError::OnlyOwner
                } else if payment.token_id@ != old(self).base.ticket_price.token_id@ {
                    LaunchpadError::InvalidPaymentToken
                } else {
                    run->Err_0
                }
                &&& r matches Ok(transfers) ==> run matches Ok(st) && refund_pairs(transfers@) == st.0 + (if st.1 > 0 {
                    seq![(ctx.caller, st.1)]
                } else {
                    Seq::empty()
                })
            }),
            r is Err ==> *final(self) == *old(self),
            r is Ok ==> {
                &&& final(self).user_total_claimable_balance@ == old(self).user_total_claimable_balance@.remove_keys(users@.to_set())
                &&& *final(self) == (GuaranteedTicketsLaunchpad {
                    user_total_claimable_balance: final(self).user_total_claimable_balance,
                    ..*old(self)
                })
            },
            r matches Ok(transfers) ==> forall|i: int| 0 <= i < transfers@.len() ==> (#[trigger] transfers@[i]).token_id@ == old(self).base.ticket_price.token_id@
                && transfers@[i].token_nonce == 0,
    {
        if ctx.caller != ctx.owner {
            return Err(LaunchpadError::OnlyOwner);
        }
        let launchpad_tokens_per_winning_ticket = self.base.launchpad_tokens_per_winning_ticket;
        let price_amount = self.base.ticket_price.amount;
        if !same_bytes(&payment.token_id, &self.base.ticket_price.token_id) {
            return Err(LaunchpadError::InvalidPaymentToken);
        }
        let mut balances = self.user_total_claimable_balance.clone();
        let ghost b0 = balances@;
        let ghost claimed0 = self.user_claimed_balance@;
        let mut transfers: Vec<Transfer> = Vec::new();
        let mut remaining_payment_amount = payment.amount;
        let n = users.len();
        let mut i: usize = 0;
        proof {
            assert(users@.take(0) =~= Seq::<Address>::empty());
            assert(refund_pairs(transfers@) =~= Seq::<(Address, u128)>::empty());
        }
        while i < n
            invariant
                n == users@.len(),
                i <= n,
                ctx.caller == ctx.owner,
                *self == *old(self),
                b0 == self.user_total_claimable_balance@,
                claimed0 == self.user_claimed_balance@,
                launchpad_tokens_per_winning_ticket == self.base.launchpad_tokens_per_winning_ticket,
                price_amount == self.base.ticket_price.amount,
                payment.token_id@ == self.base.ticket_price.token_id@,
                balances@ == b0.remove_keys(users@.take(i as int).to_set()),
                spec_refund_run(b0, claimed0, users@.take(i as int), launchpad_tokens_per_winning_ticket, price_amount, payment.amount)
                    == Ok::<(Seq<(Address, u128)>, u128), LaunchpadError>((refund_pairs(transfers@), remaining_payment_amount)),
                forall|j: int| 0 <= j < transfers@.len() ==> (#[trigger] transfers@[j]).token_id@ == self.base.ticket_price.token_id@
                    && transfers@[j].token_nonce == 0,
            decreases n - i,
        {
            let user = users[i];
            let ghost prefix = users@.take(i as int);
            let ghost pk = users@.take(i + 1);
            proof {
                assert(pk.drop_last() =~= prefix);
                assert(pk.last() == user);
            }
            let user_claimed_balance = get_by_address(&self.user_claimed_balance, user, 0);
            if user_claimed_balance != 0 {
                proof {
                    lemma_refund_error_persists(b0, claimed0, users@, launchpad_tokens_per_winning_ticket, price_amount, payment.amount, i + 1);
                }
                return Err(LaunchpadError::UserAlreadyClaimedTokens);
            }
            let user_total_claimable_balance = get_by_address(&balances, user, 0);
            assert(user_total_claimable_balance == if prefix.contains(user) { 0 } else { stored_or(b0, user, 0) });
            balances.remove(&user);
            i = i + 1;
            proof {
                assert forall|a: Address| pk.to_set().contains(a) <==> (prefix.to_set().contains(a) || a == user) by {
                    if pk.contains(a) && a != user {
                        let j = choose|j: int| 0 <= j < pk.len() && pk[j] == a;
                        assert(prefix[j] == a);
                    }
                    if prefix.contains(a) {
                        let j = choose|j: int| 0 <= j < prefix.len() && prefix[j] == a;
                        assert(pk[j] == a);
                    }
                    if a == user {
                        assert(pk[i - 1] == a);
                    }
                }
                assert(balances@ =~= b0.remove_keys(pk.to_set()));
            }
            if user_total_claimable_balance == 0 {
                continue;
            }
            if launchpad_tokens_per_winning_ticket == 0 {
                proof {
                    lemma_refund_error_persists(b0, claimed0, users@, launchpad_tokens_per_winning_ticket, price_amount, payment.amount, i as int);
                }
                return Err(LaunchpadError::ArithmeticError);
            }
            let refund_amount = match (user_total_claimable_balance / launchpad_tokens_per_winning_ticket).checked_mul(price_amount) {
                Some(a) => a,
                None => {
                    proof {
                        lemma_refund_error_persists(b0, claimed0, users@, launchpad_tokens_per_winning_ticket, price_amount, payment.amount, i as int);
                    }
                    return Err(LaunchpadError::ArithmeticError);
                },
            };
            if remaining_payment_amount < refund_amount {
                proof {
                    lemma_refund_error_persists(b0, claimed0, users@, launchpad_tokens_per_winning_ticket, price_amount, payment.amount, i as int);
                }
                return Err(LaunchpadError::InsufficientFundsDeposited);
            }
            let ghost before = transfers@;
            transfers.push(Transfer { to: user, token_id: self.base.ticket_price.token_id.clone(), token_nonce: 0, amount: refund_amount });
            remaining_payment_amount = remaining_payment_amount - refund_amount;
            proof {
                assert(refund_pairs(transfers@) =~= refund_pairs(before).push((user, refund_amount)));
            }
        }
        assert(users@.take(n as int) =~= users@);
        let ghost paid = transfers@;
        if remaining_payment_amount > 0 {
            transfers.push(Transfer { to: ctx.caller, token_id: self.base.ticket_price.token_id.clone(), token_nonce: 0, amount: remaining_payment_amount });
            assert(refund_pairs(transfers@) =~= refund_pairs(paid) + seq![(ctx.caller, remaining_payment_amount)]);
        } else {
            assert(refund_pairs(transfers@) =~= refund_pairs(paid) + Seq::<(Address, u128)>::empty());
        }
        self.user_total_claimable_balance = balances;
        Ok(transfers)
    }

    /// What a user can claim now: the released share of the user's tokens, less what
    /// was claimed already.
    fn compute_claimable_tokens(&self, address: Address, current_epoch: u64) -> (r: Result<u128, LaunchpadError>)
        ensures
            r is Ok <==> spec_claimable_tokens(self, address, current_epoch) is Some,
            r matches Ok(v) ==> v == spec_claimable_tokens(self, address, current_epoch).unwrap(),
            r matches Ok(v) ==> stored_or(self.user_claimed_balance@, address, 0) + v <= u128::MAX,
            r matches Err(e) ==> e == if stored_or(self.user_claimed_balance@, address, 0) >= stored_or(self.user_total_claimable_balance@, address, 0) {
                LaunchpadError::AlreadyClaimedAllTokens
            } else {
                LaunchpadError::ArithmeticError
            },
    {
        let user_total_claimable_balance = get_by_address(&self.user_total_claimable_balance, address, 0);
        let user_claimed_balance = get_by_address(&self.user_claimed_balance, address, 0);
        self.claimable_from(user_total_claimable_balance, user_claimed_balance, current_epoch)
    }

    fn get_user_total_claimable_balance(&self, address: Address) -> (r: u128)
        ensures
            r == stored_or(self.user_total_claimable_balance@, address, 0),
    {
        get_by_address(&self.user_total_claimable_balance, address, 0)
    }

    fn get_user_claimed_balance(&self, address: Address) -> (r: u128)
        ensures
            r == stored_or(self.user_claimed_balance@, address, 0),
    {
        get_by_address(&self.user_claimed_balance, address, 0)
    }
}


proof fn lemma_total_front(ms: Seq<UnlockMilestone>)
    requires
        ms.len() > 0,
    ensures
        spec_total_percentage(ms) == ms[0].percentage + spec_total_percentage(ms.skip(1)),
    decreases ms.len(),
{
    if ms.len() == 1 {
        assert(ms.drop_last() =~= Seq::<UnlockMilestone>::empty());
        assert(ms.skip(1) =~= Seq::<UnlockMilestone>::empty());
    } else {
        lemma_total_front(ms.drop_last());
        assert(ms.skip(1).drop_last() =~= ms.drop_last().skip(1));
        assert(ms.skip(1).last() == ms.last());
        assert(ms.drop_last()[0] == ms[0]);
    }
}

proof fn lemma_total_nonneg(ms: Seq<UnlockMilestone>)
    ensures
        spec_total_percentage(ms) >= 0,
    decreases ms.len(),
{
    if ms.len() > 0 {
        lemma_total_nonneg(ms.drop_last());
    }
}

proof fn lemma_released_within_total(ms: Seq<UnlockMilestone>, round: u64)
    ensures
        0 <= spec_released_percentage(ms, round) <= spec_total_percentage(ms),
        (forall|i: int| 0 <= i < ms.len() ==> (#[trigger] ms[i]).release_round <= round)
            ==> spec_released_percentage(ms, round) == spec_total_percentage(ms),
    decreases ms.len(),
{
    lemma_total_nonneg(ms);
    if ms.len() > 0 {
        lemma_total_front(ms);
        lemma_released_within_total(ms.skip(1), round);
        lemma_total_nonneg(ms.skip(1));
        if forall|i: int| 0 <= i < ms.len() ==> (#[trigger] ms[i]).release_round <= round {
            assert forall|i: int| 0 <= i < ms.skip(1).len() implies (#[trigger] ms.skip(1)[i]).release_round <= round by {
                assert(ms.skip(1)[i] == ms[i + 1]);
            }
        }
    }
}

/// A user never gets more than the tokens won.  With a valid schedule set (or none set),
/// what is claimable at any epoch is at most what is left to claim, and once the epoch
/// of every milestone has come, all that is left is claimable.
pub proof fn lemma_claimable_within_total(s: &GuaranteedTicketsLaunchpad, address: Address, epoch: u64, set_epoch: u64)
    requires
        s.unlock_schedule matches Some(sched) ==> spec_valid_schedule(sched.milestones@, set_epoch),
    ensures
        ({
            let total = stored_or(s.user_total_claimable_balance@, address, 0);
            let claimed = stored_or(s.user_claimed_balance@, address, 0);
            let ms = schedule_in_force(s);
            &&& spec_claimable_tokens(s, address, epoch) matches Some(v) ==> v == 0 || claimed + v <= total
            &&& ((forall|i: int| 0 <= i < ms.len() ==> (#[trigger] ms[i]).release_round <= epoch)
                && total > 0 && spec_claimable_tokens(s, address, epoch) is Some)
                ==> claimed + spec_claimable_tokens(s, address, epoch).unwrap() == total
        }),
{
    let total = stored_or(s.user_total_claimable_balance@, address, 0);
    let claimed = stored_or(s.user_claimed_balance@, address, 0);
    let ms = schedule_in_force(s);
    lemma_released_within_total(ms, epoch);
    if s.unlock_schedule is None {
        assert(ms.drop_last() =~= Seq::<UnlockMilestone>::empty());
        assert(spec_total_percentage(Seq::<UnlockMilestone>::empty()) == 0);
        assert(ms.last().percentage == MAX_PERCENTAGE);
        assert(spec_total_percentage(ms) == MAX_PERCENTAGE);
    }
    let pct = spec_released_percentage(ms, epoch);
    assert(0 <= pct <= MAX_PERCENTAGE);
    assert(total * pct / 10000 <= total) by (nonlinear_arith)
        requires
            0 <= pct <= 10000,
            total >= 0,
    {
        assert(total * pct <= total * 10000);
    }
    if pct == MAX_PERCENTAGE {
        assert(total * pct / 10000 == total) by (nonlinear_arith)
            requires
                pct == 10000,
        ;
    }
}

/// The released percentage never falls as the epoch grows.
proof fn lemma_released_monotone(ms: Seq<UnlockMilestone>, e1: u64, e2: u64)
    requires
        e1 <= e2,
    ensures
        spec_released_percentage(ms, e1) <= spec_released_percentage(ms, e2),
    decreases ms.len(),
{
    lemma_released_nonneg(ms, e2);
    if ms.len() > 0 && ms[0].release_round <= e1 {
        lemma_released_monotone(ms.skip(1), e1, e2);
    }
}

/// What a user can claim never falls as time goes on: where the contract answers at an
/// epoch, it answers at every earlier epoch too, with no more tokens.
pub proof fn lemma_claimable_grows_with_epoch(s: &GuaranteedTicketsLaunchpad, address: Address, e1: u64, e2: u64)
    requires
        e1 <= e2,
    ensures
        spec_claimable_tokens(s, address, e2) is Some ==> spec_claimable_tokens(s, address, e1) is Some
            && spec_claimable_tokens(s, address, e1).unwrap() <= spec_claimable_tokens(s, address, e2).unwrap(),
{
    let ms = schedule_in_force(s);
    let total = stored_or(s.user_total_claimable_balance@, address, 0) as int;
    let p1 = spec_released_percentage(ms, e1);
    let p2 = spec_released_percentage(ms, e2);
    lemma_released_monotone(ms, e1, e2);
    lemma_released_nonneg(ms, e1);
    assert(total * p1 <= total * p2 && total * p1 / 10000 <= total * p2 / 10000) by (nonlinear_arith)
        requires
            0 <= p1 <= p2,
            total >= 0,
    {
        assert(total * p1 <= total * p2);
    }
}

impl GuaranteedTicketsLaunchpad {
    /// The tokens claimable now by a user entitled to `total` tokens who claimed `claimed`:
    /// the released percentage of the total, less what was claimed.
    pub fn claimable_from(&self, total: u128, claimed: u128, current_epoch: u64) -> (r: Result<u128, LaunchpadError>)
        ensures
            r is Ok <==> spec_claimable_from(self, total as int, claimed as int, current_epoch) is Some,
            r matches Ok(v) ==> v == spec_claimable_from(self, total as int, claimed as int, current_epoch).unwrap(),
            r matches Ok(v) ==> claimed + v <= u128::MAX,
            r matches Err(e) ==> e == if claimed >= total { LaunchpadError::AlreadyClaimedAllTokens } else { LaunchpadError::ArithmeticError },
    {
        if total == 0 {
            return Ok(0);
        }
        if claimed >= total {
            return Err(LaunchpadError::AlreadyClaimedAllTokens);
        }
        let claimable_percentage = match &self.unlock_schedule {
            Some(schedule) => released_percentage(&schedule.milestones, current_epoch),
            None => {
                let schedule = UnlockSchedule::default();
                released_percentage(&schedule.milestones, current_epoch)
            },
        };
        let claimable_percentage = match claimable_percentage {
            Some(p) => p,
            None => return Err(LaunchpadError::ArithmeticError),
        };
        let product = match total.checked_mul(claimable_percentage as u128) {
            Some(p) => p,
            None => return Err(LaunchpadError::ArithmeticError),
        };
        let current_claimable_tokens = product / (MAX_PERCENTAGE as u128);
        if claimed >= current_claimable_tokens {
            return Ok(0);
        }
        Ok(current_claimable_tokens - claimed)
    }
}

} // verus!
