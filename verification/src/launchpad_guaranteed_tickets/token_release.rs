//! Releasing the launchpad tokens by epochs: each release makes a percentage of every
//! winner's tokens claimable.

use vstd::prelude::*;

use crate::launchpad_common::config::CallContext;
use crate::launchpad_common::errors::LaunchpadError;
use crate::launchpad_common::storage::{get_by_address, stored_or, Address};
use crate::launchpad_guaranteed_tickets::state::GuaranteedTicketsLaunchpadV1;

verus! {

broadcast use vstd::std_specs::hash::group_hash_axioms;

/// All of the tokens, in hundredths of a percent.
pub const MAX_PERCENTAGE: u64 = 10_000;

/// The most releases a schedule may have.
pub const MAX_VESTING_RELEASES: usize = 50;

/// A release of a share of the tokens at an epoch.
#[derive(Debug, Clone, Copy, PartialEq, Eq, Structural)]
pub struct VestingRelease {
    pub vesting_release_epoch: u64,
    pub vesting_release_percentage: u64,
}

impl VestingRelease {
    pub fn new(vesting_release_epoch: u64, vesting_release_percentage: u64) -> (r: VestingRelease)
        ensures
            r.vesting_release_epoch == vesting_release_epoch,
            r.vesting_release_percentage == vesting_release_percentage,
    {
        VestingRelease { vesting_release_epoch, vesting_release_percentage }
    }
}

/// The releases that pairs of (epoch, percentage) make.
pub open spec fn spec_releases_of(raw: Seq<(u64, u64)>) -> Seq<VestingRelease> {
    Seq::new(raw.len(), |i: int| VestingRelease { vesting_release_epoch: raw[i].0, vesting_release_percentage: raw[i].1 })
}

/// The first refusal met when the releases are read in order from the `i`-th, after
/// `last` as the last epoch and `total` as the percentage so far.
pub open spec fn spec_schedule_read_error(raw: Seq<(u64, u64)>, i: int, last: u64, total: int) -> Option<LaunchpadError>
    decreases raw.len() - i,
{
    if i < 0 || i >= raw.len() {
        if total == MAX_PERCENTAGE {
            None
        } else {
            Some(LaunchpadError::UnlockPercentageNot100)
        }
    } else if raw[i].0 < last {
        Some(LaunchpadError::ReleaseEpochsNotInOrder)
    } else if total + raw[i].1 > u64::MAX {
        Some(LaunchpadError::ArithmeticError)
    } else {
        spec_schedule_read_error(raw, i + 1, raw[i].0, total + raw[i].1)
    }
}

/// Why a schedule cannot be set: the caller is not the owner, a schedule is set and the
/// confirmation period has started, the schedule is empty or too long, or its releases
/// are out of order or do not add up to 100%.
pub open spec fn spec_set_schedule_error(s: &GuaranteedTicketsLaunchpadV1, ctx: CallContext, raw: Seq<(u64, u64)>) -> Option<LaunchpadError> {
    if ctx.caller != ctx.owner {
        Some(LaunchpadError::OnlyOwner)
    } else if !(ctx.block_nonce < s.base.configuration.confirmation_period_start_round || s.unlock_schedule is None) {
        Some(LaunchpadError::CannotChangeUnlockSchedule)
    } else if raw.len() == 0 || raw.len() > MAX_VESTING_RELEASES {
        Some(LaunchpadError::WrongReleaseSchedule)
    } else {
        spec_schedule_read_error(raw, 0, ctx.block_epoch, 0)
    }
}

/// The percentage released at an epoch: the releases in order up to the first whose
/// epoch is before it.
pub open spec fn spec_released_by_epoch(rs: Seq<VestingRelease>, current_epoch: u64) -> int
    decreases rs.len(),
{
    if rs.len() == 0 || rs[0].vesting_release_epoch < current_epoch {
        0
    } else {
        rs[0].vesting_release_percentage + spec_released_by_epoch(rs.skip(1), current_epoch)
    }
}

/// The tokens a user may claim at an epoch; `Err` with the refusal.
pub open spec fn spec_v1_claimable(s: &GuaranteedTicketsLaunchpadV1, address: Address, current_epoch: u64) -> Result<int, LaunchpadError> {
    let total = stored_or(s.user_total_claimable_balance@, address, 0);
    let claimed = stored_or(s.user_claimed_balance@, address, 0);
    if total == 0 {
        Err(LaunchpadError::NoClaimableTokens)
    } else if claimed >= total {
        Err(LaunchpadError::AlreadyClaimedAllTokens)
    } else {
        match s.unlock_schedule {
            None => Ok(0),
            Some(rs) => {
                let pct = spec_released_by_epoch(rs@, current_epoch);
                if pct > u64::MAX || total * pct > u128::MAX || total * pct / (MAX_PERCENTAGE as int) < claimed {
                    Err(LaunchpadError::ArithmeticError)
                } else {
                    Ok(total * pct / (MAX_PERCENTAGE as int) - claimed)
                }
            },
        }
    }
}

/// Releasing the launchpad tokens by epochs.
pub trait TokenReleaseModule {
    fn set_unlock_schedule(&mut self, ctx: &CallContext, vesting_releases: &Vec<(u64, u64)>) -> Result<(), LaunchpadError>;

    fn compute_claimable_tokens(&self, address: Address, current_epoch: u64) -> Result<u128, LaunchpadError>;
}

impl TokenReleaseModule for GuaranteedTicketsLaunchpadV1 {
    /// The owner sets the schedule: releases in epoch order from the current epoch, 100%
    /// in all; it cannot change once the confirmation period started.
    fn set_unlock_schedule(&mut self, ctx: &CallContext, vesting_releases: &Vec<(u64, u64)>) -> (r: Result<(), LaunchpadError>)
        ensures
            r is Err <==> spec_set_schedule_error(old(self), *ctx, vesting_releases@) is Some,
            r matches Err(e) ==> spec_set_schedule_error(old(self), *ctx, vesting_releases@) == Some(e),
            r is Err ==> *final(self) == *old(self),
            r is Ok ==> (final(self).unlock_schedule matches Some(rs) && rs@ == spec_releases_of(vesting_releases@)),
            r is Ok ==> *final(self) == (GuaranteedTicketsLaunchpadV1 { unlock_schedule: final(self).unlock_schedule, ..*old(self) }),
    {
        if ctx.caller != ctx.owner {
            return Err(LaunchpadError::OnlyOwner);
        }
        if !(ctx.block_nonce < self.base.configuration.confirmation_period_start_round || self.unlock_schedule.is_none()) {
            return Err(LaunchpadError::CannotChangeUnlockSchedule);
        }
        let n = vesting_releases.len();
        if n == 0 || n > MAX_VESTING_RELEASES {
            return Err(LaunchpadError::WrongReleaseSchedule);
        }
        let mut unlock_schedule: Vec<VestingRelease> = Vec::new();
        let mut total_unlock_percentage: u64 = 0;
        let mut last_release_epoch: u64 = ctx.block_epoch;
        let mut i: usize = 0;
        while i < n
            invariant
                n == vesting_releases@.len(),
                i <= n,
                ctx.caller == ctx.owner,
                ctx.block_nonce < self.base.configuration.confirmation_period_start_round || self.unlock_schedule is None,
                0 < n <= MAX_VESTING_RELEASES,
                spec_schedule_read_error(vesting_releases@, 0, ctx.block_epoch, 0)
                    == spec_schedule_read_error(vesting_releases@, i as int, last_release_epoch, total_unlock_percentage as int),
                unlock_schedule@ == spec_releases_of(vesting_releases@.take(i as int)),
            decreases n - i,
        {
            let (vesting_release_epoch, vesting_release_percentage) = vesting_releases[i];
            if vesting_release_epoch < last_release_epoch {
                return Err(LaunchpadError::ReleaseEpochsNotInOrder);
            }
            if vesting_release_percentage > u64::MAX - total_unlock_percentage {
                return Err(LaunchpadError::ArithmeticError);
            }
            total_unlock_percentage = total_unlock_percentage + vesting_release_percentage;
            last_release_epoch = vesting_release_epoch;
            unlock_schedule.push(VestingRelease::new(vesting_release_epoch, vesting_release_percentage));
            i = i + 1;
            assert(unlock_schedule@ =~= spec_releases_of(vesting_releases@.take(i as int)));
        }
        if total_unlock_percentage != MAX_PERCENTAGE {
            return Err(LaunchpadError::UnlockPercentageNot100);
        }
        assert(vesting_releases@.take(n as int) =~= vesting_releases@);
        self.unlock_schedule = Some(unlock_schedule);
        Ok(())
    }

    /// The tokens a user may claim at an epoch: the released percentage of what the user
    /// won, less what was claimed.
    fn compute_claimable_tokens(&self, address: Address, current_epoch: u64) -> (r: Result<u128, LaunchpadError>)
        ensures
            r is Err <==> spec_v1_claimable(self, address, current_epoch) is Err,
            r matches Err(e) ==> spec_v1_claimable(self, address, current_epoch) == Err::<int, LaunchpadError>(e),
            r matches Ok(v) ==> spec_v1_claimable(self, address, current_epoch) == Ok::<int, LaunchpadError>(v as int),
    {
        let user_total_claimable_balance = get_by_address(&self.user_total_claimable_balance, address, 0);
        let user_claimed_balance = get_by_address(&self.user_claimed_balance, address, 0);
        if user_total_claimable_balance == 0 {
            return Err(LaunchpadError::NoClaimableTokens);
        }
        if user_claimed_balance >= user_total_claimable_balance {
            return Err(LaunchpadError::AlreadyClaimedAllTokens);
        }
        let rs = match &self.unlock_schedule {
            None => {
                return Ok(0);
            },
            Some(rs) => rs,
        };
        let ghost s = rs@;
        assert(s.skip(0) =~= s);
        let mut current_claimable_percentage: u64 = 0;
        let mut i: usize = 0;
        let mut reached_future = false;
        while i < rs.len() && !reached_future
            invariant
                reached_future ==> i < s.len() && s[i as int].vesting_release_epoch < current_epoch,
                s == rs@,
                self.unlock_schedule == Some(*rs),
                user_total_claimable_balance == stored_or(self.user_total_claimable_balance@, address, 0),
                user_claimed_balance == stored_or(self.user_claimed_balance@, address, 0),
                user_total_claimable_balance != 0,
                user_claimed_balance < user_total_claimable_balance,
                i <= s.len(),
                forall|j: int| 0 <= j < i ==> (#[trigger] s[j]).vesting_release_epoch >= current_epoch,
                spec_released_by_epoch(s, current_epoch) == current_claimable_percentage + spec_released_by_epoch(s.skip(i as int), current_epoch),
            decreases rs.len() - i + (if reached_future { 0int } else { 1int }),
        {
            let release = rs[i];
            proof {
                assert(s.skip(i as int)[0] == release);
                assert(s.skip(i as int).skip(1) =~= s.skip(i as int + 1));
            }
            if release.vesting_release_epoch < current_epoch {
                reached_future = true;
            } else {
            if release.vesting_release_percentage > u64::MAX - current_claimable_percentage {
                proof {
                    lemma_released_nonneg(s.skip(i as int + 1), current_epoch);
                }
                return Err(LaunchpadError::ArithmeticError);
            }
            current_claimable_percentage = current_claimable_percentage + release.vesting_release_percentage;
            i = i + 1;
            }
        }
        proof {
            if i == s.len() {
                assert(s.skip(i as int) =~= Seq::<VestingRelease>::empty());
            } else {
                assert(s.skip(i as int)[0] == s[i as int]);
            }
        }
        let product = match user_total_claimable_balance.checked_mul(current_claimable_percentage as u128) {
            Some(p) => p,
            None => {
                return Err(LaunchpadError::ArithmeticError);
            },
        };
        let current_claimable_tokens = product / (MAX_PERCENTAGE as u128);
        if current_claimable_tokens < user_claimed_balance {
            return Err(LaunchpadError::ArithmeticError);
        }
        Ok(current_claimable_tokens - user_claimed_balance)
    }
}

pub proof fn lemma_released_nonneg(rs: Seq<VestingRelease>, current_epoch: u64)
    ensures
        spec_released_by_epoch(rs, current_epoch) >= 0,
    decreases rs.len(),
{
    if rs.len() > 0 && rs[0].vesting_release_epoch >= current_epoch {
        lemma_released_nonneg(rs.skip(1), current_epoch);
    }
}

} // verus!
