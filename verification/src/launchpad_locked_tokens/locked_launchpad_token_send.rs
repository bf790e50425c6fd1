//! Sending launchpad tokens with a part locked: before the unlock epoch the locked part
//! goes to the locking contract, to be released to the user at that epoch, and the rest
//! goes to the user.

use vstd::prelude::*;

use crate::launchpad_common::config::{Payment, Transfer};
use crate::launchpad_common::errors::LaunchpadError;
use crate::launchpad_common::storage::Address;
use crate::launchpad_locked_tokens::state::LockedTokensLaunchpad;

verus! {

/// The whole, in hundredths of a percent.
pub const MAX_PERCENTAGE: u32 = 10_000;

/// The locking contract, called through its `lockTokens` endpoint.
#[derive(Debug, Clone, Copy, PartialEq, Eq, Structural)]
pub struct SimpleLockProxy {
    pub sc_address: Address,
}

/// A call of the locking contract: lock a payment until an epoch, for a destination.
pub struct LockTokensCall {
    pub sc_address: Address,
    pub unlock_epoch: u64,
    pub destination: Address,
    pub token_id: Vec<u8>,
    pub token_nonce: u64,
    pub amount: u128,
}

impl SimpleLockProxy {
    /// The call that locks a payment until an epoch, for a destination.
    pub fn lock_tokens(&self, unlock_epoch: u64, destination: Address, payment: Payment) -> (r: LockTokensCall)
        ensures
            r.sc_address == self.sc_address,
            r.unlock_epoch == unlock_epoch,
            r.destination == destination,
            r.token_id@ == payment.token_id@,
            r.token_nonce == payment.token_nonce,
            r.amount == payment.amount,
    {
        LockTokensCall {
            sc_address: self.sc_address,
            unlock_epoch,
            destination,
            token_id: payment.token_id,
            token_nonce: payment.token_nonce,
            amount: payment.amount,
        }
    }
}

/// What a send of launchpad tokens does: the locked part, and the part for the user.
pub struct LockedTokensSend {
    pub lock: Option<LockTokensCall>,
    pub unlocked: Option<Transfer>,
}

/// The part of an amount that is locked at a percentage, rounded down.
pub open spec fn spec_lock_amount(amount: u128, lock_percentage: u32) -> int {
    amount * lock_percentage / (MAX_PERCENTAGE as int)
}

/// The locked part before the unlock epoch, nothing from it on.
pub open spec fn spec_locked_part(s: &LockedTokensLaunchpad, amount: u128, current_epoch: u64) -> int {
    if current_epoch < s.launchpad_tokens_unlock_epoch {
        spec_lock_amount(amount, s.launchpad_tokens_lock_percentage)
    } else {
        0
    }
}

proof fn lemma_lock_amount_split(amount: u128, pct: u32)
    requires
        pct <= MAX_PERCENTAGE,
    ensures
        (amount / 10_000) * pct + (amount % 10_000) * pct / 10_000 == spec_lock_amount(amount, pct),
        0 <= spec_lock_amount(amount, pct) <= amount,
        (amount / 10_000) * pct <= u128::MAX,
        (amount % 10_000) * pct <= 100_000_000,
{
    let q = amount / 10_000;
    let r = amount % 10_000;
    assert(amount == q * 10_000 + r) by (nonlinear_arith)
        requires q == amount / 10_000, r == amount % 10_000;
    assert(amount * pct == (q * pct) * 10_000 + r * pct) by (nonlinear_arith)
        requires amount == q * 10_000 + r;
    assert(((q * pct) * 10_000 + r * pct) / 10_000 == q * pct + (r * pct) / 10_000) by (nonlinear_arith)
        requires q >= 0, pct >= 0, r >= 0;
    assert(amount * pct <= amount * 10_000) by (nonlinear_arith)
        requires pct <= 10_000;
    assert((amount * pct) / 10_000 <= amount) by (nonlinear_arith)
        requires amount * pct <= amount * 10_000;
    assert(q * pct <= q * 10_000) by (nonlinear_arith)
        requires pct <= 10_000, q >= 0;
    assert(q * 10_000 <= amount);
    assert(r * pct <= 100_000_000) by (nonlinear_arith)
        requires 0 <= r < 10_000, pct <= 10_000;
}

/// The part of an amount that is locked at a percentage, rounded down, computed without
/// leaving the integers.
fn lock_amount(amount: u128, lock_percentage: u32) -> (r: u128)
    requires
        lock_percentage <= MAX_PERCENTAGE,
    ensures
        r == spec_lock_amount(amount, lock_percentage),
{
    proof {
        lemma_lock_amount_split(amount, lock_percentage);
    }
    let q = amount / 10_000;
    let rem = amount % 10_000;
    q * (lock_percentage as u128) + rem * (lock_percentage as u128) / 10_000
}

/// Setting the lock and sending locked launchpad tokens.
pub trait LockedLaunchpadTokenSend {
    /// The lock percentage is at most the whole.
    spec fn lock_wf(&self) -> bool;

    fn try_set_launchpad_tokens_lock_percentage(&mut self, lock_percentage: u32) -> Result<(), LaunchpadError>;

    fn try_set_launchpad_tokens_unlock_epoch(&mut self, current_epoch: u64, unlock_epoch: u64) -> Result<(), LaunchpadError>;

    fn try_set_simple_lock_sc_address(&mut self, sc_address: Address, is_smart_contract: bool) -> Result<(), LaunchpadError>;

    fn send_locked_launchpad_tokens(&self, dest_address: Address, launchpad_tokens: &Payment, current_epoch: u64) -> LockedTokensSend
        requires
            self.lock_wf(),
    ;

    fn get_launchpad_tokens_lock_percentage(&self) -> u32;

    fn get_launchpad_tokens_unlock_epoch(&self) -> u64;
}

impl LockedLaunchpadTokenSend for LockedTokensLaunchpad {
    open spec fn lock_wf(&self) -> bool {
        self.launchpad_tokens_lock_percentage <= MAX_PERCENTAGE
    }

    /// The lock percentage is more than nothing and at most the whole.
    fn try_set_launchpad_tokens_lock_percentage(&mut self, lock_percentage: u32) -> (r: Result<(), LaunchpadError>)
        ensures
            r is Ok <==> 0 < lock_percentage <= MAX_PERCENTAGE,
            r is Err ==> r == Err::<(), _>(LaunchpadError::InvalidLockPercentage) && *final(self) == *old(self),
            r is Ok ==> *final(self) == (LockedTokensLaunchpad { launchpad_tokens_lock_percentage: lock_percentage, ..*old(self) }),
    {
        if !(lock_percentage > 0 && lock_percentage <= MAX_PERCENTAGE) {
            return Err(LaunchpadError::InvalidLockPercentage);
        }
        self.launchpad_tokens_lock_percentage = lock_percentage;
        Ok(())
    }

    /// The unlock epoch lies ahead of the current one.
    fn try_set_launchpad_tokens_unlock_epoch(&mut self, current_epoch: u64, unlock_epoch: u64) -> (r: Result<(), LaunchpadError>)
        ensures
            r is Ok <==> unlock_epoch > current_epoch,
            r is Err ==> r == Err::<(), _>(LaunchpadError::InvalidUnlockEpoch) && *final(self) == *old(self),
            r is Ok ==> *final(self) == (LockedTokensLaunchpad { launchpad_tokens_unlock_epoch: unlock_epoch, ..*old(self) }),
    {
        if unlock_epoch <= current_epoch {
            return Err(LaunchpadError::InvalidUnlockEpoch);
        }
        self.launchpad_tokens_unlock_epoch = unlock_epoch;
        Ok(())
    }

    /// The locking contract is a contract, not the zero address; whether an address is
    /// a contract is the chain's answer, `is_smart_contract`.
    fn try_set_simple_lock_sc_address(&mut self, sc_address: Address, is_smart_contract: bool) -> (r: Result<(), LaunchpadError>)
        ensures
            r is Ok <==> sc_address != 0 && is_smart_contract,
            r is Err ==> r == Err::<(), _>(LaunchpadError::InvalidScAddress) && *final(self) == *old(self),
            r is Ok ==> *final(self) == (LockedTokensLaunchpad { simple_lock_sc_address: sc_address, ..*old(self) }),
    {
        if !(sc_address != 0 && is_smart_contract) {
            return Err(LaunchpadError::InvalidScAddress);
        }
        self.simple_lock_sc_address = sc_address;
        Ok(())
    }

    /// Before the unlock epoch the locked part, where there is one, goes to the locking
    /// contract for the destination until that epoch; the rest, where there is any, goes
    /// to the destination.  Together they are the whole payment.
    fn send_locked_launchpad_tokens(&self, dest_address: Address, launchpad_tokens: &Payment, current_epoch: u64) -> (r: LockedTokensSend)
        ensures
            ({
                let locked = spec_locked_part(self, launchpad_tokens.amount, current_epoch);
                let unlocked = launchpad_tokens.amount - locked;
                &&& 0 <= locked <= launchpad_tokens.amount
                &&& (r.lock is Some <==> locked > 0)
                &&& r.lock matches Some(c) ==> c.sc_address == self.simple_lock_sc_address
                    && c.unlock_epoch == self.launchpad_tokens_unlock_epoch && c.destination == dest_address
                    && c.token_id@ == launchpad_tokens.token_id@ && c.token_nonce == launchpad_tokens.token_nonce
                    && c.amount == locked
                &&& (r.unlocked is Some <==> unlocked > 0)
                &&& r.unlocked matches Some(t) ==> t.to == dest_address && t.token_id@ == launchpad_tokens.token_id@
                    && t.token_nonce == launchpad_tokens.token_nonce && t.amount == unlocked
            }),
    {
        let mut unlocked_amount = launchpad_tokens.amount;
        let unlock_epoch = self.launchpad_tokens_unlock_epoch;
        let mut lock: Option<LockTokensCall> = None;
        if current_epoch < unlock_epoch {
            let lock_percentage = self.launchpad_tokens_lock_percentage;
            let lock_amount = lock_amount(launchpad_tokens.amount, lock_percentage);
            proof {
                lemma_lock_amount_split(launchpad_tokens.amount, lock_percentage);
            }
            if lock_amount > 0 {
                unlocked_amount = unlocked_amount - lock_amount;
                let proxy = SimpleLockProxy { sc_address: self.simple_lock_sc_address };
                lock = Some(proxy.lock_tokens(
                    unlock_epoch,
                    dest_address,
                    Payment {
                        token_id: launchpad_tokens.token_id.clone(),
                        token_nonce: launchpad_tokens.token_nonce,
                        amount: lock_amount,
                    },
                ));
            }
        }
        let unlocked = if unlocked_amount > 0 {
            Some(Transfer {
                to: dest_address,
                token_id: launchpad_tokens.token_id.clone(),
                token_nonce: launchpad_tokens.token_nonce,
                amount: unlocked_amount,
            })
        } else {
            None
        };
        LockedTokensSend { lock, unlocked }
    }

    fn get_launchpad_tokens_lock_percentage(&self) -> (r: u32)
        ensures
            r == self.launchpad_tokens_lock_percentage,
    {
        self.launchpad_tokens_lock_percentage
    }

    fn get_launchpad_tokens_unlock_epoch(&self) -> (r: u64)
        ensures
            r == self.launchpad_tokens_unlock_epoch,
    {
        self.launchpad_tokens_unlock_epoch
    }
}

} // verus!
