//! The blacklist: blacklisted users lose their tickets and get back what they paid.

use vstd::prelude::*;

use crate::launchpad_common::config::{CallContext, LaunchpadState, Transfer};
use crate::launchpad_common::errors::LaunchpadError;
use crate::launchpad_common::launch_stage::{stage_index, LaunchStage, LaunchStageModule};
use crate::launchpad_common::permissions::{spec_has_extended_permissions, PermissionsModule};
use crate::launchpad_common::storage::{get_by_address, set_contains, stored_or, Address};
use crate::launchpad_common::token_send::TokenSendModule;

verus! {

broadcast use vstd::std_specs::hash::group_hash_axioms;

/// The confirmed tickets of a user.
pub open spec fn confirmed_of(state: &LaunchpadState, a: Address) -> usize {
    stored_or(state.nr_confirmed_tickets@, a, 0)
}

/// The users, in list order, who are paid back when a list is blacklisted, with the
/// number of tickets each gets back: those with confirmed tickets, at their first mention.
pub open spec fn spec_blacklist_refunds(confirmed: Map<Address, usize>, users: Seq<Address>) -> Seq<(Address, usize)>
    decreases users.len(),
{
    if users.len() == 0 {
        seq![]
    } else {
        let prev = spec_blacklist_refunds(confirmed, users.drop_last());
        let u = users.last();
        let c = stored_or(confirmed, u, 0);
        if c > 0 && !users.drop_last().contains(u) {
            prev.push((u, c))
        } else {
            prev
        }
    }
}

/// The confirmed-ticket table once the listed users are blacklisted: their entries go.
pub open spec fn spec_confirmed_after_blacklist(confirmed: Map<Address, usize>, users: Seq<Address>) -> Map<Address, usize> {
    confirmed.remove_keys(Set::new(|a: Address| users.contains(a) && stored_or(confirmed, a, 0) > 0))
}

/// Every listed user can be paid back without overflow.
pub open spec fn spec_refunds_fit(state: &LaunchpadState, users: Seq<Address>) -> bool {
    forall|i: int| 0 <= i < users.len() ==> state.ticket_price.amount * confirmed_of(state, #[trigger] users[i]) <= u128::MAX
}

/// Why the blacklist may not change: the caller does not manage it, or winner selection
/// has started.
pub open spec fn spec_blacklist_change_error(state: &LaunchpadState, ctx: CallContext) -> Option<LaunchpadError> {
    if !spec_has_extended_permissions(state, ctx) {
        Some(LaunchpadError::PermissionDenied)
    } else if stage_index(state.stage_at(ctx.block_round)) >= stage_index(LaunchStage::WinnerSelection) {
        Some(LaunchpadError::BlacklistOnlyBeforeWinnerSelection)
    } else {
        None
    }
}

/// Why a list of users cannot be blacklisted: the blacklist may not change, or a refund
/// leaves the integers.
pub open spec fn spec_blacklist_error(state: &LaunchpadState, ctx: CallContext, users: Seq<Address>) -> Option<LaunchpadError> {
    if spec_blacklist_change_error(state, ctx) is Some {
        spec_blacklist_change_error(state, ctx)
    } else if !spec_refunds_fit(state, users) {
        Some(LaunchpadError::ArithmeticError)
    } else {
        None
    }
}

/// Managing the blacklist.
pub trait BlacklistModule {
    fn add_users_to_blacklist(&mut self, ctx: &CallContext, users_list: &Vec<Address>) -> Result<Vec<Transfer>, LaunchpadError>;

    fn remove_users_from_blacklist(&mut self, ctx: &CallContext, users_list: &Vec<Address>) -> Result<(), LaunchpadError>;

    fn is_user_blacklisted(&self, address: Address) -> bool;
}

impl LaunchpadState {
    /// The blacklist may change: the caller manages it, and winner selection is ahead.
    pub open spec fn may_change_blacklist(&self, ctx: CallContext) -> bool {
        &&& spec_has_extended_permissions(self, ctx)
        &&& stage_index(self.stage_at(ctx.block_round)) < stage_index(LaunchStage::WinnerSelection)
    }
}

impl BlacklistModule for LaunchpadState {
    fn add_users_to_blacklist(&mut self, ctx: &CallContext, users_list: &Vec<Address>) -> (r: Result<Vec<Transfer>, LaunchpadError>)
        ensures
            r is Ok <==> old(self).may_change_blacklist(*ctx) && spec_refunds_fit(old(self), users_list@),
            r matches Err(e) ==> spec_blacklist_error(old(self), *ctx, users_list@) == Some(e),
            r matches Ok(transfers) ==> {
                let refunds = spec_blacklist_refunds(old(self).nr_confirmed_tickets@, users_list@);
                &&& final(self).blacklist@ == old(self).blacklist@.union(users_list@.to_set())
                &&& final(self).nr_confirmed_tickets@ == spec_confirmed_after_blacklist(old(self).nr_confirmed_tickets@, users_list@)
                &&& *final(self) == (LaunchpadState {
                    blacklist: final(self).blacklist,
                    nr_confirmed_tickets: final(self).nr_confirmed_tickets,
                    ..*old(self)
                })
                &&& transfers@.len() == refunds.len()
                &&& forall|i: int| 0 <= i < refunds.len() ==> {
                    &&& (#[trigger] transfers@[i]).to == refunds[i].0
                    &&& transfers@[i].token_id@ == old(self).ticket_price.token_id@
                    &&& transfers@[i].token_nonce == 0
                    &&& transfers@[i].amount == old(self).ticket_price.amount * refunds[i].1
                }
            },
            r is Err ==> *final(self) == *old(self),
    {
        self.check_add_users_to_blacklist(ctx, users_list)?;
        let n = users_list.len();
        let ghost old_self = *self;
        let mut transfers: Vec<Transfer> = Vec::new();
        let mut k: usize = 0;
        while k < n
            invariant
                n == users_list@.len(),
                k <= n,
                spec_refunds_fit(&old_self, users_list@),
                self.blacklist@ == old_self.blacklist@.union(users_list@.take(k as int).to_set()),
                self.nr_confirmed_tickets@ == spec_confirmed_after_blacklist(old_self.nr_confirmed_tickets@, users_list@.take(k as int)),
                *self == (LaunchpadState {
                    blacklist: self.blacklist,
                    nr_confirmed_tickets: self.nr_confirmed_tickets,
                    ..old_self
                }),
                ({
                    let refunds = spec_blacklist_refunds(old_self.nr_confirmed_tickets@, users_list@.take(k as int));
                    &&& transfers@.len() == refunds.len()
                    &&& forall|j: int| 0 <= j < refunds.len() ==> {
                        &&& (#[trigger] transfers@[j]).to == refunds[j].0
                        &&& transfers@[j].token_id@ == old_self.ticket_price.token_id@
                        &&& transfers@[j].token_nonce == 0
                        &&& transfers@[j].amount == old_self.ticket_price.amount * refunds[j].1
                    }
                }),
            decreases n - k,
        {
            let address = users_list[k];
            let ghost prefix = users_list@.take(k as int);
            assert(users_list@.take(k as int + 1).drop_last() =~= prefix);
            assert(users_list@.take(k as int + 1).last() == address);
            let nr_confirmed = get_by_address(&self.nr_confirmed_tickets, address, 0);
            proof {
                if prefix.contains(address) {
                    assert(nr_confirmed == 0);
                } else {
                    assert(nr_confirmed == stored_or(old_self.nr_confirmed_tickets@, address, 0));
                }
            }
            if nr_confirmed > 0 {
                assert(old_self.ticket_price.amount * confirmed_of(&old_self, users_list@[k as int]) <= u128::MAX);
                let refund = self.refund_ticket_payment(address, nr_confirmed);
                match refund {
                    Ok(Some(t)) => transfers.push(t),
                    _ => {},
                }
                self.nr_confirmed_tickets.remove(&address);
            }
            self.blacklist.insert(address);
            k = k + 1;
            proof {
                let pk = users_list@.take(k as int);
                assert(self.blacklist@ =~= old_self.blacklist@.union(pk.to_set())) by {
                    assert forall|a: Address| pk.to_set().contains(a) <==> (prefix.to_set().contains(a) || a == address) by {
                        if pk.contains(a) && a != address {
                            let j = choose|j: int| 0 <= j < pk.len() && pk[j] == a;
                            assert(prefix[j] == a);
                        }
                        if prefix.contains(a) {
                            let j = choose|j: int| 0 <= j < prefix.len() && prefix[j] == a;
                            assert(pk[j] == a);
                        }
                        if a == address {
                            assert(pk[k - 1] == a);
                        }
                    }
                }
                assert(self.nr_confirmed_tickets@ =~= spec_confirmed_after_blacklist(old_self.nr_confirmed_tickets@, pk)) by {
                    assert forall|a: Address| pk.contains(a) <==> (prefix.contains(a) || a == address) by {
                        if pk.contains(a) && a != address {
                            let j = choose|j: int| 0 <= j < pk.len() && pk[j] == a;
                            assert(prefix[j] == a);
                        }
                        if prefix.contains(a) {
                            let j = choose|j: int| 0 <= j < prefix.len() && prefix[j] == a;
                            assert(pk[j] == a);
                        }
                        if a == address {
                            assert(pk[k - 1] == a);
                        }
                    }
                }
            }
        }
        assert(users_list@.take(n as int) =~= users_list@);
        Ok(transfers)
    }

    fn remove_users_from_blacklist(&mut self, ctx: &CallContext, users_list: &Vec<Address>) -> (r: Result<(), LaunchpadError>)
        ensures
            r is Ok <==> old(self).may_change_blacklist(*ctx),
            r matches Err(e) ==> spec_blacklist_change_error(old(self), *ctx) == Some(e),
            r is Ok ==> {
                &&& final(self).blacklist@ == old(self).blacklist@.difference(users_list@.to_set())
                &&& *final(self) == (LaunchpadState { blacklist: final(self).blacklist, ..*old(self) })
            },
            r is Err ==> *final(self) == *old(self),
    {
        self.check_change_blacklist(ctx)?;
        let ghost old_self = *self;
        let n = users_list.len();
        let mut k: usize = 0;
        while k < n
            invariant
                n == users_list@.len(),
                k <= n,
                self.blacklist@ == old_self.blacklist@.difference(users_list@.take(k as int).to_set()),
                *self == (LaunchpadState { blacklist: self.blacklist, ..old_self }),
            decreases n - k,
        {
            let address = users_list[k];
            let ghost prefix = users_list@.take(k as int);
            self.blacklist.remove(&address);
            k = k + 1;
            proof {
                let pk = users_list@.take(k as int);
                assert(self.blacklist@ =~= old_self.blacklist@.difference(pk.to_set())) by {
                    assert forall|a: Address| pk.to_set().contains(a) <==> (prefix.to_set().contains(a) || a == address) by {
                        if pk.contains(a) && a != address {
                            let j = choose|j: int| 0 <= j < pk.len() && pk[j] == a;
                            assert(prefix[j] == a);
                        }
                        if prefix.contains(a) {
                            let j = choose|j: int| 0 <= j < prefix.len() && prefix[j] == a;
                            assert(pk[j] == a);
                        }
                        if a == address {
                            assert(pk[k - 1] == a);
                        }
                    }
                }
            }
        }
        assert(users_list@.take(n as int) =~= users_list@);
        Ok(())
    }

    fn is_user_blacklisted(&self, address: Address) -> (r: bool)
        ensures
            r == self.blacklist@.contains(address),
    {
        set_contains(&self.blacklist, address)
    }
}

impl LaunchpadState {
    /// Checks that a list of users can be blacklisted, without changing anything: every
    /// refund is checked before any is made.
    pub fn check_add_users_to_blacklist(&self, ctx: &CallContext, users_list: &Vec<Address>) -> (r: Result<(), LaunchpadError>)
        ensures
            r is Ok <==> self.may_change_blacklist(*ctx) && spec_refunds_fit(self, users_list@),
            r matches Err(e) ==> spec_blacklist_error(self, *ctx, users_list@) == Some(e),
    {
        self.require_extended_permissions(ctx)?;
        self.require_before_winner_selection(ctx.block_round)?;
        let n = users_list.len();
        let mut i: usize = 0;
        while i < n
            invariant
                n == users_list@.len(),
                i <= n,
                spec_blacklist_change_error(self, *ctx) is None,
                forall|j: int| 0 <= j < i ==> self.ticket_price.amount * confirmed_of(self, #[trigger] users_list@[j]) <= u128::MAX,
            decreases n - i,
        {
            let c = get_by_address(&self.nr_confirmed_tickets, users_list[i], 0);
            if self.ticket_price.amount.checked_mul(c as u128).is_none() {
                assert(!spec_refunds_fit(self, users_list@));
                return Err(LaunchpadError::ArithmeticError);
            }
            i = i + 1;
        }
        Ok(())
    }

    /// Checks that the blacklist may change, without changing anything.
    pub fn check_change_blacklist(&self, ctx: &CallContext) -> (r: Result<(), LaunchpadError>)
        ensures
            r is Ok <==> self.may_change_blacklist(*ctx),
            r matches Err(e) ==> spec_blacklist_change_error(self, *ctx) == Some(e),
    {
        self.require_extended_permissions(ctx)?;
        self.require_before_winner_selection(ctx.block_round)?;
        Ok(())
    }
}

} // verus!
