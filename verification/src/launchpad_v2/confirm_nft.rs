//! Entering the NFT draw, paid as one enters, and the owner's claim of the payments.

use vstd::prelude::*;

use crate::launchpad_common::config::{CallContext, LaunchpadState, Payment, Transfer};
use crate::launchpad_common::errors::LaunchpadError;
use crate::launchpad_common::launch_stage::{LaunchStage, LaunchStageModule};
use crate::launchpad_common::storage::{get_by_address, same_bytes, stored_or, Address};
use crate::launchpad_guaranteed_tickets_v2::guaranteed_tickets_init::{vec_contains, vec_set_insert};
use crate::launchpad_v2::state::NftLaunchpadV2;
use crate::launchpad_with_nft::confirm_nft::spec_is_nft_cost;

verus! {

broadcast use vstd::std_specs::hash::group_hash_axioms;

/// Why a user cannot enter the draw: it is not the confirmation period, the user
/// confirmed no ticket, the user entered already, the payment is not the cost, or the
/// payments collected leave the integers.
pub open spec fn spec_confirm_nft_v2_error(s: &NftLaunchpadV2, ctx: CallContext, payment: &Payment) -> Option<LaunchpadError> {
    if s.base.stage_at(ctx.block_round) != LaunchStage::Confirm {
        Some(LaunchpadError::NotInConfirmationPeriod)
    } else if stored_or(s.base.nr_confirmed_tickets@, ctx.caller, 0) == 0 {
        Some(LaunchpadError::MustConfirmTicketsFirst)
    } else if s.confirmed_nft_user_list@.contains(ctx.caller) {
        Some(LaunchpadError::AlreadyConfirmedNft)
    } else if !spec_is_nft_cost(&s.nft_cost, payment) {
        Some(LaunchpadError::InvalidPayment)
    } else if s.accumulated_nft_payment + payment.amount > u128::MAX {
        Some(LaunchpadError::ArithmeticError)
    } else {
        None
    }
}

/// Entering the NFT draw.
pub trait ConfirmNftModule {
    /// The ticket tables and the draw are well formed.
    spec fn draw_wf(&self) -> bool;

    fn confirm_nft(&mut self, ctx: &CallContext, payment: &Payment) -> Result<(), LaunchpadError>
        requires
            old(self).draw_wf(),
    ;

    fn claim_nft_payment(&mut self, ctx: &CallContext) -> Result<Option<Transfer>, LaunchpadError>;

    fn require_exact_nft_cost(&self, payment: &Payment) -> Result<(), LaunchpadError>;

    fn confirmed_list_to_vec_mapper(&self) -> Vec<Address>;
}

impl ConfirmNftModule for NftLaunchpadV2 {
    open spec fn draw_wf(&self) -> bool {
        self.wf()
    }

    /// A user who confirmed launchpad tickets pays the cost and enters the draw; the
    /// payment is collected.
    fn confirm_nft(&mut self, ctx: &CallContext, payment: &Payment) -> (r: Result<(), LaunchpadError>)
        ensures
            r is Err <==> spec_confirm_nft_v2_error(old(self), *ctx, payment) is Some,
            r matches Err(e) ==> spec_confirm_nft_v2_error(old(self), *ctx, payment) == Some(e),
            r is Err ==> *final(self) == *old(self),
            r is Ok ==> final(self).confirmed_nft_user_list@ == old(self).confirmed_nft_user_list@.push(ctx.caller)
                && final(self).wf()
                && *final(self) == (NftLaunchpadV2 {
                    confirmed_nft_user_list: final(self).confirmed_nft_user_list,
                    accumulated_nft_payment: (old(self).accumulated_nft_payment + payment.amount) as u128,
                    ..*old(self)
                }),
    {
        self.base.require_confirmation_period(ctx.block_round)?;
        let caller = ctx.caller;
        if get_by_address(&self.base.nr_confirmed_tickets, caller, 0) == 0 {
            return Err(LaunchpadError::MustConfirmTicketsFirst);
        }
        if vec_contains(&self.confirmed_nft_user_list, caller) {
            return Err(LaunchpadError::AlreadyConfirmedNft);
        }
        self.require_exact_nft_cost(payment)?;
        let accumulated = match self.accumulated_nft_payment.checked_add(payment.amount) {
            Some(a) => a,
            None => {
                return Err(LaunchpadError::ArithmeticError);
            },
        };
        vec_set_insert(&mut self.confirmed_nft_user_list, caller);
        self.accumulated_nft_payment = accumulated;
        Ok(())
    }

    /// The owner takes what the users in the draw paid so far.
    fn claim_nft_payment(&mut self, ctx: &CallContext) -> (r: Result<Option<Transfer>, LaunchpadError>)
        ensures
            r is Ok <==> ctx.caller == ctx.owner,
            r is Err ==> r == Err::<Option<Transfer>, _>(LaunchpadError::OnlyOwner) && *final(self) == *old(self),
            r matches Ok(t) ==> {
                &&& *final(self) == (NftLaunchpadV2 { accumulated_nft_payment: 0, ..*old(self) })
                &&& t is None <==> old(self).accumulated_nft_payment == 0
                &&& t matches Some(p) ==> p.to == ctx.caller && p.token_id@ == old(self).nft_cost.token_id@
                    && p.token_nonce == old(self).nft_cost.token_nonce && p.amount == old(self).accumulated_nft_payment
            },
    {
        if ctx.caller != ctx.owner {
            return Err(LaunchpadError::OnlyOwner);
        }
        let accumulated_amount = self.accumulated_nft_payment;
        if accumulated_amount > 0 {
            let t = Transfer {
                to: ctx.caller,
                token_id: self.nft_cost.token_id.clone(),
                token_nonce: self.nft_cost.token_nonce,
                amount: accumulated_amount,
            };
            self.accumulated_nft_payment = 0;
            Ok(Some(t))
        } else {
            Ok(None)
        }
    }

    fn require_exact_nft_cost(&self, payment: &Payment) -> (r: Result<(), LaunchpadError>)
        ensures
            r is Ok <==> spec_is_nft_cost(&self.nft_cost, payment),
            r is Err ==> r == Err::<(), _>(LaunchpadError::InvalidPayment),
    {
        if same_bytes(&payment.token_id, &self.nft_cost.token_id) && payment.token_nonce == self.nft_cost.token_nonce
            && payment.amount == self.nft_cost.amount {
            Ok(())
        } else {
            Err(LaunchpadError::InvalidPayment)
        }
    }

    /// The users in the draw, in their stored order.
    fn confirmed_list_to_vec_mapper(&self) -> (r: Vec<Address>)
        ensures
            r@ == self.confirmed_nft_user_list@,
    {
        self.confirmed_nft_user_list.clone()
    }
}

} // verus!
