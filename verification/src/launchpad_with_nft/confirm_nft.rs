//! Entering the NFT draw, and the owner's claim of what the winners paid.

use vstd::prelude::*;

use crate::launchpad_common::config::{CallContext, LaunchpadState, Payment, Transfer};
use crate::launchpad_common::errors::LaunchpadError;
use crate::launchpad_common::launch_stage::{LaunchStage, LaunchStageModule};
use crate::launchpad_common::storage::{get_by_address, same_bytes, stored_or, Address};
use crate::launchpad_guaranteed_tickets_v2::guaranteed_tickets_init::{spec_set_push, vec_contains, vec_set_insert};
use crate::launchpad_with_nft::mystery_sft::MysterySftModule;
use crate::launchpad_with_nft::state::NftState;

verus! {

broadcast use vstd::std_specs::hash::group_hash_axioms;

/// A payment is exactly the cost of the draw.
pub open spec fn spec_is_nft_cost(cost: &Payment, payment: &Payment) -> bool {
    &&& payment.token_id@ == cost.token_id@
    &&& payment.token_nonce == cost.token_nonce
    &&& payment.amount == cost.amount
}

/// Why a user cannot enter the draw: it is not the confirmation period, the SFT setup
/// is not complete, the user confirmed no ticket, the user entered already, or the
/// payment is not the cost.
pub open spec fn spec_confirm_nft_error(nft: &NftState, base: &LaunchpadState, ctx: CallContext, payment: &Payment) -> Option<LaunchpadError> {
    if base.stage_at(ctx.block_round) != LaunchStage::Confirm {
        Some(LaunchpadError::NotInConfirmationPeriod)
    } else if !(nft.sft_setup_steps.issued_token && nft.sft_setup_steps.created_initial_tokens && nft.sft_setup_steps.set_transfer_role) {
        Some(LaunchpadError::SftSetupNotComplete)
    } else if stored_or(base.nr_confirmed_tickets@, ctx.caller, 0) == 0 {
        Some(LaunchpadError::MustConfirmTicketsFirst)
    } else if nft.confirmed_nft_user_list@.contains(ctx.caller) {
        Some(LaunchpadError::AlreadyConfirmedNft)
    } else if !spec_is_nft_cost(&nft.nft_cost, payment) {
        Some(LaunchpadError::InvalidPayment)
    } else {
        None
    }
}

/// Entering the NFT draw.
pub trait ConfirmNftModule {
    /// No user is twice in the draw or among its winners.
    spec fn draw_wf(&self) -> bool;

    fn confirm_nft(&mut self, base: &LaunchpadState, ctx: &CallContext, payment: &Payment) -> Result<(), LaunchpadError>
        requires
            old(self).draw_wf(),
    ;

    fn claim_nft_payment(&mut self, base: &LaunchpadState, ctx: &CallContext) -> Result<Option<Transfer>, LaunchpadError>;

    fn require_exact_nft_cost(&self, payment: &Payment) -> Result<(), LaunchpadError>;
}

impl ConfirmNftModule for NftState {
    open spec fn draw_wf(&self) -> bool {
        self.nft_wf()
    }

    /// A user who confirmed launchpad tickets pays the cost and enters the draw.
    fn confirm_nft(&mut self, base: &LaunchpadState, ctx: &CallContext, payment: &Payment) -> (r: Result<(), LaunchpadError>)
        ensures
            r is Err <==> spec_confirm_nft_error(old(self), base, *ctx, payment) is Some,
            r matches Err(e) ==> spec_confirm_nft_error(old(self), base, *ctx, payment) == Some(e),
            r is Err ==> *final(self) == *old(self),
            r is Ok ==> final(self).confirmed_nft_user_list@ == old(self).confirmed_nft_user_list@.push(ctx.caller)
                && final(self).nft_wf()
                && *final(self) == (NftState { confirmed_nft_user_list: final(self).confirmed_nft_user_list, ..*old(self) }),
    {
        base.require_confirmation_period(ctx.block_round)?;
        self.require_all_sft_setup_steps_complete()?;
        let caller = ctx.caller;
        if get_by_address(&base.nr_confirmed_tickets, caller, 0) == 0 {
            return Err(LaunchpadError::MustConfirmTicketsFirst);
        }
        if vec_contains(&self.confirmed_nft_user_list, caller) {
            return Err(LaunchpadError::AlreadyConfirmedNft);
        }
        self.require_exact_nft_cost(payment)?;
        vec_set_insert(&mut self.confirmed_nft_user_list, caller);
        Ok(())
    }

    /// In the claim period, what the winners of the draw paid goes to the caller, once.
    fn claim_nft_payment(&mut self, base: &LaunchpadState, ctx: &CallContext) -> (r: Result<Option<Transfer>, LaunchpadError>)
        ensures
            r is Ok <==> base.stage_at(ctx.block_round) == LaunchStage::Claim,
            r is Err ==> r == Err::<Option<Transfer>, _>(LaunchpadError::NotInClaimPeriod) && *final(self) == *old(self),
            r matches Ok(t) ==> {
                &&& *final(self) == (NftState { claimable_nft_payment: 0, ..*old(self) })
                &&& t is None <==> old(self).claimable_nft_payment == 0
                &&& t matches Some(p) ==> p.to == ctx.caller && p.token_id@ == old(self).nft_cost.token_id@
                    && p.token_nonce == old(self).nft_cost.token_nonce && p.amount == old(self).claimable_nft_payment
            },
    {
        base.require_claim_period(ctx.block_round)?;
        let claimable_amount = self.claimable_nft_payment;
        if claimable_amount > 0 {
            let t = Transfer {
                to: ctx.caller,
                token_id: self.nft_cost.token_id.clone(),
                token_nonce: self.nft_cost.token_nonce,
                amount: claimable_amount,
            };
            self.claimable_nft_payment = 0;
            Ok(Some(t))
        } else {
            Ok(None)
        }
    }

    fn require_exact_nft_cost(&self, payment: &Payment) -> (r: Result<(), LaunchpadError>)
        ensures
            r is Ok <==> spec_is_nft_cost(&self.nft_cost, payment),
            r is Err ==> r == Err::<(), _>(LaunchpadError::InvalidPayment),
    {
        if same_bytes(&payment.token_id, &self.nft_cost.token_id) && payment.token_nonce == self.nft_cost.token_nonce
            && payment.amount == self.nft_cost.amount {
            Ok(())
        } else {
            Err(LaunchpadError::InvalidPayment)
        }
    }
}

} // verus!
