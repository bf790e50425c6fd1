//! The endpoints of the launchpad with guarantees and an NFT draw.

use vstd::prelude::*;

use crate::launchpad_common::blacklist::{
    spec_blacklist_error, spec_blacklist_refunds, spec_confirmed_after_blacklist, BlacklistModule,
};
use crate::launchpad_common::config::{CallContext, LaunchpadState, Payment, Transfer};
use crate::launchpad_common::errors::LaunchpadError;
use crate::launchpad_common::launch_stage::LaunchStage;
use crate::launchpad_common::launchpad_main::{spec_claim_payment_error, spec_ticket_payment_transfers, LaunchpadMain};
use crate::launchpad_common::setup::SetupModule;
use crate::launchpad_common::storage::Address;
use crate::launchpad_common::user_interactions::{spec_claim_all_error, spec_claimed_all, ClaimResult, UserInteractionsModule};
use crate::launchpad_guaranteed_tickets::guaranteed_tickets_init::{
    spec_v1_add_effect, spec_v1_add_error, spec_v1_clear_after, spec_v1_clear_fails, ClearModelV1,
    GuaranteedEntryV1, GuaranteedTicketsInitModule,
};
use crate::launchpad_guaranteed_tickets::state::GuaranteedTicketsLaunchpadV1;
use crate::launchpad_nft_and_guaranteed_tickets::state::NftAndGuaranteedLaunchpad;
use crate::launchpad_with_nft::claim_nft::{spec_nft_outcome, ClaimNftModule};
use crate::launchpad_with_nft::confirm_nft::ConfirmNftModule;
use crate::launchpad_with_nft::mystery_sft::{spec_sft_nonce, MysterySftTypes, NFT_AMOUNT};
use crate::launchpad_with_nft::nft_blacklist::{spec_nft_blacklist, NftBlacklistModule};
use crate::launchpad_with_nft::state::NftState;
use crate::launchpad_guaranteed_tickets_v2::guaranteed_tickets_init::spec_swap_remove;

verus! {

/// The endpoints of the launchpad with guarantees and an NFT draw.
pub trait NftAndGuaranteedEndpoints {
    /// The launchpad's parts are well formed.
    spec fn launchpad_wf(&self) -> bool;

    fn add_tickets_endpoint(&mut self, ctx: &CallContext, entries: &Vec<GuaranteedEntryV1>) -> Result<(), LaunchpadError>
        requires
            old(self).launchpad_wf(),
    ;

    fn deposit_launchpad_tokens_endpoint(&mut self, ctx: &CallContext, payment: &Payment) -> Result<(), LaunchpadError>;

    fn add_users_to_blacklist_endpoint(&mut self, ctx: &CallContext, users: &Vec<Address>) -> Result<Vec<Transfer>, LaunchpadError>
        requires
            old(self).launchpad_wf(),
    ;

    fn claim_launchpad_tokens_endpoint(&mut self, ctx: &CallContext) -> Result<(ClaimResult, Transfer, Option<Transfer>), LaunchpadError>
        requires
            old(self).launchpad_wf(),
    ;

    fn claim_ticket_payment_endpoint(&mut self, ctx: &CallContext, launchpad_tokens_balance: u128) -> Result<(Vec<Transfer>, Option<Transfer>), LaunchpadError>;
}

impl NftAndGuaranteedEndpoints for NftAndGuaranteedLaunchpad {
    open spec fn launchpad_wf(&self) -> bool {
        self.wf()
    }

    /// The owner adds users with their tickets and guarantees.
    fn add_tickets_endpoint(&mut self, ctx: &CallContext, entries: &Vec<GuaranteedEntryV1>) -> (r: Result<(), LaunchpadError>)
        ensures
            ctx.caller != ctx.owner ==> r == Err::<(), _>(LaunchpadError::OnlyOwner),
            ctx.caller == ctx.owner ==> {
                &&& r is Err <==> spec_v1_add_error(&old(self).guaranteed, entries@, ctx.block_round) is Some
                &&& r matches Err(e) ==> spec_v1_add_error(&old(self).guaranteed, entries@, ctx.block_round) == Some(e)
            },
            r is Err ==> *final(self) == *old(self),
            r is Ok ==> spec_v1_add_effect(&old(self).guaranteed, &final(self).guaranteed, entries@)
                && final(self).nft == old(self).nft,
            final(self).wf(),
    {
        if ctx.caller != ctx.owner {
            return Err(LaunchpadError::OnlyOwner);
        }
        let r = self.guaranteed.add_tickets_with_guaranteed_winners(ctx.block_round, entries);
        proof {
            if r is Ok {
                assert(self.guaranteed.wf());
            }
        }
        r
    }

    /// The owner deposits the launchpad tokens for the winning tickets and for one
    /// guaranteed ticket per user who holds a guarantee.
    fn deposit_launchpad_tokens_endpoint(&mut self, ctx: &CallContext, payment: &Payment) -> (r: Result<(), LaunchpadError>)
        ensures
            r is Ok <==> {
                let total = old(self).guaranteed.base.nr_winning_tickets + old(self).guaranteed.users_with_guaranteed_ticket@.len();
                &&& ctx.caller == ctx.owner
                &&& total <= usize::MAX
                &&& !old(self).guaranteed.base.launchpad_tokens_deposited
                &&& payment.token_id@ == old(self).guaranteed.base.launchpad_token_id@
                &&& old(self).guaranteed.base.launchpad_tokens_per_winning_ticket * total <= u128::MAX
                &&& payment.amount == old(self).guaranteed.base.launchpad_tokens_per_winning_ticket * total
            },
            ctx.caller != ctx.owner ==> r == Err::<(), _>(LaunchpadError::OnlyOwner),
            ctx.caller == ctx.owner && old(self).guaranteed.base.nr_winning_tickets + old(self).guaranteed.users_with_guaranteed_ticket@.len() <= usize::MAX && old(self).guaranteed.base.launchpad_tokens_deposited
                ==> r == Err::<(), _>(LaunchpadError::TokensAlreadyDeposited),
            ctx.caller == ctx.owner && old(self).guaranteed.base.nr_winning_tickets + old(self).guaranteed.users_with_guaranteed_ticket@.len() <= usize::MAX && !old(self).guaranteed.base.launchpad_tokens_deposited
                && payment.token_id@ != old(self).guaranteed.base.launchpad_token_id@ ==> r == Err::<(), _>(LaunchpadError::WrongToken),
            ctx.caller == ctx.owner && old(self).guaranteed.base.nr_winning_tickets + old(self).guaranteed.users_with_guaranteed_ticket@.len() <= usize::MAX && !old(self).guaranteed.base.launchpad_tokens_deposited
                && payment.token_id@ == old(self).guaranteed.base.launchpad_token_id@
                && payment.amount != old(self).guaranteed.base.launchpad_tokens_per_winning_ticket * (old(self).guaranteed.base.nr_winning_tickets + old(self).guaranteed.users_with_guaranteed_ticket@.len())
                ==> r == Err::<(), _>(LaunchpadError::WrongAmount),
            ctx.caller == ctx.owner && !(old(self).guaranteed.base.nr_winning_tickets + old(self).guaranteed.users_with_guaranteed_ticket@.len() <= usize::MAX) ==> r == Err::<(), _>(LaunchpadError::ArithmeticError),
            r is Ok ==> final(self).nft == old(self).nft && final(self).guaranteed == (GuaranteedTicketsLaunchpadV1 {
                base: LaunchpadState {
                    launchpad_tokens_deposited: true,
                    total_launchpad_tokens_deposited: payment.amount,
                    ..old(self).guaranteed.base
                },
                ..old(self).guaranteed
            }),
            r is Err ==> *final(self) == *old(self),
    {
        if ctx.caller != ctx.owner {
            return Err(LaunchpadError::OnlyOwner);
        }
        let reserved_tickets = self.guaranteed.users_with_guaranteed_ticket.len();
        if reserved_tickets > usize::MAX - self.guaranteed.base.nr_winning_tickets {
            return Err(LaunchpadError::ArithmeticError);
        }
        let total_tickets = self.guaranteed.base.nr_winning_tickets + reserved_tickets;
        self.guaranteed.base.deposit_launchpad_tokens(total_tickets, payment)
    }

    /// Blacklists users: they are paid back their confirmed tickets and, where they
    /// entered the NFT draw, its cost; their guaranteed tickets go back to the winning
    /// tickets.  The whole call is refused, and changes nothing, on the first refusal.
    fn add_users_to_blacklist_endpoint(&mut self, ctx: &CallContext, users: &Vec<Address>) -> (r: Result<Vec<Transfer>, LaunchpadError>)
        ensures
            r is Err <==> spec_blacklist_error(&old(self).guaranteed.base, *ctx, users@) is Some
                || spec_v1_clear_fails(&old(self).guaranteed, users@),
            r matches Err(e) ==> if spec_blacklist_error(&old(self).guaranteed.base, *ctx, users@) is Some {
                spec_blacklist_error(&old(self).guaranteed.base, *ctx, users@) == Some(e)
            } else {
                e == LaunchpadError::ArithmeticError
            },
            r is Err ==> *final(self) == *old(self),
            r matches Ok(transfers) ==> {
                let g0 = old(self).guaranteed;
                let refunds = spec_blacklist_refunds(g0.base.nr_confirmed_tickets@, users@);
                let (l, paid) = spec_nft_blacklist(old(self).nft.confirmed_nft_user_list@, users@);
                let m0: ClearModelV1 = (g0.users_with_guaranteed_ticket@, 0int, g0.total_guaranteed_tickets as int, g0.user_ticket_status@);
                let (ws, removed, guaranteed, statuses) = spec_v1_clear_after(m0, users@);
                &&& final(self).guaranteed.base.blacklist@ == g0.base.blacklist@.union(users@.to_set())
                &&& final(self).guaranteed.base.nr_confirmed_tickets@ == spec_confirmed_after_blacklist(g0.base.nr_confirmed_tickets@, users@)
                &&& final(self).guaranteed.base.nr_winning_tickets == g0.base.nr_winning_tickets + removed
                &&& final(self).guaranteed.users_with_guaranteed_ticket@ == ws
                &&& final(self).guaranteed.total_guaranteed_tickets == guaranteed
                &&& final(self).guaranteed.user_ticket_status@ == statuses
                &&& final(self).guaranteed == (GuaranteedTicketsLaunchpadV1 {
                    base: LaunchpadState {
                        blacklist: final(self).guaranteed.base.blacklist,
                        nr_confirmed_tickets: final(self).guaranteed.base.nr_confirmed_tickets,
                        nr_winning_tickets: final(self).guaranteed.base.nr_winning_tickets,
                        ..g0.base
                    },
                    users_with_guaranteed_ticket: final(self).guaranteed.users_with_guaranteed_ticket,
                    total_guaranteed_tickets: final(self).guaranteed.total_guaranteed_tickets,
                    user_ticket_status: final(self).guaranteed.user_ticket_status,
                    ..g0
                })
                &&& final(self).nft.confirmed_nft_user_list@ == l
                &&& final(self).nft == (NftState { confirmed_nft_user_list: final(self).nft.confirmed_nft_user_list, ..old(self).nft })
                &&& transfers@.len() == refunds.len() + paid.len()
                &&& forall|i: int| 0 <= i < refunds.len() ==> {
                    &&& (#[trigger] transfers@[i]).to == refunds[i].0
                    &&& transfers@[i].token_id@ == g0.base.ticket_price.token_id@
                    &&& transfers@[i].token_nonce == 0
                    &&& transfers@[i].amount == g0.base.ticket_price.amount * refunds[i].1
                }
                &&& forall|i: int| 0 <= i < paid.len() ==> {
                    &&& (#[trigger] transfers@[refunds.len() + i]).to == paid[i]
                    &&& transfers@[refunds.len() + i].token_id@ == old(self).nft.nft_cost.token_id@
                    &&& transfers@[refunds.len() + i].token_nonce == old(self).nft.nft_cost.token_nonce
                    &&& transfers@[refunds.len() + i].amount == old(self).nft.nft_cost.amount
                }
            },
            final(self).wf(),
            final(self).guaranteed.base.nr_winning_tickets + final(self).guaranteed.total_guaranteed_tickets
                == old(self).guaranteed.base.nr_winning_tickets + old(self).guaranteed.total_guaranteed_tickets,
    {
        self.guaranteed.base.check_add_users_to_blacklist(ctx, users)?;
        self.guaranteed.clear_users_with_guaranteed_ticket_after_blacklist(users)?;
        let mut transfers = match self.guaranteed.base.add_users_to_blacklist(ctx, users) {
            Ok(t) => t,
            Err(e) => {
                proof {
                    assert(false);
                }
                return Err(e);
            },
        };
        let mut nft_transfers = self.nft.refund_nft_cost_after_blacklist(users);
        transfers.append(&mut nft_transfers);
        Ok(transfers)
    }

    /// A user claims the launchpad tokens of the winning tickets and the refund of the
    /// others, then the mystery SFT of the NFT draw, with the cost back where the user
    /// entered the draw and lost.
    fn claim_launchpad_tokens_endpoint(&mut self, ctx: &CallContext) -> (r: Result<(ClaimResult, Transfer, Option<Transfer>), LaunchpadError>)
        ensures
            r is Ok <==> old(self).guaranteed.base.can_claim_all(*ctx),
            r matches Err(e) ==> e == spec_claim_all_error(&old(self).guaranteed.base, *ctx),
            r is Err ==> *final(self) == *old(self),
            r matches Ok((claim, sft, refund)) ==> {
                let caller = ctx.caller;
                let outcome = spec_nft_outcome(&old(self).nft, caller);
                &&& spec_claimed_all(&old(self).guaranteed.base, &final(self).guaranteed.base, *ctx, claim)
                &&& final(self).guaranteed == (GuaranteedTicketsLaunchpadV1 { base: final(self).guaranteed.base, ..old(self).guaranteed })
                &&& sft.to == caller && sft.token_id@ == old(self).nft.mystery_sft_token_id@
                    && sft.token_nonce == spec_sft_nonce(outcome) && sft.amount == NFT_AMOUNT
                &&& refund is Some <==> outcome == MysterySftTypes::ConfirmedLost
                &&& refund matches Some(t) ==> t.to == caller && t.token_id@ == old(self).nft.nft_cost.token_id@
                    && t.token_nonce == old(self).nft.nft_cost.token_nonce && t.amount == old(self).nft.nft_cost.amount
                &&& final(self).nft.nft_selection_winners@ == spec_swap_remove(old(self).nft.nft_selection_winners@, caller)
                &&& final(self).nft.confirmed_nft_user_list@ == if outcome == MysterySftTypes::ConfirmedWon {
                    old(self).nft.confirmed_nft_user_list@
                } else {
                    spec_swap_remove(old(self).nft.confirmed_nft_user_list@, caller)
                }
                &&& final(self).nft == (NftState {
                    confirmed_nft_user_list: final(self).nft.confirmed_nft_user_list,
                    nft_selection_winners: final(self).nft.nft_selection_winners,
                    ..old(self).nft
                })
            },
    {
        let claim = self.guaranteed.base.claim_refunded_tickets_and_launchpad_tokens(ctx)?;
        let (sft, refund) = self.nft.claim_nft(ctx.caller);
        Ok((claim, sft, refund))
    }

    /// The owner takes the payments of the winning tickets and the spare launchpad
    /// tokens, then what the winners of the NFT draw paid.
    fn claim_ticket_payment_endpoint(&mut self, ctx: &CallContext, launchpad_tokens_balance: u128) -> (r: Result<(Vec<Transfer>, Option<Transfer>), LaunchpadError>)
        ensures
            r is Ok <==> {
                let base = old(self).guaranteed.base;
                &&& ctx.caller == ctx.owner
                &&& base.stage_at(ctx.block_round) == LaunchStage::Claim
                &&& base.launchpad_tokens_per_winning_ticket * base.nr_winning_tickets <= launchpad_tokens_balance
            },
            r matches Err(e) ==> e == spec_claim_payment_error(&old(self).guaranteed.base, *ctx),
            r is Err ==> *final(self) == *old(self),
            r matches Ok((transfers, nft_payment)) ==> {
                let base = old(self).guaranteed.base;
                &&& final(self).guaranteed == (GuaranteedTicketsLaunchpadV1 {
                    base: LaunchpadState { claimable_ticket_payment: 0, ..base },
                    ..old(self).guaranteed
                })
                &&& final(self).nft == (NftState { claimable_nft_payment: 0, ..old(self).nft })
                &&& spec_ticket_payment_transfers(&base, *ctx, launchpad_tokens_balance, transfers@)
                &&& nft_payment is None <==> old(self).nft.claimable_nft_payment == 0
                &&& nft_payment matches Some(p) ==> p.to == ctx.caller && p.token_id@ == old(self).nft.nft_cost.token_id@
                    && p.token_nonce == old(self).nft.nft_cost.token_nonce && p.amount == old(self).nft.claimable_nft_payment
            },
    {
        let transfers = self.guaranteed.base.claim_ticket_payment(ctx, launchpad_tokens_balance)?;
        let nft_payment = match self.nft.claim_nft_payment(&self.guaranteed.base, ctx) {
            Ok(t) => t,
            Err(e) => {
                proof {
                    assert(false);
                }
                return Err(e);
            },
        };
        Ok((transfers, nft_payment))
    }
}

} // verus!
