//! The endpoints of the launchpad with an NFT draw.

use vstd::prelude::*;

use crate::launchpad_common::blacklist::{spec_blacklist_refunds, spec_confirmed_after_blacklist, BlacklistModule};
use crate::launchpad_common::config::{CallContext, LaunchpadState, Payment, Transfer};
use crate::launchpad_common::errors::LaunchpadError;
use crate::launchpad_common::launch_stage::Flags;
use crate::launchpad_common::launchpad_main::{spec_init_error, spec_fresh, spec_valid_init_args, LaunchpadInitArgs};
use crate::launchpad_common::storage::Address;
use crate::launchpad_common::tickets::{spec_can_add_tickets, spec_tickets_after, TicketsModule};
use crate::launchpad_common::token_id::{egld_representation, is_egld, is_valid_esdt_identifier, spec_valid_esdt_identifier};
use crate::launchpad_with_nft::confirm_nft::ConfirmNftModule;
use crate::launchpad_with_nft::mystery_sft::SftSetupSteps;
use crate::launchpad_with_nft::nft_blacklist::{spec_nft_blacklist, NftBlacklistModule};
use crate::launchpad_with_nft::nft_winners_selection::NftWinnersSelectionModule;
use crate::launchpad_with_nft::state::{NftLaunchpad, NftState};

verus! {

/// Why a cost cannot be set: EGLD with a nonce, an invalid ESDT identifier, or nothing to pay.
pub open spec fn spec_cost_error(cost: &Payment) -> Option<LaunchpadError> {
    if cost.token_id@ == egld_representation() && cost.token_nonce != 0 {
        Some(LaunchpadError::EgldTokenHasNoNonce)
    } else if cost.token_id@ != egld_representation() && !spec_valid_esdt_identifier(cost.token_id@) {
        Some(LaunchpadError::InvalidEsdtTokenId)
    } else if cost.amount == 0 {
        Some(LaunchpadError::CostZero)
    } else {
        None
    }
}

/// Checks that a cost can be set: EGLD has no nonce, an ESDT identifier must be valid,
/// and the amount may not be zero.
pub fn require_valid_cost(cost: &Payment) -> (r: Result<(), LaunchpadError>)
    ensures
        r is Err <==> spec_cost_error(cost) is Some,
        r matches Err(e) ==> spec_cost_error(cost) == Some(e),
{
    if is_egld(&cost.token_id) {
        if cost.token_nonce != 0 {
            return Err(LaunchpadError::EgldTokenHasNoNonce);
        }
    } else {
        if !is_valid_esdt_identifier(&cost.token_id) {
            return Err(LaunchpadError::InvalidEsdtTokenId);
        }
    }
    if cost.amount == 0 {
        return Err(LaunchpadError::CostZero);
    }
    Ok(())
}

/// The endpoints of the launchpad with an NFT draw.
pub trait NftLaunchpadEndpoints {
    /// The ticket tables and the draw are well formed.
    spec fn launchpad_wf(&self) -> bool;

    fn add_tickets_endpoint(&mut self, ctx: &CallContext, address_number_pairs: &Vec<(Address, usize)>) -> Result<(), LaunchpadError>
        requires
            old(self).launchpad_wf(),
    ;

    fn add_users_to_blacklist_endpoint(&mut self, ctx: &CallContext, users: &Vec<Address>) -> Result<Vec<Transfer>, LaunchpadError>
        requires
            old(self).launchpad_wf(),
    ;

    fn has_user_confirmed_nft(&self, user: Address) -> bool;

    fn has_user_won_nft(&self, user: Address) -> bool;
}

impl NftLaunchpad {
    /// The state as a whole is well formed.
    pub open spec fn wf(&self) -> bool {
        &&& self.base.tickets_wf()
        &&& self.nft.nft_wf()
    }

    /// Creates the launchpad: a valid cost and some NFTs for the draw, then the shared
    /// state from the arguments, with no stage flag set and no SFT setup step done.
    pub fn init(ctx: &CallContext, args: LaunchpadInitArgs, nft_cost: Payment, total_available_nfts: usize) -> (r: Result<NftLaunchpad, LaunchpadError>)
        ensures
            r is Ok <==> spec_cost_error(&nft_cost) is None && total_available_nfts > 0 && spec_valid_init_args(&args),
            spec_cost_error(&nft_cost) matches Some(e) ==> r is Err && r->Err_0 == e,
            spec_cost_error(&nft_cost) is None && total_available_nfts == 0
                ==> r is Err && r->Err_0 == LaunchpadError::InvalidTotalAvailableNfts,
            spec_cost_error(&nft_cost) is None && total_available_nfts > 0 && !spec_valid_init_args(&args)
                ==> r is Err && r->Err_0 == spec_init_error(&args),
            r matches Ok(s) ==> {
                &&& spec_fresh(&s.base)
                &&& s.wf()
                &&& s.base.launchpad_token_id@ == args.launchpad_token_id@
                &&& s.base.launchpad_tokens_per_winning_ticket == args.launchpad_tokens_per_winning_ticket
                &&& s.base.ticket_price.token_id@ == args.ticket_payment_token@
                &&& s.base.ticket_price.amount == args.ticket_price
                &&& s.base.nr_winning_tickets == args.nr_winning_tickets
                &&& s.base.configuration.confirmation_period_start_round == args.confirmation_period_start_round
                &&& s.base.configuration.winner_selection_start_round == args.winner_selection_start_round
                &&& s.base.configuration.claim_start_round == args.claim_start_round
                &&& s.base.flags == (Flags {
                    has_winner_selection_process_started: false,
                    were_tickets_filtered: false,
                    were_winners_selected: false,
                    was_additional_step_completed: false,
                })
                &&& s.base.support_address == ctx.caller
                &&& s.nft.nft_cost.token_id@ == nft_cost.token_id@
                &&& s.nft.nft_cost.token_nonce == nft_cost.token_nonce
                &&& s.nft.nft_cost.amount == nft_cost.amount
                &&& s.nft.total_available_nfts == total_available_nfts
                &&& s.nft.sft_setup_steps == (SftSetupSteps { issued_token: false, created_initial_tokens: false, set_transfer_role: false })
                &&& s.nft.mystery_sft_token_id@.len() == 0
                &&& s.nft.confirmed_nft_user_list@.len() == 0
                &&& s.nft.nft_selection_winners@.len() == 0
                &&& s.nft.claimable_nft_payment == 0
            },
    {
        require_valid_cost(&nft_cost)?;
        if total_available_nfts == 0 {
            return Err(LaunchpadError::InvalidTotalAvailableNfts);
        }
        let flags = Flags {
            has_winner_selection_process_started: false,
            were_tickets_filtered: false,
            were_winners_selected: false,
            was_additional_step_completed: false,
        };
        let args = LaunchpadInitArgs { flags, ..args };
        let base = LaunchpadState::init_base(ctx, args)?;
        Ok(NftLaunchpad {
            base,
            nft: NftState {
                nft_cost,
                total_available_nfts,
                sft_setup_steps: SftSetupSteps { issued_token: false, created_initial_tokens: false, set_transfer_role: false },
                mystery_sft_token_id: Vec::new(),
                confirmed_nft_user_list: Vec::new(),
                nft_selection_winners: Vec::new(),
                claimable_nft_payment: 0,
            },
        })
    }
}

impl NftLaunchpadEndpoints for NftLaunchpad {
    open spec fn launchpad_wf(&self) -> bool {
        self.wf()
    }

    /// The owner adds users with their tickets.
    fn add_tickets_endpoint(&mut self, ctx: &CallContext, address_number_pairs: &Vec<(Address, usize)>) -> (r: Result<(), LaunchpadError>)
        ensures
            r is Ok <==> {
                &&& ctx.caller == ctx.owner
                &&& old(self).base.stage_at(ctx.block_round) == crate::launchpad_common::launch_stage::LaunchStage::AddTickets
                &&& spec_can_add_tickets(old(self).base.last_ticket_id, old(self).base.ticket_range_for_address@, address_number_pairs@)
            },
            r is Ok ==> {
                let (l, rs, bs) = spec_tickets_after(
                    old(self).base.last_ticket_id,
                    old(self).base.ticket_range_for_address@,
                    old(self).base.ticket_batch@,
                    address_number_pairs@,
                );
                &&& final(self).base.last_ticket_id == l
                &&& final(self).base.ticket_range_for_address@ == rs
                &&& final(self).base.ticket_batch@ == bs
                &&& final(self).base.same_except_tickets(&old(self).base)
                &&& final(self).nft == old(self).nft
            },
            r == Err::<(), _>(LaunchpadError::OnlyOwner) <==> ctx.caller != ctx.owner,
            r is Err ==> *final(self) == *old(self),
    {
        self.base.add_tickets(ctx, address_number_pairs)
    }

    /// Blacklists users: they are paid back their confirmed tickets and, where they
    /// entered the NFT draw, its cost.
    fn add_users_to_blacklist_endpoint(&mut self, ctx: &CallContext, users: &Vec<Address>) -> (r: Result<Vec<Transfer>, LaunchpadError>)
        ensures
            r is Ok <==> old(self).base.may_change_blacklist(*ctx)
                && crate::launchpad_common::blacklist::spec_refunds_fit(&old(self).base, users@),
            r matches Err(e) ==> crate::launchpad_common::blacklist::spec_blacklist_error(&old(self).base, *ctx, users@) == Some(e),
            r is Err ==> *final(self) == *old(self),
            r matches Ok(transfers) ==> {
                let refunds = spec_blacklist_refunds(old(self).base.nr_confirmed_tickets@, users@);
                let (l, paid) = spec_nft_blacklist(old(self).nft.confirmed_nft_user_list@, users@);
                &&& final(self).base.blacklist@ == old(self).base.blacklist@.union(users@.to_set())
                &&& final(self).base.nr_confirmed_tickets@ == spec_confirmed_after_blacklist(old(self).base.nr_confirmed_tickets@, users@)
                &&& final(self).base == (LaunchpadState {
                    blacklist: final(self).base.blacklist,
                    nr_confirmed_tickets: final(self).base.nr_confirmed_tickets,
                    ..old(self).base
                })
                &&& final(self).nft.confirmed_nft_user_list@ == l
                &&& final(self).nft == (NftState { confirmed_nft_user_list: final(self).nft.confirmed_nft_user_list, ..old(self).nft })
                &&& transfers@.len() == refunds.len() + paid.len()
                &&& forall|i: int| 0 <= i < refunds.len() ==> {
                    &&& (#[trigger] transfers@[i]).to == refunds[i].0
                    &&& transfers@[i].token_id@ == old(self).base.ticket_price.token_id@
                    &&& transfers@[i].token_nonce == 0
                    &&& transfers@[i].amount == old(self).base.ticket_price.amount * refunds[i].1
                }
                &&& forall|i: int| 0 <= i < paid.len() ==> {
                    &&& (#[trigger] transfers@[refunds.len() + i]).to == paid[i]
                    &&& transfers@[refunds.len() + i].token_id@ == old(self).nft.nft_cost.token_id@
                    &&& transfers@[refunds.len() + i].token_nonce == old(self).nft.nft_cost.token_nonce
                    &&& transfers@[refunds.len() + i].amount == old(self).nft.nft_cost.amount
                }
            },
    {
        let mut transfers = self.base.add_users_to_blacklist(ctx, users)?;
        let ghost t1 = transfers@;
        let mut nft_transfers = self.nft.refund_nft_cost_after_blacklist(users);
        transfers.append(&mut nft_transfers);
        Ok(transfers)
    }

    /// Whether a user entered the NFT draw, won or not.
    fn has_user_confirmed_nft(&self, user: Address) -> (r: bool)
        ensures
            r == (self.nft.confirmed_nft_user_list@.contains(user) || self.nft.nft_selection_winners@.contains(user)),
    {
        self.nft.has_user_confirmed_nft(user)
    }

    /// Whether a user won the NFT draw.
    fn has_user_won_nft(&self, user: Address) -> (r: bool)
        ensures
            r == self.nft.nft_selection_winners@.contains(user),
    {
        self.nft.has_user_won_nft(user)
    }
}

} // verus!
