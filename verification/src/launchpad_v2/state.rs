//! The state of the launchpad with an NFT draw.

use vstd::prelude::*;

use crate::launchpad_common::config::{CallContext, LaunchpadState, Payment};
use crate::launchpad_common::errors::LaunchpadError;
use crate::launchpad_common::launch_stage::Flags;
use crate::launchpad_common::launchpad_main::{spec_init_error, spec_fresh, spec_valid_init_args, LaunchpadInitArgs};
use crate::launchpad_common::storage::Address;
use crate::launchpad_common::tickets::TicketsModule;
use crate::launchpad_with_nft::contract::{require_valid_cost, spec_cost_error};

verus! {

/// The shared launchpad state and what the NFT draw keeps.
pub struct NftLaunchpadV2 {
    pub base: LaunchpadState,
    pub nft_cost: Payment,
    pub total_available_nfts: u64,
    /// The mystery SFT's token, empty until it is issued.
    pub mystery_sft_token_id: Vec<u8>,
    /// The users in the draw who have not won yet, kept as an unordered set.
    pub confirmed_nft_user_list: Vec<Address>,
    /// The winners of the draw, kept the same way.
    pub nft_selection_winners: Vec<Address>,
    /// What the users in the draw paid so far.
    pub accumulated_nft_payment: u128,
    /// What the winners of the draw paid.
    pub claimable_nft_payment: u128,
}

impl NftLaunchpadV2 {
    /// The ticket tables are well formed and no user is twice in the draw or among its
    /// winners.
    pub open spec fn wf(&self) -> bool {
        &&& self.base.tickets_wf()
        &&& self.confirmed_nft_user_list@.no_duplicates()
        &&& self.nft_selection_winners@.no_duplicates()
    }

    /// Creates the launchpad: a valid cost and some NFTs for the draw, then the shared
    /// state from the arguments, with no stage flag set.
    pub fn init(ctx: &CallContext, args: LaunchpadInitArgs, nft_cost: Payment, total_available_nfts: u64) -> (r: Result<NftLaunchpadV2, LaunchpadError>)
        ensures
            r is Ok <==> spec_cost_error(&nft_cost) is None && total_available_nfts > 0 && spec_valid_init_args(&args),
            spec_cost_error(&nft_cost) matches Some(e) ==> r is Err && r->Err_0 == e,
            spec_cost_error(&nft_cost) is None && total_available_nfts == 0
                ==> r is Err && r->Err_0 == LaunchpadError::InvalidTotalAvailableNfts,
            spec_cost_error(&nft_cost) is None && total_available_nfts > 0 && !spec_valid_init_args(&args)
                ==> r is Err && r->Err_0 == spec_init_error(&args),
            r matches Ok(s) ==> {
                &&& spec_fresh(&s.base)
                &&& s.wf()
                &&& s.base.launchpad_token_id@ == args.launchpad_token_id@
                &&& s.base.launchpad_tokens_per_winning_ticket == args.launchpad_tokens_per_winning_ticket
                &&& s.base.ticket_price.token_id@ == args.ticket_payment_token@
                &&& s.base.ticket_price.amount == args.ticket_price
                &&& s.base.nr_winning_tickets == args.nr_winning_tickets
                &&& s.base.configuration.confirmation_period_start_round == args.confirmation_period_start_round
                &&& s.base.configuration.winner_selection_start_round == args.winner_selection_start_round
                &&& s.base.configuration.claim_start_round == args.claim_start_round
                &&& s.base.flags == (Flags {
                    has_winner_selection_process_started: false,
                    were_tickets_filtered: false,
                    were_winners_selected: false,
                    was_additional_step_completed: false,
                })
                &&& s.base.support_address == ctx.caller
                &&& s.nft_cost.token_id@ == nft_cost.token_id@
                &&& s.nft_cost.token_nonce == nft_cost.token_nonce
                &&& s.nft_cost.amount == nft_cost.amount
                &&& s.total_available_nfts == total_available_nfts
                &&& s.mystery_sft_token_id@.len() == 0
                &&& s.confirmed_nft_user_list@.len() == 0
                &&& s.nft_selection_winners@.len() == 0
                &&& s.accumulated_nft_payment == 0
                &&& s.claimable_nft_payment == 0
            },
    {
        require_valid_cost(&nft_cost)?;
        if total_available_nfts == 0 {
            return Err(LaunchpadError::InvalidTotalAvailableNfts);
        }
        let flags = Flags {
            has_winner_selection_process_started: false,
            were_tickets_filtered: false,
            were_winners_selected: false,
            was_additional_step_completed: false,
        };
        let args = LaunchpadInitArgs { flags, ..args };
        let base = LaunchpadState::init_base(ctx, args)?;
        Ok(NftLaunchpadV2 {
            base,
            nft_cost,
            total_available_nfts,
            mystery_sft_token_id: Vec::new(),
            confirmed_nft_user_list: Vec::new(),
            nft_selection_winners: Vec::new(),
            accumulated_nft_payment: 0,
            claimable_nft_payment: 0,
        })
    }
}

} // verus!
