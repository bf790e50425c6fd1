//! Claiming the mystery SFT of the NFT draw.

use vstd::prelude::*;

use crate::launchpad_common::config::Transfer;
use crate::launchpad_common::storage::Address;
use crate::launchpad_guaranteed_tickets_v2::guaranteed_tickets_init::{lemma_swap_remove, spec_swap_remove, vec_swap_remove_value};
use crate::launchpad_with_nft::mystery_sft::{spec_sft_nonce, MysterySftTypes, NFT_AMOUNT};
use crate::launchpad_with_nft::confirm_nft::ConfirmNftModule;
use crate::launchpad_with_nft::state::NftState;

verus! {

/// The outcome of the draw for a user: won, entered and lost, or never entered.
pub open spec fn spec_nft_outcome(nft: &NftState, user: Address) -> MysterySftTypes {
    if nft.nft_selection_winners@.contains(user) {
        MysterySftTypes::ConfirmedWon
    } else if nft.confirmed_nft_user_list@.contains(user) {
        MysterySftTypes::ConfirmedLost
    } else {
        MysterySftTypes::NotConfirmed
    }
}

/// Claiming the mystery SFT.
pub trait ClaimNftModule: ConfirmNftModule {
    fn claim_nft(&mut self, caller: Address) -> (Transfer, Option<Transfer>)
        requires
            old(self).draw_wf(),
    ;
}

impl ClaimNftModule for NftState {
    /// A user gets the mystery SFT of the user's outcome, and leaves the draw; one who
    /// entered and lost also gets the cost back.
    fn claim_nft(&mut self, caller: Address) -> (r: (Transfer, Option<Transfer>))
        ensures
            ({
                let outcome = spec_nft_outcome(old(self), caller);
                &&& r.0.to == caller && r.0.token_id@ == old(self).mystery_sft_token_id@
                    && r.0.token_nonce == spec_sft_nonce(outcome) && r.0.amount == NFT_AMOUNT
                &&& r.1 is Some <==> outcome == MysterySftTypes::ConfirmedLost
                &&& r.1 matches Some(t) ==> t.to == caller && t.token_id@ == old(self).nft_cost.token_id@
                    && t.token_nonce == old(self).nft_cost.token_nonce && t.amount == old(self).nft_cost.amount
                &&& final(self).nft_selection_winners@ == spec_swap_remove(old(self).nft_selection_winners@, caller)
                &&& final(self).confirmed_nft_user_list@ == if outcome == MysterySftTypes::ConfirmedWon {
                    old(self).confirmed_nft_user_list@
                } else {
                    spec_swap_remove(old(self).confirmed_nft_user_list@, caller)
                }
            }),
            *final(self) == (NftState {
                confirmed_nft_user_list: final(self).confirmed_nft_user_list,
                nft_selection_winners: final(self).nft_selection_winners,
                ..*old(self)
            }),
            final(self).nft_wf(),
    {
        proof {
            lemma_swap_remove(self.nft_selection_winners@, caller);
            lemma_swap_remove(self.confirmed_nft_user_list@, caller);
        }
        let mystery_sft_type = if vec_swap_remove_value(&mut self.nft_selection_winners, caller) {
            MysterySftTypes::ConfirmedWon
        } else if vec_swap_remove_value(&mut self.confirmed_nft_user_list, caller) {
            MysterySftTypes::ConfirmedLost
        } else {
            MysterySftTypes::NotConfirmed
        };
        let sft = Transfer {
            to: caller,
            token_id: self.mystery_sft_token_id.clone(),
            token_nonce: mystery_sft_type.as_nonce(),
            amount: NFT_AMOUNT as u128,
        };
        let refund = match mystery_sft_type {
            MysterySftTypes::ConfirmedLost => Some(Transfer {
                to: caller,
                token_id: self.nft_cost.token_id.clone(),
                token_nonce: self.nft_cost.token_nonce,
                amount: self.nft_cost.amount,
            }),
            _ => None,
        };
        (sft, refund)
    }
}

} // verus!
