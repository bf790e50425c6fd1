//! Blacklisted users leave the NFT draw and get its cost back.

use vstd::prelude::*;

use crate::launchpad_common::config::Transfer;
use crate::launchpad_common::storage::Address;
use crate::launchpad_guaranteed_tickets_v2::guaranteed_tickets_init::{lemma_swap_remove, spec_swap_remove, vec_swap_remove_value};
use crate::launchpad_with_nft::confirm_nft::ConfirmNftModule;
use crate::launchpad_with_nft::state::NftState;

verus! {

/// The users left in the draw after each user of a list leaves it in turn, and the users
/// paid back: those who were in the draw at their turn.
pub open spec fn spec_nft_blacklist(list: Seq<Address>, users: Seq<Address>) -> (Seq<Address>, Seq<Address>)
    decreases users.len(),
{
    if users.len() == 0 {
        (list, seq![])
    } else {
        let (l, paid) = spec_nft_blacklist(list, users.drop_last());
        let u = users.last();
        if l.contains(u) {
            (spec_swap_remove(l, u), paid.push(u))
        } else {
            (l, paid)
        }
    }
}

/// Paying back the NFT cost of blacklisted users.
pub trait NftBlacklistModule: ConfirmNftModule {
    fn refund_nft_cost_after_blacklist(&mut self, users: &Vec<Address>) -> Vec<Transfer>
        requires
            old(self).draw_wf(),
    ;
}

impl NftBlacklistModule for NftState {
    /// Each listed user in the draw leaves it and gets the cost back.
    fn refund_nft_cost_after_blacklist(&mut self, users: &Vec<Address>) -> (r: Vec<Transfer>)
        ensures
            ({
                let (l, paid) = spec_nft_blacklist(old(self).confirmed_nft_user_list@, users@);
                &&& final(self).confirmed_nft_user_list@ == l
                &&& r@.len() == paid.len()
                &&& forall|i: int| 0 <= i < paid.len() ==> (#[trigger] r@[i]).to == paid[i]
                    && r@[i].token_id@ == old(self).nft_cost.token_id@ && r@[i].token_nonce == old(self).nft_cost.token_nonce
                    && r@[i].amount == old(self).nft_cost.amount
            }),
            *final(self) == (NftState { confirmed_nft_user_list: final(self).confirmed_nft_user_list, ..*old(self) }),
            final(self).nft_wf(),
    {
        let ghost old_self = *self;
        let mut transfers: Vec<Transfer> = Vec::new();
        let n = users.len();
        let mut k: usize = 0;
        while k < n
            invariant
                n == users@.len(),
                k <= n,
                old_self.nft_wf(),
                self.nft_wf(),
                ({
                    let (l, paid) = spec_nft_blacklist(old_self.confirmed_nft_user_list@, users@.take(k as int));
                    &&& self.confirmed_nft_user_list@ == l
                    &&& transfers@.len() == paid.len()
                    &&& forall|i: int| 0 <= i < paid.len() ==> (#[trigger] transfers@[i]).to == paid[i]
                        && transfers@[i].token_id@ == old_self.nft_cost.token_id@
                        && transfers@[i].token_nonce == old_self.nft_cost.token_nonce
                        && transfers@[i].amount == old_self.nft_cost.amount
                }),
                *self == (NftState { confirmed_nft_user_list: self.confirmed_nft_user_list, ..old_self }),
            decreases n - k,
        {
            let user = users[k];
            proof {
                assert(users@.take(k as int + 1).drop_last() =~= users@.take(k as int));
                lemma_swap_remove(self.confirmed_nft_user_list@, user);
            }
            if vec_swap_remove_value(&mut self.confirmed_nft_user_list, user) {
                transfers.push(Transfer {
                    to: user,
                    token_id: self.nft_cost.token_id.clone(),
                    token_nonce: self.nft_cost.token_nonce,
                    amount: self.nft_cost.amount,
                });
            }
            k = k + 1;
        }
        assert(users@.take(n as int) =~= users@);
        transfers
    }
}

} // verus!
