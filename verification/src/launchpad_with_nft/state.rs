//! The state of the NFT draw, and of a launchpad with one.

use vstd::prelude::*;

use crate::launchpad_common::config::{LaunchpadState, Payment};
use crate::launchpad_common::storage::Address;
use crate::launchpad_with_nft::mystery_sft::SftSetupSteps;

verus! {

/// What the NFT draw keeps.
pub struct NftState {
    /// The price of taking part in the draw.
    pub nft_cost: Payment,
    pub total_available_nfts: usize,
    pub sft_setup_steps: SftSetupSteps,
    /// The mystery SFT's token, empty until it is issued.
    pub mystery_sft_token_id: Vec<u8>,
    /// The users in the draw who have not won yet, in the order of an unordered set
    /// mapper: no user twice, and removing one moves the last into its place.
    pub confirmed_nft_user_list: Vec<Address>,
    /// The winners of the draw, kept the same way.
    pub nft_selection_winners: Vec<Address>,
    pub claimable_nft_payment: u128,
}

/// A launchpad with an NFT draw.
pub struct NftLaunchpad {
    pub base: LaunchpadState,
    pub nft: NftState,
}

impl NftState {
    /// No user is twice in the draw or among the winners.
    pub open spec fn nft_wf(&self) -> bool {
        &&& self.confirmed_nft_user_list@.no_duplicates()
        &&& self.nft_selection_winners@.no_duplicates()
    }
}

} // verus!
