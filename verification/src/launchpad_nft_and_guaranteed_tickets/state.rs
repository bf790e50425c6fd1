//! The state of the launchpad with guarantees and an NFT draw.

use vstd::prelude::*;

use crate::launchpad_guaranteed_tickets::state::GuaranteedTicketsLaunchpadV1;
use crate::launchpad_with_nft::state::NftState;

verus! {

/// The launchpad with guarantees, and the NFT draw.
pub struct NftAndGuaranteedLaunchpad {
    pub guaranteed: GuaranteedTicketsLaunchpadV1,
    pub nft: NftState,
}

impl NftAndGuaranteedLaunchpad {
    /// Both parts are well formed.
    pub open spec fn wf(&self) -> bool {
        &&& self.guaranteed.wf()
        &&& self.nft.nft_wf()
    }
}

} // verus!
