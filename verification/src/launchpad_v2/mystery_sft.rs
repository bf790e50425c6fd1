//! The mystery SFT of the launchpad with an NFT draw.

use vstd::prelude::*;

use crate::launchpad_common::config::CallContext;
use crate::launchpad_common::errors::LaunchpadError;
use crate::launchpad_common::permissions::{spec_has_extended_permissions, PermissionsModule};
use crate::launchpad_common::storage::Address;
use crate::launchpad_v2::state::NftLaunchpadV2;
use crate::launchpad_with_nft::mystery_sft::{sft_name, spec_sft_names, CreateSftRequest, IssueSftRequest};

verus! {

/// How many of each mystery SFT are made at first.
pub const SFT_INITIAL_AMOUNT: u32 = 1;

/// What a user of the NFT draw receives.
#[derive(Debug, Clone, Copy, PartialEq, Eq, Structural)]
pub enum MysterySftTypes {
    ConfirmedWon,
    ConfirmedLost,
    NotConfirmed,
}

impl MysterySftTypes {
    /// The SFT nonce of an outcome.
    pub fn as_nonce(&self) -> (r: u64)
        ensures
            r == match *self {
                MysterySftTypes::ConfirmedWon => 1u64,
                MysterySftTypes::ConfirmedLost => 2u64,
                MysterySftTypes::NotConfirmed => 3u64,
            },
    {
        match *self {
            MysterySftTypes::ConfirmedWon => 1,
            MysterySftTypes::ConfirmedLost => 2,
            MysterySftTypes::NotConfirmed => 3,
        }
    }

    /// How many outcomes, hence SFT nonces, there are.
    pub fn total_instances() -> (r: usize)
        ensures
            r == 3,
    {
        3
    }
}

/// Setting up the mystery SFT.
pub trait MysterySftModule {
    fn issue_mystery_sft(&self, ctx: &CallContext, token_display_name: Vec<u8>, token_ticker: Vec<u8>, issue_cost: u128) -> Result<IssueSftRequest, LaunchpadError>;

    fn create_initial_sfts(&self, ctx: &CallContext, first_sft_balance: u128) -> Result<Vec<CreateSftRequest>, LaunchpadError>;

    fn set_transfer_role(&self, ctx: &CallContext, opt_addr_to_set: Option<Address>, sc_address: Address) -> Result<Address, LaunchpadError>;
}

impl MysterySftModule for NftLaunchpadV2 {
    /// Asks the chain to issue the mystery SFT; only a manager may.
    fn issue_mystery_sft(&self, ctx: &CallContext, token_display_name: Vec<u8>, token_ticker: Vec<u8>, issue_cost: u128) -> (r: Result<IssueSftRequest, LaunchpadError>)
        ensures
            r is Ok <==> spec_has_extended_permissions(&self.base, *ctx),
            r is Err ==> r == Err::<IssueSftRequest, _>(LaunchpadError::PermissionDenied),
            r matches Ok(req) ==> req.token_display_name@ == token_display_name@ && req.token_ticker@ == token_ticker@
                && req.issue_cost == issue_cost,
    {
        self.base.require_extended_permissions(ctx)?;
        Ok(IssueSftRequest { token_display_name, token_ticker, issue_cost })
    }

    /// Creates one SFT of each outcome, unless the contract already holds the first;
    /// only a manager may.  `first_sft_balance` is the contract's balance of nonce 1.
    fn create_initial_sfts(&self, ctx: &CallContext, first_sft_balance: u128) -> (r: Result<Vec<CreateSftRequest>, LaunchpadError>)
        ensures
            r is Ok <==> spec_has_extended_permissions(&self.base, *ctx) && first_sft_balance == 0,
            !spec_has_extended_permissions(&self.base, *ctx) ==> r == Err::<Vec<CreateSftRequest>, _>(LaunchpadError::PermissionDenied),
            spec_has_extended_permissions(&self.base, *ctx) && first_sft_balance != 0
                ==> r == Err::<Vec<CreateSftRequest>, _>(LaunchpadError::InitialSftsAlreadyCreated),
            r matches Ok(reqs) ==> {
                &&& reqs@.len() == 3
                &&& forall|i: int| 0 <= i < 3 ==> (#[trigger] reqs@[i]).token_id@ == self.mystery_sft_token_id@
                    && reqs@[i].amount == SFT_INITIAL_AMOUNT && reqs@[i].name@ == spec_sft_names()[i]
            },
    {
        self.base.require_extended_permissions(ctx)?;
        if first_sft_balance != 0 {
            return Err(LaunchpadError::InitialSftsAlreadyCreated);
        }
        let n = MysterySftTypes::total_instances();
        let mut reqs: Vec<CreateSftRequest> = Vec::new();
        let mut i: usize = 0;
        while i < n
            invariant
                n == 3,
                i <= n,
                reqs@.len() == i,
                forall|j: int| 0 <= j < i ==> (#[trigger] reqs@[j]).token_id@ == self.mystery_sft_token_id@
                    && reqs@[j].amount == SFT_INITIAL_AMOUNT && reqs@[j].name@ == spec_sft_names()[j],
            decreases n - i,
        {
            reqs.push(CreateSftRequest { token_id: self.mystery_sft_token_id.clone(), amount: SFT_INITIAL_AMOUNT, name: sft_name(i) });
            i = i + 1;
        }
        Ok(reqs)
    }

    /// Gives the transfer role of the mystery SFT to an address, by default the
    /// contract itself; only a manager may.
    fn set_transfer_role(&self, ctx: &CallContext, opt_addr_to_set: Option<Address>, sc_address: Address) -> (r: Result<Address, LaunchpadError>)
        ensures
            r is Ok <==> spec_has_extended_permissions(&self.base, *ctx),
            r is Err ==> r == Err::<Address, _>(LaunchpadError::PermissionDenied),
            r matches Ok(addr) ==> addr == match opt_addr_to_set {
                Some(a) => a,
                None => sc_address,
            },
    {
        self.base.require_extended_permissions(ctx)?;
        match opt_addr_to_set {
            Some(addr) => Ok(addr),
            None => Ok(sc_address),
        }
    }
}

} // verus!
