//! The mystery SFT: one nonce for each outcome of the NFT draw.

use vstd::prelude::*;

use crate::launchpad_common::config::{CallContext, LaunchpadState};
use crate::launchpad_common::errors::LaunchpadError;
use crate::launchpad_common::permissions::{spec_has_extended_permissions, PermissionsModule};
use crate::launchpad_common::storage::Address;
use crate::launchpad_with_nft::state::NftState;

verus! {

/// How many of each mystery SFT are made and sent.
pub const NFT_AMOUNT: u32 = 1;

/// What a user of the NFT draw receives.
#[derive(Debug, Clone, Copy, PartialEq, Eq, Structural)]
pub enum MysterySftTypes {
    ConfirmedWon,
    ConfirmedLost,
    NotConfirmed,
}

impl MysterySftTypes {
    /// The SFT nonce of an outcome.
    pub fn as_nonce(&self) -> (r: u64)
        ensures
            r == spec_sft_nonce(*self),
    {
        match *self {
            MysterySftTypes::ConfirmedWon => 1,
            MysterySftTypes::ConfirmedLost => 2,
            MysterySftTypes::NotConfirmed => 3,
        }
    }
}

/// The SFT nonce of an outcome: the order in which the SFTs are created.
pub open spec fn spec_sft_nonce(t: MysterySftTypes) -> u64 {
    match t {
        MysterySftTypes::ConfirmedWon => 1,
        MysterySftTypes::ConfirmedLost => 2,
        MysterySftTypes::NotConfirmed => 3,
    }
}

/// Which steps of the SFT setup are done.
#[derive(Debug, Clone, Copy, PartialEq, Eq, Structural)]
pub struct SftSetupSteps {
    pub issued_token: bool,
    pub created_initial_tokens: bool,
    pub set_transfer_role: bool,
}

/// A request to the chain to issue the mystery SFT, with every role for the contract.
pub struct IssueSftRequest {
    pub token_display_name: Vec<u8>,
    pub token_ticker: Vec<u8>,
    pub issue_cost: u128,
}

/// A request to the chain to create SFTs of a name.
pub struct CreateSftRequest {
    pub token_id: Vec<u8>,
    pub amount: u32,
    pub name: Vec<u8>,
}

/// The names of the mystery SFTs, in nonce order.
pub open spec fn spec_sft_names() -> Seq<Seq<u8>> {
    seq![
        seq![67u8, 111, 110, 102, 105, 114, 109, 101, 100, 32, 87, 111, 110],
        seq![67u8, 111, 110, 102, 105, 114, 109, 101, 100, 32, 76, 111, 115, 116],
        seq![78u8, 111, 116, 32, 67, 111, 110, 102, 105, 114, 109, 101, 100],
    ]
}

/// The name of the SFT of a nonce, from 1.
pub fn sft_name(i: usize) -> (r: Vec<u8>)
    requires
        i < 3,
    ensures
        r@ == spec_sft_names()[i as int],
{
    let r = if i == 0 {
        vec![67u8, 111, 110, 102, 105, 114, 109, 101, 100, 32, 87, 111, 110]
    } else if i == 1 {
        vec![67u8, 111, 110, 102, 105, 114, 109, 101, 100, 32, 76, 111, 115, 116]
    } else {
        vec![78u8, 111, 116, 32, 67, 111, 110, 102, 105, 114, 109, 101, 100]
    };
    assert(r@ =~= spec_sft_names()[i as int]);
    r
}

/// Setting up the mystery SFT.
pub trait MysterySftModule {
    fn issue_mystery_sft(&self, base: &LaunchpadState, ctx: &CallContext, token_display_name: Vec<u8>, token_ticker: Vec<u8>, issue_cost: u128) -> Result<IssueSftRequest, LaunchpadError>;

    fn create_initial_sfts(&mut self, base: &LaunchpadState, ctx: &CallContext) -> Result<Vec<CreateSftRequest>, LaunchpadError>;

    fn set_transfer_role(&mut self, base: &LaunchpadState, ctx: &CallContext, opt_addr_to_set: Option<Address>, sc_address: Address) -> Result<Address, LaunchpadError>;

    fn require_all_sft_setup_steps_complete(&self) -> Result<(), LaunchpadError>;
}

impl MysterySftModule for NftState {
    /// Asks the chain to issue the mystery SFT; only a manager may.
    fn issue_mystery_sft(&self, base: &LaunchpadState, ctx: &CallContext, token_display_name: Vec<u8>, token_ticker: Vec<u8>, issue_cost: u128) -> (r: Result<IssueSftRequest, LaunchpadError>)
        ensures
            r is Ok <==> spec_has_extended_permissions(base, *ctx),
            r is Err ==> r == Err::<IssueSftRequest, _>(LaunchpadError::PermissionDenied),
            r matches Ok(req) ==> req.token_display_name@ == token_display_name@ && req.token_ticker@ == token_ticker@
                && req.issue_cost == issue_cost,
    {
        base.require_extended_permissions(ctx)?;
        Ok(IssueSftRequest { token_display_name, token_ticker, issue_cost })
    }

    /// Creates one SFT of each outcome, once; only a manager may.
    fn create_initial_sfts(&mut self, base: &LaunchpadState, ctx: &CallContext) -> (r: Result<Vec<CreateSftRequest>, LaunchpadError>)
        ensures
            r is Ok <==> spec_has_extended_permissions(base, *ctx) && !old(self).sft_setup_steps.created_initial_tokens,
            !spec_has_extended_permissions(base, *ctx) ==> r == Err::<Vec<CreateSftRequest>, _>(LaunchpadError::PermissionDenied),
            spec_has_extended_permissions(base, *ctx) && old(self).sft_setup_steps.created_initial_tokens
                ==> r == Err::<Vec<CreateSftRequest>, _>(LaunchpadError::InitialSftsAlreadyCreated),
            r is Err ==> *final(self) == *old(self),
            r matches Ok(reqs) ==> {
                &&& reqs@.len() == 3
                &&& forall|i: int| 0 <= i < 3 ==> (#[trigger] reqs@[i]).token_id@ == old(self).mystery_sft_token_id@
                    && reqs@[i].amount == NFT_AMOUNT && reqs@[i].name@ == spec_sft_names()[i]
                &&& *final(self) == (NftState {
                    sft_setup_steps: SftSetupSteps {
                        issued_token: true,
                        created_initial_tokens: true,
                        ..old(self).sft_setup_steps
                    },
                    ..*old(self)
                })
            },
    {
        base.require_extended_permissions(ctx)?;
        let mut steps = self.sft_setup_steps;
        if steps.created_initial_tokens {
            return Err(LaunchpadError::InitialSftsAlreadyCreated);
        }
        let mut reqs: Vec<CreateSftRequest> = Vec::new();
        let mut i: usize = 0;
        while i < 3
            invariant
                i <= 3,
                reqs@.len() == i,
                forall|j: int| 0 <= j < i ==> (#[trigger] reqs@[j]).token_id@ == self.mystery_sft_token_id@
                    && reqs@[j].amount == NFT_AMOUNT && reqs@[j].name@ == spec_sft_names()[j],
            decreases 3 - i,
        {
            reqs.push(CreateSftRequest { token_id: self.mystery_sft_token_id.clone(), amount: NFT_AMOUNT, name: sft_name(i) });
            i = i + 1;
        }
        steps.issued_token = true;
        steps.created_initial_tokens = true;
        self.sft_setup_steps = steps;
        Ok(reqs)
    }

    /// Gives the transfer role of the mystery SFT to an address, by default the
    /// contract itself, which completes the setup; only a manager may.
    fn set_transfer_role(&mut self, base: &LaunchpadState, ctx: &CallContext, opt_addr_to_set: Option<Address>, sc_address: Address) -> (r: Result<Address, LaunchpadError>)
        ensures
            r is Ok <==> spec_has_extended_permissions(base, *ctx),
            r is Err ==> r == Err::<Address, _>(LaunchpadError::PermissionDenied) && *final(self) == *old(self),
            r matches Ok(addr) ==> match opt_addr_to_set {
                Some(a) => addr == a && *final(self) == *old(self),
                None => addr == sc_address && *final(self) == (NftState {
                    sft_setup_steps: SftSetupSteps { set_transfer_role: true, ..old(self).sft_setup_steps },
                    ..*old(self)
                }),
            },
    {
        base.require_extended_permissions(ctx)?;
        match opt_addr_to_set {
            Some(addr) => Ok(addr),
            None => {
                self.sft_setup_steps.set_transfer_role = true;
                Ok(sc_address)
            },
        }
    }

    fn require_all_sft_setup_steps_complete(&self) -> (r: Result<(), LaunchpadError>)
        ensures
            r is Ok <==> self.sft_setup_steps.issued_token && self.sft_setup_steps.created_initial_tokens
                && self.sft_setup_steps.set_transfer_role,
            r is Err ==> r == Err::<(), _>(LaunchpadError::SftSetupNotComplete),
    {
        let steps = self.sft_setup_steps;
        if steps.issued_token && steps.created_initial_tokens && steps.set_transfer_role {
            Ok(())
        } else {
            Err(LaunchpadError::SftSetupNotComplete)
        }
    }
}

} // verus!
