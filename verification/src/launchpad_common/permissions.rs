//! Who may manage the blacklist: the owner, or a support address that the owner names.

use vstd::prelude::*;

use crate::launchpad_common::config::{CallContext, LaunchpadState};
use crate::launchpad_common::errors::LaunchpadError;
use crate::launchpad_common::storage::Address;

verus! {

/// The caller is the owner or the support address.
pub open spec fn spec_has_extended_permissions(state: &LaunchpadState, ctx: CallContext) -> bool {
    ctx.caller == ctx.owner || ctx.caller == state.support_address
}

/// The owner and a support address share the management rights.
pub trait PermissionsModule {
    fn add_support_address(&mut self, ctx: &CallContext, address: Address) -> Result<(), LaunchpadError>;

    fn require_extended_permissions(&self, ctx: &CallContext) -> Result<(), LaunchpadError>;

    fn get_support_address(&self) -> Address;
}

impl PermissionsModule for LaunchpadState {
    fn add_support_address(&mut self, ctx: &CallContext, address: Address) -> (r: Result<(), LaunchpadError>)
        ensures
            r is Ok <==> ctx.caller == ctx.owner,
            r is Err ==> r == Err::<(), _>(LaunchpadError::OnlyOwner) && *final(self) == *old(self),
            r is Ok ==> *final(self) == (LaunchpadState { support_address: address, ..*old(self) }),
    {
        if ctx.caller != ctx.owner {
            return Err(LaunchpadError::OnlyOwner);
        }
        self.support_address = address;
        Ok(())
    }

    fn require_extended_permissions(&self, ctx: &CallContext) -> (r: Result<(), LaunchpadError>)
        ensures
            r is Ok <==> spec_has_extended_permissions(self, *ctx),
            r is Err ==> r == Err::<(), _>(LaunchpadError::PermissionDenied),
    {
        if ctx.caller == ctx.owner || ctx.caller == self.support_address {
            Ok(())
        } else {
            Err(LaunchpadError::PermissionDenied)
        }
    }

    fn get_support_address(&self) -> (r: Address)
        ensures
            r == self.support_address,
    {
        self.support_address
    }
}

} // verus!
