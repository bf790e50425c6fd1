//! The payments that leave the contract: ticket refunds and launchpad tokens.

use vstd::prelude::*;

use crate::launchpad_common::config::{LaunchpadState, Payment, Transfer};
use crate::launchpad_common::errors::LaunchpadError;
use crate::launchpad_common::storage::Address;

verus! {

/// The refund of `nr` tickets at the current price, or nothing for no tickets.
pub open spec fn spec_refund_amount(state: &LaunchpadState, nr: usize) -> int {
    state.ticket_price.amount * nr
}

/// The launchpad tokens that `nr` winning tickets earn.
pub open spec fn spec_launchpad_tokens_for(state: &LaunchpadState, nr: usize) -> int {
    state.launchpad_tokens_per_winning_ticket * nr
}

/// Working out the payments that leave the contract.
pub trait TokenSendModule {
    fn refund_ticket_payment(&self, address: Address, nr_tickets_to_refund: usize) -> Result<Option<Transfer>, LaunchpadError>;

    fn send_launchpad_tokens(&self, nr_claimed_tickets: usize) -> Result<Option<Payment>, LaunchpadError>;
}

impl TokenSendModule for LaunchpadState {
    /// The transfer that pays back tickets, in the ticket payment token.
    fn refund_ticket_payment(&self, address: Address, nr_tickets_to_refund: usize) -> (r: Result<Option<Transfer>, LaunchpadError>)
        ensures
            r is Err <==> spec_refund_amount(self, nr_tickets_to_refund) > u128::MAX,
            r is Err ==> r == Err::<Option<Transfer>, _>(LaunchpadError::ArithmeticError),
            r matches Ok(o) ==> (o is None <==> nr_tickets_to_refund == 0),
            r matches Ok(Some(t)) ==> {
                &&& t.to == address
                &&& t.token_id@ == self.ticket_price.token_id@
                &&& t.token_nonce == 0
                &&& t.amount == spec_refund_amount(self, nr_tickets_to_refund)
            },
    {
        let amount = match self.ticket_price.amount.checked_mul(nr_tickets_to_refund as u128) {
            Some(a) => a,
            None => return Err(LaunchpadError::ArithmeticError),
        };
        if nr_tickets_to_refund == 0 {
            return Ok(None);
        }
        Ok(Some(Transfer { to: address, token_id: self.ticket_price.token_id.clone(), token_nonce: 0, amount }))
    }

    /// The launchpad tokens that winning tickets earn, to be sent by the flavour's own rule.
    fn send_launchpad_tokens(&self, nr_claimed_tickets: usize) -> (r: Result<Option<Payment>, LaunchpadError>)
        ensures
            r is Err <==> spec_launchpad_tokens_for(self, nr_claimed_tickets) > u128::MAX,
            r is Err ==> r == Err::<Option<Payment>, _>(LaunchpadError::ArithmeticError),
            r matches Ok(o) ==> (o is None <==> nr_claimed_tickets == 0),
            r matches Ok(Some(p)) ==> {
                &&& p.token_id@ == self.launchpad_token_id@
                &&& p.token_nonce == 0
                &&& p.amount == spec_launchpad_tokens_for(self, nr_claimed_tickets)
            },
    {
        let amount = match self.launchpad_tokens_per_winning_ticket.checked_mul(nr_claimed_tickets as u128) {
            Some(a) => a,
            None => return Err(LaunchpadError::ArithmeticError),
        };
        if nr_claimed_tickets == 0 {
            return Ok(None);
        }
        Ok(Some(Payment { token_id: self.launchpad_token_id.clone(), token_nonce: 0, amount }))
    }
}

} // verus!
