//! A launchpad where users who stake enough, or who migrated tokens, are guaranteed a
//! winning ticket each, where the users of the top tier win a ticket of their own, and
//! where the launchpad tokens are released by epochs.

pub mod state;
pub mod guaranteed_tickets_init;
pub mod token_release;
pub mod guaranteed_ticket_winners;
pub mod contract;
