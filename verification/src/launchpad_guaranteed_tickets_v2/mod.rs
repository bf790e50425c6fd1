//! A launchpad where some users are guaranteed winning tickets, and where the launchpad
//! tokens are released by milestones.

pub mod guaranteed_tickets_init;
pub mod token_release;
pub mod state;
pub mod events;
pub mod guaranteed_ticket_winners;
pub mod contract;
