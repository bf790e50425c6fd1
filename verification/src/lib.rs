//! A launchpad for token sales decided by lottery tickets.
//!
//! Users are allotted tickets, confirm (pay for) some of them, the unconfirmed and
//! blacklisted tickets are filtered out, a Fisher-Yates shuffle picks the winning
//! tickets, and every user finally claims launchpad tokens for the winning tickets
//! and a refund for the others.  Each module below holds the state of one part of
//! the contract as plain values and the rules that change it.

pub mod launchpad_common;
pub mod launchpad_guaranteed_tickets_v2;
pub mod launchpad_with_nft;
pub mod launchpad_v2;
pub mod launchpad_guaranteed_tickets;
pub mod launchpad_nft_and_guaranteed_tickets;
pub mod launchpad;
pub mod launchpad_locked_tokens;
