//! The first launchpad: its stages follow the chain's epoch, the ticket price and the
//! configuration live in storage of their own, and the winners are drawn as in the
//! later flavours, by filtering the tickets and shuffling them.

pub mod ticket_status;
pub mod launch_stage;
pub mod state;
pub mod config;
pub mod setup;
pub mod tickets;
pub mod ongoing_operation;
pub mod winner_selection;
pub mod contract;
