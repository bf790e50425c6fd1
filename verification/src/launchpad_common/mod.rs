//! The rules shared by every launchpad flavour.

pub mod storage;
pub mod errors;
pub mod token_id;
pub mod codec;
pub mod random;
pub mod config;
pub mod launch_stage;
pub mod common_events;
pub mod setup;
pub mod permissions;
pub mod token_send;
pub mod blacklist;
pub mod tickets;
pub mod ongoing_operation;
pub mod user_interactions;
pub mod winner_selection;
pub mod launchpad_main;
