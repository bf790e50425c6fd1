//! A launchpad whose winners get part of their launchpad tokens locked until an epoch:
//! that part goes to a locking contract, the rest straight to the user.

pub mod state;
pub mod locked_launchpad_token_send;
pub mod contract;
