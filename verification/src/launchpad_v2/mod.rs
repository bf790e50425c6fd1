//! A launchpad with an NFT draw whose payments are collected as they come, and whose
//! winners are drawn in an endpoint of their own.

pub mod state;
pub mod mystery_sft;
pub mod confirm_nft;
pub mod nft_winners_selection;
