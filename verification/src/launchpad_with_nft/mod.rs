//! A launchpad where users who confirmed tickets may also pay for a draw of NFTs: the
//! winners get a "won" mystery SFT, the others a "lost" one and their payment back.

pub mod state;
pub mod mystery_sft;
pub mod confirm_nft;
pub mod nft_winners_selection;
pub mod claim_nft;
pub mod nft_blacklist;
pub mod contract;
