//! A launchpad with both the staking and migration guarantees and the NFT draw: after
//! the lottery, the guaranteed tickets are given first and the NFT winners drawn next.

pub mod state;
pub mod combined_selection;
pub mod contract;
