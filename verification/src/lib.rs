//! A custodial, time-boxed auction with escrowed bidding and delegated
//! asset custody.
//!
//! A seller locks a unique digital asset under auction control, bidders
//! escrow funds in a per-auction vault and are refunded atomically when
//! outbid, and after the deadline the seller withdraws the winning funds
//! while the winner (or the seller, if nobody bid) receives the asset.
//!
//! The library is the decision core: each operation validates its
//! preconditions against the auction record and the vault, updates them,
//! and reports the ledger transfers the host must perform. The host owns
//! the ledger itself (balances, asset accounts, the clock) and carries the
//! reported transfers out; every operation is a single all-or-nothing
//! unit, so a rejected call leaves every record unchanged.
//!
//! Timing convention: `start_time` and `deadline` are both absolute
//! timestamps. Bids are accepted while `start_time <= now < deadline`;
//! claims are accepted once `now >= deadline`.

pub mod bid;
pub mod claim_nft;
pub mod claim_sol;
pub mod create_auction;
pub mod errors;
pub mod laws;
pub mod state;

pub use bid::Bid;
pub use claim_nft::ClaimNFT;
pub use claim_sol::ClaimSol;
pub use create_auction::create_auction;
pub use create_auction::CreateAuction;
pub use errors::AuctionError;
pub use state::AssetRecord;
pub use state::Auction;
pub use state::Transfer;
pub use state::Vault;
