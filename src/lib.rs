//! Revenue accounting and claim settlement for creative works shared among
//! several rights holders.
//!
//! The ledger keeps, per work, a royalty split (who owns which share, in basis
//! points) and a revenue tracker (cumulative revenue, per-source buckets and a
//! bounded transaction log). Claim tokens carry a holder's entitlement; a claim
//! computes the holder's share net of the platform fee. All arithmetic is
//! checked: an overflow is reported as an error and leaves state unchanged.
//!
//! Value transfers, clocks and persistence belong to the caller: operations take
//! the current time as an argument and return the transfers to perform.

pub mod address;
pub mod constants;
pub mod error;
pub mod batch;
pub mod registry;
pub mod revenue_tracker;
pub mod royalty_nft;
pub mod royalty_split;
pub mod treasury;

pub use address::Address;
pub use error::CustomError;
pub use batch::{BatchReport, RecordOutcome, SkipReason, StreamingData};
pub use registry::{Registry, WorkAccount};
pub use revenue_tracker::{RevenueSource, RevenueTracker, RevenueTransaction};
pub use royalty_nft::{ClaimAmounts, ClaimPayout, RoyaltyNft};
pub use royalty_split::{Collaborator, RoyaltySplit, ShareGrant};
pub use treasury::{Transfer, Treasury};
