use vstd::prelude::*;

verus! {

/// 100% expressed in basis points.
pub const TOTAL_BASIS_POINTS: u16 = 10_000;

/// Mint fee of a freshly initialized treasury.
pub const DEFAULT_MINT_FEE: u64 = 10_000_000;

/// Platform fee of a freshly initialized treasury, in basis points.
pub const DEFAULT_PLATFORM_FEE: u16 = 500;

/// Most collaborators a royalty split may list.
pub const MAX_COLLABORATORS: usize = 10;

/// Longest collaborator name, in bytes.
pub const MAX_COLLABORATOR_NAME_LENGTH: usize = 50;

/// Longest revenue source label, in bytes.
pub const MAX_SOURCE_LENGTH: usize = 20;

/// Longest revenue description, in bytes.
pub const MAX_DESCRIPTION_LENGTH: usize = 100;

/// Capacity of a revenue tracker's transaction log.
pub const MAX_TRANSACTIONS: usize = 100;

/// Most records one streaming batch may carry.
pub const MAX_STREAMING_BATCH_SIZE: usize = 50;

} // verus!
