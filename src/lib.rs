//! Per-round token issuance for a virtual-land economy: the minting
//! configuration, the issuance range of a round and its split between
//! land rewards and metaverse rewards.

pub mod issuance;
pub mod range;
pub mod rate;
