//! Voter weight attestation for NFT-based governance.
//!
//! A voter proves that they hold an NFT of a configured, verified collection;
//! the library then writes that collection's weight into their voter weight
//! record, stamped with the current slot and scoped to the requested action.

pub mod pubkey;
pub mod error;
pub mod state;
pub mod metadata;
pub mod attestation;
pub mod laws;
