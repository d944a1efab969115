//! A poll-based voting ledger.
//!
//! Administrators create polls with a fixed candidate slate, identified
//! callers cast at most one vote each, and the poll's admin may close the
//! poll to further voting. The ledger models an address-keyed store whose
//! create-if-absent discipline is the sole mechanism preventing duplicate
//! polls and duplicate votes: every record lives at an address derived
//! deterministically from a tag and its key material, so uniqueness of the
//! key is exactly uniqueness of the address.

pub mod address;
pub mod error;
pub mod identity;
pub mod ledger;
pub mod poll;
