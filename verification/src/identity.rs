use vstd::prelude::*;

verus! {

/// An opaque, pre-authenticated caller identity.
///
/// Identities are handed in by an external authentication layer; the ledger
/// performs no verification of its own and never inspects an identity beyond
/// comparing it for equality.
#[derive(Clone, Copy, Debug, PartialEq, Eq, Structural)]
pub struct Identity {
    pub key: u64,
}

} // verus!
