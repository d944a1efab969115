use vstd::prelude::*;

use crate::identity::Identity;

verus! {

/// A deterministic storage address.
///
/// No index table maps identifiers to storage locations. Instead, every
/// record's address is recomputed from a fixed tag plus its key material, so
/// any client that knows the key can recompute the address without querying
/// the ledger, and the store's create-if-absent primitive turns address
/// uniqueness directly into key uniqueness.
#[derive(Clone, Copy, Debug, PartialEq, Eq, Structural)]
pub enum Address {
    /// The address of the poll record with the given identifier.
    Poll { poll_id: u64 },
    /// The address of the vote record of one voter in one poll.
    Vote { poll_id: u64, voter: Identity },
}

/// Derives the storage address of a poll record from its identifier.
pub fn poll_address(poll_id: u64) -> (a: Address)
    ensures
        a == (Address::Poll { poll_id }),
{
    Address::Poll { poll_id }
}

/// Derives the storage address of a vote record from the poll identifier and
/// the voter's identity.
pub fn vote_address(poll_id: u64, voter: Identity) -> (a: Address)
    ensures
        a == (Address::Vote { poll_id, voter }),
{
    Address::Vote { poll_id, voter }
}

/// Poll addresses collide exactly when the poll identifiers coincide: the
/// derivation introduces no second source of truth that could desynchronize.
pub proof fn lemma_poll_address_injective(id1: u64, id2: u64)
    ensures
        (Address::Poll { poll_id: id1 }) == (Address::Poll { poll_id: id2 }) <==> id1 == id2,
{
}

/// Vote addresses collide exactly when both the poll identifier and the
/// voter coincide, so at most one vote record can ever be created per
/// (poll, voter) pair.
pub proof fn lemma_vote_address_injective(id1: u64, v1: Identity, id2: u64, v2: Identity)
    ensures
        (Address::Vote { poll_id: id1, voter: v1 }) == (Address::Vote { poll_id: id2, voter: v2 })
            <==> (id1 == id2 && v1 == v2),
{
}

/// Addresses of the two record kinds never collide, whatever their keys.
pub proof fn lemma_tags_disjoint(id1: u64, id2: u64, voter: Identity)
    ensures
        (Address::Poll { poll_id: id1 }) != (Address::Vote { poll_id: id2, voter }),
{
}

} // verus!
