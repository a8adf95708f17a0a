//! Gossip core of a stake-weighted authority network.
//!
//! Each authority continuously pulls recently processed transaction
//! certificates from a rotating subset of its peers. This crate holds the
//! verified logic of that protocol: the stake-weighted committee table, the
//! per-peer backoff tracker, the peer-selection policy, the per-peer
//! streaming session expressed as a state machine, and the orchestrator that
//! keeps a bounded pool of sessions alive. The surrounding I/O (opening
//! streams, timers, task scheduling) lives outside the library and drives
//! these state machines with plain values.
//!
//! Around the core stand the node's smaller verified pieces: the
//! transaction-response records with their validations and the indexing
//! records derived from them, the hex and base58 conversions, the API
//! handles, and the genesis package table.

use vstd::prelude::*;

pub mod availability;
pub mod committee;
pub mod encoding;
pub mod genesis;
pub mod gossip;
pub mod node;
pub mod response;
pub mod session;

verus! {

/// Upper bound on how many sessions one fill pass may add: `min(N - 1, degree)`
/// for a committee of `N` members and a requested gossip `degree`.
pub fn gossip_target(committee_size: usize, degree: usize) -> (target: usize)
    requires
        committee_size >= 1,
    ensures
        target == if committee_size - 1 <= degree {
            committee_size - 1
        } else {
            degree as int
        },
        committee_size == 1 || degree == 0 ==> target == 0,
{
    if committee_size - 1 <= degree {
        committee_size - 1
    } else {
        degree
    }
}

} // verus!
