//! Handles around a full-node client.
//!
//! The read and full-node API surfaces are thin shells over one shared
//! client; which transport that client speaks is the surrounding process's
//! business, so both shells are generic over it.

use vstd::prelude::*;

verus! {

/// The full-node API surface, holding the shared client.
pub struct SuiFullNode<C> {
    pub client: C,
}

impl<C> SuiFullNode<C> {
    pub fn new(client: C) -> (s: Self)
        ensures
            s.client == client,
    {
        SuiFullNode { client }
    }
}

/// The write API surface: queries go to the full node, results are kept in
/// the store.
pub struct WriteApi<S, C> {
    pub fullnode: C,
    pub state: S,
}

impl<S, C> WriteApi<S, C> {
    pub fn new(state: S, fullnode_client: C) -> (s: Self)
        ensures
            s.state == state,
            s.fullnode == fullnode_client,
    {
        WriteApi { fullnode: fullnode_client, state }
    }
}

/// The read API surface, holding the shared client.
pub struct FullNodeReadApi<C> {
    pub client: C,
}

impl<C> FullNodeReadApi<C> {
    pub fn new(client: C) -> (s: Self)
        ensures
            s.client == client,
    {
        FullNodeReadApi { client }
    }
}

} // verus!
