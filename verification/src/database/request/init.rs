//! Initialise the database with the servers of the cluster.

use vstd::prelude::*;

verus! {

/// Initialise the database with the given server descriptions.
pub struct Init<S> {
    pub server_infos: Vec<S>,
}

impl<S> Init<S> {
    pub fn new(server_infos: Vec<S>) -> (r: Self)
        ensures
            r.server_infos == server_infos,
    {
        Init { server_infos }
    }
}

} // verus!
