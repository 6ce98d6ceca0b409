//! The decision of the second-generation worker when asked to initialise the
//! database: both the server list and the user map exist, or neither does.

use vstd::prelude::*;

verus! {

/// Whether initialisation has to create the server list and the user map,
/// given how many vertexes of each type exist. A database holding exactly
/// one of each is initialised already; one holding neither is not.
pub fn init_needed(server_lists: usize, user_maps: usize) -> (r: bool)
    requires
        (server_lists == 1 && user_maps == 1) || (server_lists == 0 && user_maps == 0),
    ensures
        r == (server_lists == 0),
{
    if server_lists == 1 && user_maps == 1 {
        false
    } else {
        true
    }
}

} // verus!
