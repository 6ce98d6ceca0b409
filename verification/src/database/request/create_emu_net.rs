//! Create an emulation network for a user.

use vstd::prelude::*;

verus! {

/// Create emulation network `emu_net` of `capacity` devices for `user`.
pub struct CreateEmuNet {
    pub user: String,
    pub emu_net: String,
    pub capacity: u32,
}

impl CreateEmuNet {
    pub fn new(user: String, emu_net: String, capacity: u32) -> (r: Self)
        ensures
            r.user == user,
            r.emu_net == emu_net,
            r.capacity == capacity,
    {
        CreateEmuNet { user, emu_net, capacity }
    }
}

} // verus!
