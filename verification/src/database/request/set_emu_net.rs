//! Store an emulation network back into the database.

use vstd::prelude::*;

verus! {

/// Store `emu_net` under its id.
pub struct SetEmuNet<N> {
    pub emu_net: N,
}

impl<N> SetEmuNet<N> {
    pub fn new(emu_net: N) -> (r: Self)
        ensures
            r.emu_net == emu_net,
    {
        SetEmuNet { emu_net }
    }
}

/// The answer to a request to store an emulation network, given whether the
/// vertex that it is stored under exists.
pub fn set_emu_net_outcome(stored: bool) -> (r: Result<(), String>)
    ensures
        stored <==> r is Ok,
        r matches Err(m) ==> m@ == "EmuNet not exist"@,
{
    if stored {
        Ok(())
    } else {
        Err(String::from_str("EmuNet not exist"))
    }
}

} // verus!
