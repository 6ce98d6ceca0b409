//! The service that connects to the container servers.

use vstd::prelude::*;

verus! {

/// Makes a connection to each container server of a list.
pub struct ConnService();

} // verus!
