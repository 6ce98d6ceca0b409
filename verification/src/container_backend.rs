//! The addresses of the container servers that make up the backend.

use vstd::prelude::*;

verus! {

/// The address of a container server, as a URI.
pub struct ContainerServerAddr(pub String);

/// Collects the container servers to contact, from an iterator of their
/// addresses.
pub struct ContainerBackendBuilder<I> {
    pub addr_iter: I,
}

impl<I> ContainerBackendBuilder<I> {
    pub fn new(iter: I) -> (r: Self)
        ensures
            r.addr_iter == iter,
    {
        Self { addr_iter: iter }
    }
}

/// The name the builder greets each server with.
pub fn greeting_name() -> (r: String)
    ensures
        r@ == "Tonic"@,
{
    String::from_str("Tonic")
}

} // verus!
