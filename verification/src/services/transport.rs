//! What an HTTP exchange with one of the services can end in, as far as the
//! pipeline reads it.

use vstd::prelude::*;

verus! {

/// A request that did not end in a successful response.
#[derive(Debug)]
pub enum HttpFailure {
    /// The service answered with an error status; the response body follows.
    Status(u16, String),
    /// No response arrived; a description of what went wrong on the way.
    Transport(String),
}

} // verus!
