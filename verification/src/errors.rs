//! The error taxonomy of the query client.

use vstd::prelude::*;

verus! {

/// Every failure a query operation can surface to its caller.
#[derive(Clone, Copy, Debug, PartialEq, Eq, Structural)]
pub enum QueryError {
    /// The address matches none of the supported script patterns, or its
    /// payload cannot be decoded.
    UnsupportedAddress,
    /// The connection to the server failed or an I/O error occurred.
    TransportFailure,
    /// A server response is missing a required field or holds one of the
    /// wrong type.
    MalformedResponse,
}

} // verus!
