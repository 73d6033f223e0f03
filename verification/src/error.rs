//! Why a request for a mapping came to nothing.

use vstd::prelude::*;

verus! {

/// A request for a new mapping failed, and no handle was made.
#[derive(Debug)]
pub enum MapError {
    /// The operating system refused the request. The error is the one it reported, as it came.
    Rejected(std::io::Error),
    /// The region was placed at address zero, which no handle may hold.
    NullAddress,
}

} // verus!
