//! The decode failure taxonomy.

use vstd::prelude::*;

verus! {

/// A failure while decoding the byte buffer.
///
/// Every variant carries the cursor offset at which the failure was
/// detected, for diagnostics.
#[derive(Clone, Copy, Debug, PartialEq, Eq, Structural)]
pub enum Error {
    /// A fixed-width read would cross the current scope bound.
    StreamExpected(usize),
    /// A multi-byte or slice read exceeds the remaining scoped bytes.
    LimitReached(usize),
    /// A string in the buffer is not valid text; the second field is the
    /// number of leading bytes that were still valid.
    DecodeStrFailed(usize, usize),
    /// An integer field holds a value outside a validated enumeration's
    /// domain.
    DecodeEnumFailed(usize),
}

impl Error {
    /// A short description of the failure kind.
    pub fn description(&self) -> (r: &'static str)
        ensures
            self is StreamExpected ==> r@ == "a read would cross the current scope bound"@,
            self is LimitReached ==> r@ == "a slice read exceeds the remaining scoped bytes"@,
            self is DecodeStrFailed ==> r@ == "a string in the buffer is not valid text"@,
            self is DecodeEnumFailed ==> r@ == "an integer lies outside a validated enumeration"@,
    {
        match *self {
            Error::StreamExpected(_) => "a read would cross the current scope bound",
            Error::LimitReached(_) => "a slice read exceeds the remaining scoped bytes",
            Error::DecodeStrFailed(_, _) => "a string in the buffer is not valid text",
            Error::DecodeEnumFailed(_) => "an integer lies outside a validated enumeration",
        }
    }
}

} // verus!
