//! Platform status codes.
//!
//! The platform reports the outcome of every call as an opaque 32-bit
//! status code.  A code with the high bit clear is a success; one with the
//! high bit set is a failure.  One failure code is special: the "not
//! found" sentinel that adapter enumeration returns once the index runs
//! past the last adapter.  It is a terminal signal for the enumeration
//! loop, not an error of the call itself.

use vstd::prelude::*;

verus! {

/// The success code every call returns when nothing went wrong.
pub const STATUS_OK: u32 = 0;

/// Sentinel returned by enumeration when the index exceeds the adapter count.
pub const STATUS_NOT_FOUND: u32 = 0x887A0002;

/// Failure returned when the requested feature level is not supported.
pub const STATUS_UNSUPPORTED: u32 = 0x887A0004;

/// Failure returned when a call is made with an invalid (null) handle.
pub const STATUS_INVALID_CALL: u32 = 0x887A0001;

/// A status code is a success exactly when its high bit is clear.
pub open spec fn is_success(status: u32) -> bool {
    status < 0x80000000
}

/// Runtime test of the success bit.
pub fn succeeded(status: u32) -> (r: bool)
    ensures
        r == is_success(status),
{
    status < 0x80000000
}

/// The not-found sentinel is a failure code, distinct from every success.
pub proof fn lemma_not_found_is_failure()
    ensures
        !is_success(STATUS_NOT_FOUND),
        !is_success(STATUS_UNSUPPORTED),
        !is_success(STATUS_INVALID_CALL),
        is_success(STATUS_OK),
{
}

} // verus!
