//! The error a rejected option call surfaces.
//!
//! A get or set call fails only when the kernel rejects the syscall; the
//! platform's error code is carried to the caller unchanged. A mismatch
//! between the expected and the returned buffer length is not an error value:
//! it marks a mis-declared registry entry, and the functions that decode a
//! buffer refuse such a buffer by precondition, so the unverified caller must
//! stop loudly instead of calling on.

use vstd::prelude::*;

verus! {

/// A syscall rejection, carrying the platform's error code.
#[derive(Clone, Copy, Debug, PartialEq, Eq, Structural)]
pub struct OsError {
    pub code: i32,
}

} // verus!
