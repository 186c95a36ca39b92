//! The structured error a failed kernel control call turns into.

use vstd::prelude::*;

verus! {

/// A kernel control call failed. The error carries the operating-system
/// failure code unchanged: the caller may inspect it, but this layer neither
/// interprets nor recovers from specific codes.
#[derive(Debug, Clone, Copy, PartialEq, Eq, Structural)]
pub struct Error(i32);

impl View for Error {
    type V = i32;

    /// The operating-system failure code the raw layer reported.
    closed spec fn view(&self) -> i32 {
        self.0
    }
}

impl Error {
    /// Wraps a raw failure code, losing nothing: the structured error exposes
    /// exactly the code the kernel call reported.
    pub fn from_os_code(code: i32) -> (e: Error)
        ensures
            e@ == code,
    {
        Error(code)
    }

    /// The operating-system failure code carried by this error.
    pub fn os_code(&self) -> (c: i32)
        ensures
            c == self@,
    {
        self.0
    }
}

} // verus!
