//! Fixed-layout request buffers for the two kernel control calls.
//!
//! Each buffer mirrors, field for field, the layout the kernel interface
//! prescribes for its request code, so an embedding can copy it into the
//! kernel's own structure without reinterpretation.

use vstd::prelude::*;
use crate::ClientCapability;

verus! {

/// Request buffer for the "get magic" kernel call: a single 32-bit magic
/// field, zero on entry, which the kernel fills with the minted token.
#[derive(Debug, Clone, Copy, PartialEq, Eq, Structural)]
pub struct AuthRequest {
    /// The magic value; zero until the kernel writes the token into it.
    pub magic: u32,
}

impl AuthRequest {
    /// The zero-initialized buffer the "get magic" call expects on entry.
    pub fn zeroed() -> (r: AuthRequest)
        ensures
            r.magic == 0,
    {
        AuthRequest { magic: 0 }
    }
}

/// Request buffer for the "set client capability" kernel call: the
/// capability's numeric identifier and its enablement as a 64-bit integer.
#[derive(Debug, Clone, Copy, PartialEq, Eq, Structural)]
pub struct SetClientCapRequest {
    /// The kernel's numeric identifier of the capability being declared.
    pub capability: u64,
    /// 1 to declare the capability understood, 0 to withdraw it.
    pub value: u64,
}

impl SetClientCapRequest {
    /// The zero-initialized buffer, before it is populated.
    pub fn zeroed() -> (r: SetClientCapRequest)
        ensures
            r.capability == 0,
            r.value == 0,
    {
        SetClientCapRequest { capability: 0, value: 0 }
    }

    /// The buffer populated for one declaration: the capability field holds
    /// the variant's bound kernel identifier, the value field holds 1 for
    /// enable and 0 for disable.
    pub fn for_capability(cap: ClientCapability, set: bool) -> (r: SetClientCapRequest)
        ensures
            r.capability == cap.spec_raw_value(),
            r.value == (if set { 1u64 } else { 0u64 }),
    {
        let mut r = SetClientCapRequest::zeroed();
        r.capability = cap.raw_value();
        r.value = if set { 1 } else { 0 };
        r
    }
}

} // verus!
