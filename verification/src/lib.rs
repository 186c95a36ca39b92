//! Capability negotiation and authentication for DRM devices.
//!
//! A process talks to a kernel graphics device through fixed-layout control
//! calls. This crate covers the two negotiation operations of that interface:
//! obtaining a process-unique authentication token, and declaring to the
//! kernel which optional client capabilities the process understands. Each
//! operation builds the correctly shaped request buffer, hands it to the raw
//! invocation layer, and converts the outcome into a typed value or a
//! structured error carrying the operating-system failure code.

use vstd::prelude::*;

pub mod error;
pub mod request;

pub use error::Error;
pub use request::AuthRequest;
pub use request::SetClientCapRequest;

verus! {

/// A token unique to the process that determines who opened the device.
///
/// This token can be sent to another process that acts as the DRM Master and
/// then authenticated to give extra privileges.
#[derive(Debug, Clone, Copy, PartialEq, Eq, Structural)]
pub struct AuthToken(u32);

impl View for AuthToken {
    type V = u32;

    /// The 32-bit magic value minted by the kernel.
    closed spec fn view(&self) -> u32 {
        self.0
    }
}

impl AuthToken {
    /// Wraps a magic value the kernel handed back.
    pub fn new(magic: u32) -> (t: AuthToken)
        ensures
            t@ == magic,
    {
        AuthToken(magic)
    }

    /// The wrapped magic value, for handing to another process.
    pub fn magic(&self) -> (m: u32)
        ensures
            m == self@,
    {
        self.0
    }
}

/// Capabilities that the process understands.
///
/// These can be used to tell the DRM device what capabilities the process can
/// use.
#[derive(Debug, Clone, Copy, PartialEq, Eq, Structural)]
pub enum ClientCapability {
    Stereo3D,
    UniversalPlanes,
    Atomic,
}

impl ClientCapability {
    /// The numeric identifier the kernel interface binds to this capability.
    pub open spec fn spec_raw_value(self) -> u64 {
        match self {
            ClientCapability::Stereo3D => 1,
            ClientCapability::UniversalPlanes => 2,
            ClientCapability::Atomic => 3,
        }
    }

    /// The kernel's compiled-in identifier for this capability, read from the
    /// published bindings so the enumeration and the kernel constant cannot
    /// drift apart.
    pub fn raw_value(self) -> (r: u64)
        ensures
            r == self.spec_raw_value(),
    {
        match self {
            ClientCapability::Stereo3D => client_cap_stereo_3d(),
            ClientCapability::UniversalPlanes => client_cap_universal_planes(),
            ClientCapability::Atomic => client_cap_atomic(),
        }
    }
}

/// Law: the capability-to-identifier mapping is injective. Distinct
/// capability variants are bound to distinct kernel identifiers, so no two
/// variants can stand for the same kernel feature.
pub proof fn lemma_capability_ids_distinct(a: ClientCapability, b: ClientCapability)
    ensures
        a.spec_raw_value() == b.spec_raw_value() ==> a == b,
{
}

/// Converts the outcome of a raw "get magic" call into the typed result:
/// on success, the magic the kernel wrote into the buffer, wrapped as an
/// authentication token; on failure, a structured error carrying the
/// reported operating-system code unchanged.
pub fn complete_auth_token(outcome: Result<(), i32>, magic: u32) -> (r: Result<
    AuthToken,
    Error,
>)
    ensures
        outcome matches Ok(()) ==> r matches Ok(t) && t@ == magic,
        outcome matches Err(code) ==> r matches Err(e) && e@ == code,
{
    match outcome {
        Ok(()) => Ok(AuthToken::new(magic)),
        Err(code) => Err(Error::from_os_code(code)),
    }
}

/// Converts the outcome of a raw "set client capability" call into the typed
/// result: the unit value on success — the kernel returns no data for this
/// request — and on failure a structured error carrying the reported
/// operating-system code unchanged.
pub fn complete_set_client_cap(outcome: Result<(), i32>) -> (r: Result<(), Error>)
    ensures
        outcome matches Ok(()) ==> r matches Ok(()),
        outcome matches Err(code) ==> r matches Err(e) && e@ == code,
{
    match outcome {
        Ok(()) => Ok(()),
        Err(code) => Err(Error::from_os_code(code)),
    }
}

/// A trait for all DRM devices.
///
/// The three required methods are the raw invocation layer: an implementor
/// yields its open device handle and performs one blocking kernel control
/// call per request code, reporting success or the operating-system failure
/// code. They carry no contract — what comes back is decided by the kernel
/// alone — so the provided operations are verified to handle every outcome.
pub trait Device {
    /// Yields the raw device handle, borrowed for the duration of one call.
    fn raw_handle(&self) -> i32;

    /// Performs the blocking "get magic" kernel control call on the given
    /// handle. On success the kernel has written the minted magic value into
    /// the buffer; on failure the operating-system error code is returned.
    fn raw_get_magic(&self, handle: i32, req: &mut AuthRequest) -> Result<(), i32>;

    /// Performs the blocking "set client capability" kernel control call on
    /// the given handle with the populated buffer. No data comes back; on
    /// failure the operating-system error code is returned.
    fn raw_set_client_cap(&self, handle: i32, req: &SetClientCapRequest) -> Result<(), i32>;

    /// Generates and returns a magic token unique to the current process.
    /// This token can be used to authenticate with the DRM Master.
    ///
    /// The request buffer starts zeroed; the kernel fills it. Whatever the
    /// kernel decides, the outcome is passed through unchanged: a token
    /// wrapping the returned magic, or the structured error.
    fn get_auth_token(&self) -> (r: Result<AuthToken, Error>) {
        let mut raw: AuthRequest = AuthRequest::zeroed();
        let handle: i32 = self.raw_handle();
        let outcome: Result<(), i32> = self.raw_get_magic(handle, &mut raw);
        complete_auth_token(outcome, raw.magic)
    }

    /// Tells the DRM device whether we understand or do not understand a
    /// particular capability. Some features, such as atomic modesetting,
    /// require informing the device that the process can use such features
    /// before it will expose them.
    ///
    /// Issues exactly one kernel call, whose buffer holds the capability's
    /// bound identifier and the enablement coerced to 1 or 0; the outcome is
    /// passed through unchanged.
    fn set_client_cap(&self, cap: ClientCapability, set: bool) -> (r: Result<(), Error>) {
        let raw: SetClientCapRequest = SetClientCapRequest::for_capability(cap, set);
        let handle: i32 = self.raw_handle();
        let outcome: Result<(), i32> = self.raw_set_client_cap(handle, &raw);
        complete_set_client_cap(outcome)
    }
}

/// Relies on drm_sys::DRM_CLIENT_CAP_STEREO_3D: the kernel interface's
/// published constant for the stereoscopic-3D capability, equal to 1.
#[verifier::external_body]
fn client_cap_stereo_3d() -> (r: u64)
    ensures
        r == 1,
{
    drm_sys::DRM_CLIENT_CAP_STEREO_3D as u64
}

/// Relies on drm_sys::DRM_CLIENT_CAP_UNIVERSAL_PLANES: the kernel interface's
/// published constant for universal-plane addressing, equal to 2.
#[verifier::external_body]
fn client_cap_universal_planes() -> (r: u64)
    ensures
        r == 2,
{
    drm_sys::DRM_CLIENT_CAP_UNIVERSAL_PLANES as u64
}

/// Relies on drm_sys::DRM_CLIENT_CAP_ATOMIC: the kernel interface's published
/// constant for atomic state commits, equal to 3.
#[verifier::external_body]
fn client_cap_atomic() -> (r: u64)
    ensures
        r == 3,
{
    drm_sys::DRM_CLIENT_CAP_ATOMIC as u64
}

} // verus!

