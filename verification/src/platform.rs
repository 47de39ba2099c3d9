//! The platform-support query: whether this build of the gateway runs on an
//! operating system that has extended attributes at all. It is a pure
//! capability question, answered by a build-time constant, with no failure
//! mode and no side effect.

use vstd::prelude::*;

verus! {

/// Relies on xattr::SUPPORTED_PLATFORM: a build-time constant that is true
/// exactly on the operating systems the xattr crate has a backend for
/// (Linux among them), which are the systems this gateway is built for.
#[verifier::external_body]
fn platform_has_xattrs() -> (r: bool)
    ensures
        r,
{
    xattr::SUPPORTED_PLATFORM
}

/// Whether the current operating system and build support extended
/// attributes. Never fails, takes no input, and answers the same on every
/// call of a given build.
pub fn supported_platform() -> (r: bool)
    ensures
        r,
{
    platform_has_xattrs()
}

} // verus!
