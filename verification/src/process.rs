//! The ids of the calling process, which stand in for an owner that was not set.

use vstd::prelude::*;

verus! {

/// The effective user id of the calling process, from `nix::unistd::geteuid`, unwrapped by
/// `Uid::as_raw`. It is whatever the operating system reports for this process, so the
/// contract claims nothing of the number.
#[verifier::external_body]
pub(crate) fn effective_uid() -> (uid: u32) {
    nix::unistd::geteuid().as_raw()
}

/// The effective group id of the calling process, from `nix::unistd::getegid`, unwrapped by
/// `Gid::as_raw`. It is whatever the operating system reports for this process, so the
/// contract claims nothing of the number.
#[verifier::external_body]
pub(crate) fn effective_gid() -> (gid: u32) {
    nix::unistd::getegid().as_raw()
}

} // verus!
