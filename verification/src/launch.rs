//! The start-up privilege rule: an elevated binary would hand keyboard and
//! uinput access to every user on the machine.

use vstd::prelude::*;

verus! {

/// The identities the process runs with, and whether the kernel flagged it
/// as a secure execution (`AT_SECURE`: setuid, setgid, file capabilities,
/// security-module transitions).
#[derive(Debug, Clone, Copy)]
pub struct ProcessIdentity {
    pub uid: u32,
    pub euid: u32,
    pub gid: u32,
    pub egid: u32,
    pub at_secure: bool,
}

/// The user id of root.
pub const ROOT_UID: u32 = 0;

pub open spec fn privileged(id: ProcessIdentity) -> bool {
    id.euid == ROOT_UID || id.uid != id.euid || id.gid != id.egid || id.at_secure
}

/// Whether clickr must refuse to start: running as root, setuid, setgid or
/// with file capabilities.
pub fn must_refuse(id: &ProcessIdentity) -> (r: bool)
    ensures
        r == privileged(*id),
{
    id.euid == ROOT_UID || id.uid != id.euid || id.gid != id.egid || id.at_secure
}

} // verus!
