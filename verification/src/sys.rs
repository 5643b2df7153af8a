//! The trusted boundary to the operating system.
//!
//! Every function here wraps one call into the `nix` crate (or, for the
//! warm-up, the standard library) and is believed, not verified.  Each
//! doc comment names the call relied on.  Failures are reported as the
//! raw OS error code (`errno`) of the failed call.

use vstd::prelude::*;

verus! {

/// Relies on `nix::unistd::User::from_name` (getpwnam_r): looks `name`
/// up in the OS user database, growing its buffer on ERANGE.  `Ok(None)`
/// means no entry; `Ok(Some((uid, gid)))` carries the entry's user id
/// and primary group id; `Err` carries the errno of a failed lookup.
#[verifier::external_body]
pub(crate) fn user_db_lookup(name: &str) -> (r: Result<Option<(u32, u32)>, i32>) {
    match nix::unistd::User::from_name(name) {
        Ok(Some(user)) => Ok(Some((user.uid.as_raw(), user.gid.as_raw()))),
        Ok(None) => Ok(None),
        Err(e) => Err(e as i32),
    }
}

/// Relies on `nix::unistd::Group::from_name` (getgrnam_r): looks `name`
/// up in the OS group database, growing its buffer on ERANGE.  `Ok(None)`
/// means no entry; `Ok(Some(gid))` carries the entry's group id; `Err`
/// carries the errno of a failed lookup.
#[verifier::external_body]
pub(crate) fn group_db_lookup(name: &str) -> (r: Result<Option<u32>, i32>) {
    match nix::unistd::Group::from_name(name) {
        Ok(Some(group)) => Ok(Some(group.gid.as_raw())),
        Ok(None) => Ok(None),
        Err(e) => Err(e as i32),
    }
}

/// Relies on `nix::unistd::getgrouplist` (getgrouplist(3)): returns the
/// group ids of all groups `user` is a member of, with `primary_gid`
/// added to the list, or `None` when the query cannot be made or fails.
#[verifier::external_body]
pub(crate) fn group_membership_lookup(user: &str, primary_gid: u32) -> (r: Option<Vec<u32>>)
    ensures
        r matches Some(gs) ==> gs@.contains(primary_gid),
{
    let mut bytes: Vec<u8> = user.as_bytes().to_vec();
    bytes.push(0);
    let cname = match core::ffi::CStr::from_bytes_with_nul(&bytes) {
        Ok(c) => c,
        Err(_) => return None,
    };
    match nix::unistd::getgrouplist(cname, nix::unistd::Gid::from_raw(primary_gid)) {
        Ok(gids) => Some(gids.iter().map(|g| g.as_raw()).collect()),
        Err(_) => None,
    }
}

/// Relies on `nix::unistd::geteuid` (geteuid(2)): returns the effective
/// user id of the calling process.  POSIX documents the call as always
/// successful; nothing further can be promised of the value.
#[verifier::external_body]
pub(crate) fn current_euid() -> (r: u32) {
    nix::unistd::geteuid().as_raw()
}

/// Relies on `nix::unistd::chdir` (chdir(2)): changes the working
/// directory of the process to `path`; `Err` carries the errno.
#[verifier::external_body]
pub(crate) fn sys_chdir(path: &str) -> (r: Result<(), i32>) {
    match nix::unistd::chdir(path) {
        Ok(()) => Ok(()),
        Err(e) => Err(e as i32),
    }
}

/// Relies on `nix::unistd::chroot` (chroot(2)): changes the root
/// directory of the process to `path`; `Err` carries the errno.
#[verifier::external_body]
pub(crate) fn sys_chroot(path: &str) -> (r: Result<(), i32>) {
    match nix::unistd::chroot(path) {
        Ok(()) => Ok(()),
        Err(e) => Err(e as i32),
    }
}

/// Relies on `nix::unistd::setgroups` (setgroups(2)): replaces the whole
/// supplementary group list of the process with `groups`; `Err` carries
/// the errno.
#[verifier::external_body]
pub(crate) fn sys_setgroups(groups: &Vec<u32>) -> (r: Result<(), i32>) {
    let gids: Vec<nix::unistd::Gid> =
        groups.iter().map(|g| nix::unistd::Gid::from_raw(*g)).collect();
    match nix::unistd::setgroups(&gids) {
        Ok(()) => Ok(()),
        Err(e) => Err(e as i32),
    }
}

/// Relies on `nix::unistd::setgid` (setgid(2)): sets the group id of the
/// process to `gid`; `Err` carries the errno.
#[verifier::external_body]
pub(crate) fn sys_setgid(gid: u32) -> (r: Result<(), i32>) {
    match nix::unistd::setgid(nix::unistd::Gid::from_raw(gid)) {
        Ok(()) => Ok(()),
        Err(e) => Err(e as i32),
    }
}

/// Relies on `nix::unistd::setuid` (setuid(2)): sets the user id of the
/// process to `uid`; `Err` carries the errno.
#[verifier::external_body]
pub(crate) fn sys_setuid(uid: u32) -> (r: Result<(), i32>) {
    match nix::unistd::setuid(nix::unistd::Uid::from_raw(uid)) {
        Ok(()) => Ok(()),
        Err(e) => Err(e as i32),
    }
}

/// Relies on the `Display` of `std::io::Error` for an OS error code: the
/// first formatting of an OS error reads the C library's error-message
/// table, loading it while the process is still privileged and the
/// original filesystem root is still in place.  Best-effort warm-up; no
/// outcome is promised.
#[verifier::external_body]
pub(crate) fn preload_os_tables() {
    let _ = std::io::Error::from_raw_os_error(1).to_string();
}

} // verus!
