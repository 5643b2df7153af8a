use vstd::prelude::*;

verus! {

/// The category of a failure during privilege dropping.
#[derive(PartialEq, Eq, Copy, Clone, Debug, Structural)]
#[non_exhaustive]
pub enum ErrorKind {
    /// A privileged step was attempted while the effective user id was
    /// not 0 (root).
    InsufficientPrivilege,
    /// A user name could not be resolved, and the numeric fallback was
    /// disabled or did not apply.
    UserNotFound,
    /// A group name could not be resolved, and the numeric fallback was
    /// disabled or did not apply.
    GroupNotFound,
    /// A configured name cannot be encoded for an OS lookup, for example
    /// because it holds an embedded terminator byte.
    InvalidName,
    /// The default supplementary groups were requested without both a
    /// user name and a resolved primary group id.
    DefaultGroupLookupUnavailable,
    /// A direct OS call (chdir, chroot, setgroups, setgid, setuid, or a
    /// database lookup) failed; the raw OS error code is attached when
    /// it is known.
    SystemCallFailure,
}

/// Error type for privilege dropping operations.
///
/// Carries the failure category and, for failures of direct OS calls,
/// the raw `errno` value reported by the operating system.
#[derive(PartialEq, Eq, Copy, Clone, Debug)]
pub struct PrivDropError {
    /// The category of the failure.
    pub kind: ErrorKind,
    /// The raw OS error code, when the failure came from an OS call.
    pub errno: Option<i32>,
}

/// The fixed description for each error category.
pub open spec fn kind_description(kind: ErrorKind) -> Seq<char> {
    match kind {
        ErrorKind::InsufficientPrivilege => "insufficient privilege: effective root is required"@,
        ErrorKind::UserNotFound => "user not found"@,
        ErrorKind::GroupNotFound => "group not found"@,
        ErrorKind::InvalidName => "name cannot be encoded for an OS lookup"@,
        ErrorKind::DefaultGroupLookupUnavailable => "default supplementary groups require a user name and a primary group id"@,
        ErrorKind::SystemCallFailure => "system call failed"@,
    }
}

impl PrivDropError {
    /// An error with no attached OS error code.
    pub fn new(kind: ErrorKind) -> (r: Self)
        ensures
            r.kind == kind,
            r.errno is None,
    {
        PrivDropError { kind, errno: None }
    }

    /// An error wrapping the raw `errno` of a failed OS call.
    pub fn with_errno(kind: ErrorKind, errno: i32) -> (r: Self)
        ensures
            r.kind == kind,
            r.errno == Some(errno),
    {
        PrivDropError { kind, errno: Some(errno) }
    }

    /// A human-readable description of the failure category.
    pub fn description(&self) -> (r: &'static str)
        ensures
            r@ == kind_description(self.kind),
    {
        match self.kind {
            ErrorKind::InsufficientPrivilege => "insufficient privilege: effective root is required",
            ErrorKind::UserNotFound => "user not found",
            ErrorKind::GroupNotFound => "group not found",
            ErrorKind::InvalidName => "name cannot be encoded for an OS lookup",
            ErrorKind::DefaultGroupLookupUnavailable => "default supplementary groups require a user name and a primary group id",
            ErrorKind::SystemCallFailure => "system call failed",
        }
    }
}

} // verus!
