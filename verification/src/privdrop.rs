use vstd::prelude::*;

use crate::errors::ErrorKind;
use crate::errors::PrivDropError;
use crate::groups::merged_group_list;
use crate::names::valid_name;
use crate::plan::Step;
use crate::plan::build_plan;
use crate::plan::lemma_empty_request_empty_plan;
use crate::plan::spec_plan;
use crate::plan::steps_view;
use crate::resolve::ResolvedIds;
use crate::resolve::default_supplementary_groups;
use crate::resolve::resolve_group;
use crate::resolve::resolve_user;
use crate::sys;

verus! {

/// Configuration for securely and permanently dropping privileges.
///
/// A caller accumulates the desired target state — a chroot path, a
/// user, a primary group, an explicit supplementary-group list and two
/// policy flags — through chained builder calls, then commits it once
/// with [`PrivDrop::apply`], which consumes the configuration.
///
/// `apply` performs its work in a fixed, security-critical order: every
/// configured name is resolved to a numeric id first, then the process
/// is confined to the chroot path, then the supplementary groups, the
/// primary group and — last of all — the user id are changed.  A failure
/// at any point aborts every remaining step.
#[derive(Clone, Debug)]
pub struct PrivDrop {
    /// The path to use as the new root directory, if confinement was
    /// requested.
    pub chroot: Option<String>,
    /// The name of the target user (or a numeric id, when the numeric
    /// fallback is enabled).
    pub user: Option<String>,
    /// The name of the target primary group, overriding the user's
    /// default primary group.
    pub group: Option<String>,
    /// The explicit supplementary groups to hold, in addition to the
    /// primary group.
    pub group_list: Option<Vec<String>>,
    /// Whether to merge the target user's default supplementary groups
    /// into the final set.
    pub include_default_supplementary_groups: bool,
    /// Whether a name that fails to resolve may be parsed as a numeric
    /// id instead of failing.
    pub fallback_to_ids_if_names_are_numeric: bool,
}

impl PrivDrop {
    /// Whether the configuration requests any identity change.
    pub open spec fn requests_id_change(&self) -> bool {
        self.user is Some || self.group is Some || self.group_list is Some
    }

    /// Whether the configuration requests nothing at all, so that
    /// applying it succeeds and changes no process state.
    pub open spec fn is_noop(&self) -> bool {
        &&& self.chroot is None
        &&& !self.requests_id_change()
        &&& !self.include_default_supplementary_groups
    }
}

impl Default for PrivDrop {
    /// An empty configuration: no chroot, no identity change, both
    /// policy flags off.
    fn default() -> (r: Self)
        ensures
            r.chroot is None,
            r.user is None,
            r.group is None,
            r.group_list is None,
            !r.include_default_supplementary_groups,
            !r.fallback_to_ids_if_names_are_numeric,
    {
        PrivDrop {
            chroot: None,
            user: None,
            group: None,
            group_list: None,
            include_default_supplementary_groups: false,
            fallback_to_ids_if_names_are_numeric: false,
        }
    }
}

impl PrivDrop {
    /// Sets the directory to chroot into before switching to a non-root
    /// user.
    pub fn chroot(self, path: &str) -> (r: Self)
        ensures
            r.chroot matches Some(p) && p@ == path@,
            r.user == self.user,
            r.group == self.group,
            r.group_list == self.group_list,
            r.include_default_supplementary_groups == self.include_default_supplementary_groups,
            r.fallback_to_ids_if_names_are_numeric == self.fallback_to_ids_if_names_are_numeric,
    {
        PrivDrop { chroot: Some(path.to_owned()), ..self }
    }

    /// Sets the name of the user to switch to.
    pub fn user(self, user: &str) -> (r: Self)
        ensures
            r.user matches Some(u) && u@ == user@,
            r.chroot == self.chroot,
            r.group == self.group,
            r.group_list == self.group_list,
            r.include_default_supplementary_groups == self.include_default_supplementary_groups,
            r.fallback_to_ids_if_names_are_numeric == self.fallback_to_ids_if_names_are_numeric,
    {
        PrivDrop { user: Some(user.to_owned()), ..self }
    }

    /// Sets a primary group name to switch to, if different from the
    /// user's default primary group.
    pub fn group(self, group: &str) -> (r: Self)
        ensures
            r.group matches Some(g) && g@ == group@,
            r.chroot == self.chroot,
            r.user == self.user,
            r.group_list == self.group_list,
            r.include_default_supplementary_groups == self.include_default_supplementary_groups,
            r.fallback_to_ids_if_names_are_numeric == self.fallback_to_ids_if_names_are_numeric,
    {
        PrivDrop { group: Some(group.to_owned()), ..self }
    }

    /// Includes the user's default supplementary groups in addition to
    /// any explicitly specified groups.
    pub fn include_default_supplementary_groups(self) -> (r: Self)
        ensures
            r.include_default_supplementary_groups,
            r.chroot == self.chroot,
            r.user == self.user,
            r.group == self.group,
            r.group_list == self.group_list,
            r.fallback_to_ids_if_names_are_numeric == self.fallback_to_ids_if_names_are_numeric,
    {
        PrivDrop { include_default_supplementary_groups: true, ..self }
    }

    /// Enables fallback to numeric ids if names cannot be resolved.
    pub fn fallback_to_ids_if_names_are_numeric(self) -> (r: Self)
        ensures
            r.fallback_to_ids_if_names_are_numeric,
            r.chroot == self.chroot,
            r.user == self.user,
            r.group == self.group,
            r.group_list == self.group_list,
            r.include_default_supplementary_groups == self.include_default_supplementary_groups,
    {
        PrivDrop { fallback_to_ids_if_names_are_numeric: true, ..self }
    }

    /// Sets the complete list of supplementary groups to switch to.
    pub fn group_list(self, group_list: Vec<String>) -> (r: Self)
        ensures
            r.group_list matches Some(gs) && gs@ == group_list@,
            r.chroot == self.chroot,
            r.user == self.user,
            r.group == self.group,
            r.include_default_supplementary_groups == self.include_default_supplementary_groups,
            r.fallback_to_ids_if_names_are_numeric == self.fallback_to_ids_if_names_are_numeric,
    {
        PrivDrop { group_list: Some(group_list), ..self }
    }

    /// Resolve every configured name to a numeric id, before any
    /// irreversible step runs.
    ///
    /// Resolution happens in a fixed order — user, then primary group,
    /// then each entry of the explicit group list, then the default
    /// supplementary groups — and the first failure aborts the rest.
    /// When a primary group id was resolved, the final supplementary
    /// list is the merged, duplicate-free union of the default groups
    /// (when requested), the explicit groups, and the primary group id.
    pub fn resolve_ids(&self) -> (r: Result<ResolvedIds, PrivDropError>)
        ensures
            r matches Ok(ids) ==> ids.wf(),
            r matches Ok(ids) ==> (ids.uid is Some <==> self.user is Some),
            r matches Ok(ids) ==> (ids.gid is Some ==> self.requests_id_change()),
            r matches Ok(ids) ==> (self.group is Some ==> ids.gid is Some),
            self.is_noop() ==> (r matches Ok(ids) && ids.uid is None && ids.gid is None
                && ids.supplementary is None),
            self.include_default_supplementary_groups && self.user is None ==> r is Err,
            self.include_default_supplementary_groups && self.user is None && self.group is None
                && self.group_list is None ==> (r matches Err(e) && e.kind
                == ErrorKind::DefaultGroupLookupUnavailable),
            self.user matches Some(u) ==> (!valid_name(u@) ==> (r matches Err(e) && e.kind
                == ErrorKind::InvalidName)),
            self.group matches Some(g) ==> (self.user is None && !valid_name(g@) ==> (r matches Err(
                e,
            ) && e.kind == ErrorKind::InvalidName)),
            r matches Err(e) ==> (e.kind == ErrorKind::UserNotFound || e.kind
                == ErrorKind::GroupNotFound || e.kind == ErrorKind::InvalidName || e.kind
                == ErrorKind::DefaultGroupLookupUnavailable || e.kind
                == ErrorKind::SystemCallFailure),
    {
        let mut uid: Option<u32> = None;
        let mut gid: Option<u32> = None;
        match &self.user {
            Some(name) => {
                let p = resolve_user(name.as_str(), self.fallback_to_ids_if_names_are_numeric)?;
                uid = Some(p.0);
                gid = p.1;
            },
            None => {},
        }
        match &self.group {
            Some(name) => {
                let g = resolve_group(name.as_str(), self.fallback_to_ids_if_names_are_numeric)?;
                gid = Some(g);
            },
            None => {},
        }
        let mut explicit: Vec<u32> = Vec::new();
        match &self.group_list {
            Some(names) => {
                let mut i: usize = 0;
                while i < names.len()
                    invariant
                        0 <= i <= names@.len(),
                        self.group_list is Some,
                        self.user matches Some(u) ==> valid_name(u@),
                        self.group matches Some(g) ==> valid_name(g@),
                    decreases names@.len() - i,
                {
                    let g = resolve_group(
                        names[i].as_str(),
                        self.fallback_to_ids_if_names_are_numeric,
                    )?;
                    explicit.push(g);
                    i = i + 1;
                }
            },
            None => {},
        }
        let mut defaults: Vec<u32> = Vec::new();
        if self.include_default_supplementary_groups {
            match (&self.user, &gid) {
                (Some(name), Some(g)) => {
                    match default_supplementary_groups(name.as_str(), *g) {
                        Some(gs) => {
                            defaults = gs;
                        },
                        None => {},
                    }
                },
                _ => {
                    return Err(PrivDropError::new(ErrorKind::DefaultGroupLookupUnavailable));
                },
            }
        }
        match gid {
            Some(g) => Ok(
                ResolvedIds {
                    uid,
                    gid: Some(g),
                    supplementary: Some(merged_group_list(&defaults, &explicit, g)),
                },
            ),
            None => Ok(ResolvedIds { uid, gid: None, supplementary: None }),
        }
    }
}

/// Fail with `InsufficientPrivilege` unless `euid` is 0 (root).
///
/// Every irreversible phase of the pipeline is guarded by this check on
/// the process's effective user id at that moment.
pub fn uidcheck(euid: u32) -> (r: Result<(), PrivDropError>)
    ensures
        r is Ok <==> euid == 0,
        r matches Err(e) ==> (e.kind == ErrorKind::InsufficientPrivilege && e.errno is None),
{
    if euid != 0 {
        return Err(PrivDropError::new(ErrorKind::InsufficientPrivilege));
    }
    Ok(())
}

/// Execute the steps of a pipeline, in index order, stopping at the
/// first failure.
///
/// A failed privilege check surfaces as `InsufficientPrivilege`; a
/// failed OS call surfaces as `SystemCallFailure` carrying the errno.
fn run_steps(steps: &Vec<Step>) -> (r: Result<(), PrivDropError>)
    ensures
        r matches Err(e) ==> (e.kind == ErrorKind::InsufficientPrivilege || e.kind
            == ErrorKind::SystemCallFailure),
        steps@.len() == 0 ==> r is Ok,
{
    let mut i: usize = 0;
    while i < steps.len()
        invariant
            0 <= i <= steps@.len(),
        decreases steps@.len() - i,
    {
        match &steps[i] {
            Step::CheckPrivilege => {
                let euid = sys::current_euid();
                match uidcheck(euid) {
                    Ok(()) => {},
                    Err(e) => {
                        return Err(e);
                    },
                }
            },
            Step::ChangeDirectory(path) => {
                match sys::sys_chdir(path.as_str()) {
                    Ok(()) => {},
                    Err(en) => {
                        return Err(PrivDropError::with_errno(ErrorKind::SystemCallFailure, en));
                    },
                }
            },
            Step::ChangeRoot(path) => {
                match sys::sys_chroot(path.as_str()) {
                    Ok(()) => {},
                    Err(en) => {
                        return Err(PrivDropError::with_errno(ErrorKind::SystemCallFailure, en));
                    },
                }
            },
            Step::SetSupplementaryGroups(gs) => {
                match sys::sys_setgroups(gs) {
                    Ok(()) => {},
                    Err(en) => {
                        return Err(PrivDropError::with_errno(ErrorKind::SystemCallFailure, en));
                    },
                }
            },
            Step::SetPrimaryGroup(g) => {
                match sys::sys_setgid(*g) {
                    Ok(()) => {},
                    Err(en) => {
                        return Err(PrivDropError::with_errno(ErrorKind::SystemCallFailure, en));
                    },
                }
            },
            Step::SetUserId(u) => {
                match sys::sys_setuid(*u) {
                    Ok(()) => {},
                    Err(en) => {
                        return Err(PrivDropError::with_errno(ErrorKind::SystemCallFailure, en));
                    },
                }
            },
        }
        i = i + 1;
    }
    Ok(())
}

impl PrivDrop {
    /// Applies the configured privilege changes, consuming the
    /// configuration.
    ///
    /// The sequence is fixed: warm lazily-loaded OS tables while still
    /// privileged; resolve every configured name to a numeric id;
    /// confine the process to the chroot path, if one was configured;
    /// then change the supplementary groups, the primary group and —
    /// last of all — the user id.  Each irreversible phase is entered
    /// only after a check that the effective user id is still 0, and
    /// the first failure aborts everything that remains.
    pub fn apply(self) -> (r: Result<(), PrivDropError>)
        ensures
            self.is_noop() ==> r is Ok,
            self.user matches Some(u) ==> (!valid_name(u@) ==> (r matches Err(e) && e.kind
                == ErrorKind::InvalidName)),
            self.group matches Some(g) ==> (self.user is None && !valid_name(g@) ==> (r matches Err(
                e,
            ) && e.kind == ErrorKind::InvalidName)),
            self.include_default_supplementary_groups && self.user is None ==> r is Err,
            self.include_default_supplementary_groups && self.user is None && self.group is None
                && self.group_list is None ==> (r matches Err(e) && e.kind
                == ErrorKind::DefaultGroupLookupUnavailable),
    {
        sys::preload_os_tables();
        let ids = match self.resolve_ids() {
            Ok(ids) => ids,
            Err(e) => {
                return Err(e);
            },
        };
        let id_requested = self.user.is_some() || self.group.is_some()
            || self.group_list.is_some();
        let steps = build_plan(&self.chroot, id_requested, &ids);
        proof {
            if self.is_noop() {
                lemma_empty_request_empty_plan();
                assert(steps_view(steps@) == spec_plan(None, false, None, None, None));
                assert(steps@.len() == steps_view(steps@).len());
            }
        }
        run_steps(&steps)
    }
}

} // verus!
