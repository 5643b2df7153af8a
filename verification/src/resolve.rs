use vstd::prelude::*;

use crate::errors::ErrorKind;
use crate::errors::PrivDropError;
use crate::groups::no_dups;
use crate::names::check_name;
use crate::names::valid_name;
use crate::parse::parse_numeric_id;
use crate::parse::spec_parse_u32;
use crate::sys;

verus! {

/// The numeric identity resolved from a configuration, before any
/// irreversible step runs.
///
/// `supplementary` is the final supplementary-group list to apply: it is
/// present exactly when a primary group id was resolved, holds each
/// distinct group id once, and always holds the primary group id.
pub struct ResolvedIds {
    /// The target user id, when a user was configured.
    pub uid: Option<u32>,
    /// The target primary group id, when one was resolved.
    pub gid: Option<u32>,
    /// The final supplementary-group list, when a primary group id was
    /// resolved.
    pub supplementary: Option<Vec<u32>>,
}

impl ResolvedIds {
    /// Well-formedness: the supplementary list exists exactly when a
    /// primary group id does, holds no duplicate, and holds the primary
    /// group id.
    pub open spec fn wf(&self) -> bool {
        &&& (self.gid is Some <==> self.supplementary is Some)
        &&& (self.supplementary matches Some(gs) ==> no_dups(gs@))
        &&& (self.gid matches Some(g) ==> self.supplementary matches Some(gs) && gs@.contains(g))
    }

    /// The supplementary list as a sequence.
    pub open spec fn supp_view(&self) -> Option<Seq<u32>> {
        match self.supplementary {
            Some(gs) => Some(gs@),
            None => None,
        }
    }
}

/// What resolving a user yields for each possible outcome of the user
/// database lookup.
///
/// A database hit yields the entry's exact user id and primary group
/// id.  A miss, with the numeric fallback disabled, is `UserNotFound`; a
/// failed lookup call, with the fallback disabled, is a
/// `SystemCallFailure` carrying the errno.  With the fallback enabled,
/// any miss or failure falls back to parsing the name as a numeric user
/// id, with no primary group id; a name that does not parse is
/// `UserNotFound`.
pub fn user_ids_from_lookup(
    lookup: Result<Option<(u32, u32)>, i32>,
    name: &str,
    fallback_numeric: bool,
) -> (r: Result<(u32, Option<u32>), PrivDropError>)
    ensures
        lookup matches Ok(Some(ids)) ==> r == Ok::<(u32, Option<u32>), PrivDropError>(
            (ids.0, Some(ids.1)),
        ),
        lookup matches Ok(None) && !fallback_numeric ==> (r matches Err(e) && e.kind
            == ErrorKind::UserNotFound && e.errno is None),
        lookup matches Err(en) ==> (!fallback_numeric ==> (r matches Err(e) && e.kind
            == ErrorKind::SystemCallFailure && e.errno == Some(en))),
        !(lookup matches Ok(Some(_))) && fallback_numeric ==> (match spec_parse_u32(name@) {
            Some(n) => r == Ok::<(u32, Option<u32>), PrivDropError>((n, None::<u32>)),
            None => r matches Err(e) && e.kind == ErrorKind::UserNotFound && e.errno is None,
        }),
{
    match lookup {
        Ok(Some(ids)) => Ok((ids.0, Some(ids.1))),
        Ok(None) => {
            if fallback_numeric {
                match parse_numeric_id(name) {
                    Some(n) => Ok((n, None)),
                    None => Err(PrivDropError::new(ErrorKind::UserNotFound)),
                }
            } else {
                Err(PrivDropError::new(ErrorKind::UserNotFound))
            }
        },
        Err(en) => {
            if fallback_numeric {
                match parse_numeric_id(name) {
                    Some(n) => Ok((n, None)),
                    None => Err(PrivDropError::new(ErrorKind::UserNotFound)),
                }
            } else {
                Err(PrivDropError::with_errno(ErrorKind::SystemCallFailure, en))
            }
        },
    }
}

/// What resolving a group yields for each possible outcome of the group
/// database lookup; the cases mirror [`user_ids_from_lookup`], with
/// `GroupNotFound` in place of `UserNotFound`.
pub fn gid_from_lookup(lookup: Result<Option<u32>, i32>, name: &str, fallback_numeric: bool) -> (r:
    Result<u32, PrivDropError>)
    ensures
        lookup matches Ok(Some(g)) ==> r == Ok::<u32, PrivDropError>(g),
        lookup matches Ok(None) && !fallback_numeric ==> (r matches Err(e) && e.kind
            == ErrorKind::GroupNotFound && e.errno is None),
        lookup matches Err(en) ==> (!fallback_numeric ==> (r matches Err(e) && e.kind
            == ErrorKind::SystemCallFailure && e.errno == Some(en))),
        !(lookup matches Ok(Some(_))) && fallback_numeric ==> (match spec_parse_u32(name@) {
            Some(n) => r == Ok::<u32, PrivDropError>(n),
            None => r matches Err(e) && e.kind == ErrorKind::GroupNotFound && e.errno is None,
        }),
{
    match lookup {
        Ok(Some(g)) => Ok(g),
        Ok(None) => {
            if fallback_numeric {
                match parse_numeric_id(name) {
                    Some(n) => Ok(n),
                    None => Err(PrivDropError::new(ErrorKind::GroupNotFound)),
                }
            } else {
                Err(PrivDropError::new(ErrorKind::GroupNotFound))
            }
        },
        Err(en) => {
            if fallback_numeric {
                match parse_numeric_id(name) {
                    Some(n) => Ok(n),
                    None => Err(PrivDropError::new(ErrorKind::GroupNotFound)),
                }
            } else {
                Err(PrivDropError::with_errno(ErrorKind::SystemCallFailure, en))
            }
        },
    }
}

/// Resolve a user name to its user id and primary group id.
///
/// A name with an embedded terminator is rejected as `InvalidName`
/// before any lookup.  Otherwise the user database decides, as
/// [`user_ids_from_lookup`] states: the primary group id is absent
/// exactly when the numeric fallback supplied the user id.
pub fn resolve_user(name: &str, fallback_numeric: bool) -> (r: Result<
    (u32, Option<u32>),
    PrivDropError,
>)
    ensures
        !valid_name(name@) ==> (r matches Err(e) && e.kind == ErrorKind::InvalidName),
        r matches Err(e) ==> (e.kind == ErrorKind::InvalidName || e.kind == ErrorKind::UserNotFound
            || e.kind == ErrorKind::SystemCallFailure),
        r matches Ok(p) ==> (p.1 is None ==> fallback_numeric && spec_parse_u32(name@) == Some(
            p.0,
        )),
        r matches Ok(p) ==> (!fallback_numeric ==> p.1 is Some),
        valid_name(name@) && fallback_numeric && spec_parse_u32(name@) is Some ==> r is Ok,
        r matches Err(e) ==> (valid_name(name@) && fallback_numeric ==> e.kind
            == ErrorKind::UserNotFound && spec_parse_u32(name@) is None),
{
    if !check_name(name) {
        return Err(PrivDropError::new(ErrorKind::InvalidName));
    }
    let lookup = sys::user_db_lookup(name);
    user_ids_from_lookup(lookup, name, fallback_numeric)
}

/// Resolve a group name to its group id.
///
/// A name with an embedded terminator is rejected as `InvalidName`
/// before any lookup.  Otherwise the group database decides, as
/// [`gid_from_lookup`] states.
pub fn resolve_group(name: &str, fallback_numeric: bool) -> (r: Result<u32, PrivDropError>)
    ensures
        !valid_name(name@) ==> (r matches Err(e) && e.kind == ErrorKind::InvalidName),
        r matches Err(e) ==> (e.kind == ErrorKind::InvalidName || e.kind == ErrorKind::GroupNotFound
            || e.kind == ErrorKind::SystemCallFailure),
        valid_name(name@) && fallback_numeric && spec_parse_u32(name@) is Some ==> r is Ok,
        r matches Err(e) ==> (valid_name(name@) && fallback_numeric ==> e.kind
            == ErrorKind::GroupNotFound && spec_parse_u32(name@) is None),
{
    if !check_name(name) {
        return Err(PrivDropError::new(ErrorKind::InvalidName));
    }
    let lookup = sys::group_db_lookup(name);
    gid_from_lookup(lookup, name, fallback_numeric)
}

/// The default supplementary groups of `user_name`, with `primary_gid`
/// as the base group.
///
/// Best-effort enrichment: a name that cannot be encoded, or a failed
/// membership query, yields `None`, never an error.  A present result
/// always holds `primary_gid`.
pub fn default_supplementary_groups(user_name: &str, primary_gid: u32) -> (r: Option<Vec<u32>>)
    ensures
        !valid_name(user_name@) ==> r is None,
        r matches Some(gs) ==> gs@.contains(primary_gid),
{
    if !check_name(user_name) {
        return None;
    }
    sys::group_membership_lookup(user_name, primary_gid)
}

} // verus!
