use vstd::prelude::*;

use crate::resolve::ResolvedIds;

verus! {

/// One step of the privilege-drop pipeline, carrying everything needed
/// to perform it.
pub enum Step {
    /// Verify that the effective user id is 0 before an irreversible
    /// phase.
    CheckPrivilege,
    /// Change the working directory of the process to the path.
    ChangeDirectory(String),
    /// Change the root directory of the process to the path.
    ChangeRoot(String),
    /// Replace the whole supplementary group list of the process.
    SetSupplementaryGroups(Vec<u32>),
    /// Set the primary group id of the process.
    SetPrimaryGroup(u32),
    /// Set the user id of the process.
    SetUserId(u32),
}

/// The mathematical image of a [`Step`].
pub enum StepView {
    CheckPrivilege,
    ChangeDirectory(Seq<char>),
    ChangeRoot(Seq<char>),
    SetSupplementaryGroups(Seq<u32>),
    SetPrimaryGroup(u32),
    SetUserId(u32),
}

impl View for Step {
    type V = StepView;

    open spec fn view(&self) -> StepView {
        match self {
            Step::CheckPrivilege => StepView::CheckPrivilege,
            Step::ChangeDirectory(p) => StepView::ChangeDirectory(p@),
            Step::ChangeRoot(p) => StepView::ChangeRoot(p@),
            Step::SetSupplementaryGroups(gs) => StepView::SetSupplementaryGroups(gs@),
            Step::SetPrimaryGroup(g) => StepView::SetPrimaryGroup(*g),
            Step::SetUserId(u) => StepView::SetUserId(*u),
        }
    }
}

/// Whether a step mutates process state (everything but the privilege
/// check).
pub open spec fn is_mutating(s: StepView) -> bool {
    !(s is CheckPrivilege)
}

/// The steps of a step sequence, as their mathematical images.
pub open spec fn steps_view(s: Seq<Step>) -> Seq<StepView> {
    s.map_values(|st: Step| st@)
}

/// The confinement phase: check privilege, enter the target directory,
/// change the root to it, then normalize the working directory to the
/// new root.
pub open spec fn chroot_steps(chroot: Option<Seq<char>>) -> Seq<StepView> {
    match chroot {
        Some(p) => seq![
            StepView::CheckPrivilege,
            StepView::ChangeDirectory(p),
            StepView::ChangeRoot(p),
            StepView::ChangeDirectory("/"@),
        ],
        None => seq![],
    }
}

/// The privilege check that guards the identity-change phase, present
/// exactly when an identity change was requested.
pub open spec fn gate_steps(id_requested: bool) -> Seq<StepView> {
    if id_requested {
        seq![StepView::CheckPrivilege]
    } else {
        seq![]
    }
}

/// The group-change phase: replace the supplementary groups, then set
/// the primary group; present exactly when a primary group id was
/// resolved.
pub open spec fn group_steps(gid: Option<u32>, supp: Option<Seq<u32>>) -> Seq<StepView> {
    match gid {
        Some(g) => seq![
            StepView::SetSupplementaryGroups(
                match supp {
                    Some(s) => s,
                    None => seq![],
                },
            ),
            StepView::SetPrimaryGroup(g),
        ],
        None => seq![],
    }
}

/// The user-change phase: set the user id, last of all; present exactly
/// when a user id was resolved.
pub open spec fn user_steps(uid: Option<u32>) -> Seq<StepView> {
    match uid {
        Some(u) => seq![StepView::SetUserId(u)],
        None => seq![],
    }
}

/// The whole pipeline, in its fixed, security-critical order:
/// confinement first, then the privilege check for the identity phase,
/// then the group changes, and the user-id change last.
pub open spec fn spec_plan(
    chroot: Option<Seq<char>>,
    id_requested: bool,
    uid: Option<u32>,
    gid: Option<u32>,
    supp: Option<Seq<u32>>,
) -> Seq<StepView> {
    chroot_steps(chroot) + gate_steps(id_requested) + group_steps(gid, supp) + user_steps(uid)
}

/// A copy of a group-id list.
fn copy_gids(v: &Vec<u32>) -> (r: Vec<u32>)
    ensures
        r@ == v@,
{
    let mut out: Vec<u32> = Vec::new();
    let mut i: usize = 0;
    while i < v.len()
        invariant
            0 <= i <= v@.len(),
            out@ == v@.take(i as int),
        decreases v@.len() - i,
    {
        proof {
            assert(v@.take(i + 1) =~= v@.take(i as int).push(v@[i as int]));
        }
        out.push(v[i]);
        i = i + 1;
    }
    proof {
        assert(v@.take(v@.len() as int) =~= v@);
    }
    out
}

/// Build the executable pipeline for a configuration's chroot path,
/// identity request and resolved identity.  The result is exactly the
/// plan that [`spec_plan`] states.
pub fn build_plan(chroot: &Option<String>, id_requested: bool, ids: &ResolvedIds) -> (r: Vec<Step>)
    ensures
        steps_view(r@) == spec_plan(
            match *chroot {
                Some(p) => Some(p@),
                None => None,
            },
            id_requested,
            ids.uid,
            ids.gid,
            ids.supp_view(),
        ),
{
    let ghost chroot_v: Option<Seq<char>> = match chroot {
        Some(p) => Some(p@),
        None => None,
    };
    let mut steps: Vec<Step> = Vec::new();
    match chroot {
        Some(p) => {
            steps.push(Step::CheckPrivilege);
            steps.push(Step::ChangeDirectory(p.clone()));
            steps.push(Step::ChangeRoot(p.clone()));
            steps.push(Step::ChangeDirectory("/".to_owned()));
        },
        None => {},
    }
    proof {
        assert(steps_view(steps@) =~= chroot_steps(chroot_v));
    }
    if id_requested {
        steps.push(Step::CheckPrivilege);
    }
    proof {
        assert(steps_view(steps@) =~= chroot_steps(chroot_v) + gate_steps(id_requested));
    }
    match &ids.gid {
        Some(g) => {
            let gs: Vec<u32> = match &ids.supplementary {
                Some(v) => copy_gids(v),
                None => Vec::new(),
            };
            steps.push(Step::SetSupplementaryGroups(gs));
            steps.push(Step::SetPrimaryGroup(*g));
        },
        None => {},
    }
    proof {
        assert(steps_view(steps@) =~= chroot_steps(chroot_v) + gate_steps(id_requested)
            + group_steps(ids.gid, ids.supp_view()));
    }
    match &ids.uid {
        Some(u) => {
            steps.push(Step::SetUserId(*u));
        },
        None => {},
    }
    proof {
        assert(steps_view(steps@) =~= spec_plan(
            chroot_v,
            id_requested,
            ids.uid,
            ids.gid,
            ids.supp_view(),
        ));
    }
    steps
}

/// None of the steps before the user-change phase is a user-id change.
proof fn lemma_prefix_has_no_user_change(
    chroot: Option<Seq<char>>,
    id_requested: bool,
    gid: Option<u32>,
    supp: Option<Seq<u32>>,
)
    ensures
        ({
            let pre = chroot_steps(chroot) + gate_steps(id_requested) + group_steps(gid, supp);
            forall|i: int| 0 <= i < pre.len() ==> !((#[trigger] pre[i]) is SetUserId)
        }),
{
}

/// Law: the user-id change is the last step of every pipeline, and
/// every other mutating step — directory changes, the root change, and
/// all group changes — comes strictly before it.
pub proof fn lemma_user_change_last(
    chroot: Option<Seq<char>>,
    id_requested: bool,
    uid: Option<u32>,
    gid: Option<u32>,
    supp: Option<Seq<u32>>,
)
    ensures
        ({
            let plan = spec_plan(chroot, id_requested, uid, gid, supp);
            forall|i: int|
                0 <= i < plan.len() && (#[trigger] plan[i]) is SetUserId ==> i == plan.len() - 1
        }),
        ({
            let plan = spec_plan(chroot, id_requested, uid, gid, supp);
            forall|i: int, j: int|
                0 <= i < plan.len() && 0 <= j < plan.len() && (#[trigger] plan[i]) is SetUserId
                    && is_mutating(#[trigger] plan[j]) && !(plan[j] is SetUserId) ==> j < i
        }),
{
    lemma_prefix_has_no_user_change(chroot, id_requested, gid, supp);
    let pre = chroot_steps(chroot) + gate_steps(id_requested) + group_steps(gid, supp);
    let plan = spec_plan(chroot, id_requested, uid, gid, supp);
    assert(plan == pre + user_steps(uid));
    assert forall|i: int| 0 <= i < plan.len() && (#[trigger] plan[i]) is SetUserId implies i
        == plan.len() - 1 by {
        if i < pre.len() {
            assert(plan[i] == pre[i]);
        }
    }
}

/// Law: confinement comes first — the root-directory change precedes
/// every identity change, so the chroot can never be attempted after
/// the privilege to perform it has been given up.
pub proof fn lemma_confinement_precedes_identity(
    chroot: Option<Seq<char>>,
    id_requested: bool,
    uid: Option<u32>,
    gid: Option<u32>,
    supp: Option<Seq<u32>>,
)
    ensures
        ({
            let plan = spec_plan(chroot, id_requested, uid, gid, supp);
            forall|i: int, j: int|
                0 <= i < plan.len() && 0 <= j < plan.len() && ((#[trigger] plan[i]) is ChangeRoot
                    || plan[i] is ChangeDirectory) && ((#[trigger] plan[j])
                    is SetSupplementaryGroups || plan[j] is SetPrimaryGroup || plan[j]
                    is SetUserId) ==> i < j
        }),
{
}

/// Law: a configuration that requests neither confinement nor an
/// identity change yields an empty pipeline — applying it mutates no
/// process state.
pub proof fn lemma_empty_request_empty_plan()
    ensures
        spec_plan(None, false, None, None, None) == Seq::<StepView>::empty(),
{
    assert(spec_plan(None, false, None, None, None) =~= Seq::<StepView>::empty());
}

/// Law: whenever the pipeline holds any step at all, its first step is
/// the privilege check, and every mutating step is preceded by a
/// privilege check.
pub proof fn lemma_privilege_checked_first(
    chroot: Option<Seq<char>>,
    id_requested: bool,
    uid: Option<u32>,
    gid: Option<u32>,
    supp: Option<Seq<u32>>,
)
    requires
        (uid is Some || gid is Some) ==> id_requested,
    ensures
        ({
            let plan = spec_plan(chroot, id_requested, uid, gid, supp);
            plan.len() > 0 ==> plan[0] is CheckPrivilege
        }),
        ({
            let plan = spec_plan(chroot, id_requested, uid, gid, supp);
            forall|i: int|
                0 <= i < plan.len() && is_mutating(#[trigger] plan[i]) ==> exists|j: int|
                    0 <= j < i && plan[j] is CheckPrivilege
        }),
{
    let plan = spec_plan(chroot, id_requested, uid, gid, supp);
    assert forall|i: int| 0 <= i < plan.len() && is_mutating(#[trigger] plan[i]) implies exists|
        j: int,
    | 0 <= j < i && plan[j] is CheckPrivilege by {
        assert(plan.len() > 0);
        assert(plan[0] is CheckPrivilege);
        assert(i != 0);
    }
}

} // verus!
