use vstd::prelude::*;

verus! {

broadcast use vstd::seq_lib::group_seq_properties;

/// Whether a sequence of group ids holds no repeated id.
pub open spec fn no_dups(s: Seq<u32>) -> bool {
    forall|i: int, j: int| 0 <= i < j < s.len() ==> s[i] != s[j]
}

/// Whether `v` holds `x`.
fn gids_contain(v: &Vec<u32>, x: u32) -> (b: bool)
    ensures
        b == v@.contains(x),
{
    let mut i: usize = 0;
    while i < v.len()
        invariant
            0 <= i <= v@.len(),
            forall|k: int| 0 <= k < i ==> v@[k] != x,
        decreases v@.len() - i,
    {
        if v[i] == x {
            return true;
        }
        i = i + 1;
    }
    false
}

/// Append `x` to `out` unless it is already present.
fn push_unique(out: &mut Vec<u32>, x: u32)
    requires
        no_dups(old(out)@),
    ensures
        no_dups(final(out)@),
        forall|g: u32| final(out)@.contains(g) <==> (old(out)@.contains(g) || g == x),
{
    if !gids_contain(out, x) {
        out.push(x);
    }
}

/// The final supplementary-group list: the default groups, the explicit
/// groups and the primary group id merged into one list that holds each
/// distinct group id exactly once.
pub fn merged_group_list(defaults: &Vec<u32>, explicit: &Vec<u32>, primary: u32) -> (r: Vec<u32>)
    ensures
        no_dups(r@),
        forall|g: u32|
            r@.contains(g) <==> (defaults@.contains(g) || explicit@.contains(g) || g == primary),
        r@.contains(primary),
        r@.len() >= 1,
{
    let mut out: Vec<u32> = Vec::new();
    let mut i: usize = 0;
    while i < defaults.len()
        invariant
            0 <= i <= defaults@.len(),
            no_dups(out@),
            forall|g: u32| out@.contains(g) <==> defaults@.take(i as int).contains(g),
        decreases defaults@.len() - i,
    {
        proof {
            assert(defaults@.take(i + 1) =~= defaults@.take(i as int).push(defaults@[i as int]));
        }
        push_unique(&mut out, defaults[i]);
        i = i + 1;
    }
    proof {
        assert(defaults@.take(defaults@.len() as int) =~= defaults@);
    }
    let mut j: usize = 0;
    while j < explicit.len()
        invariant
            0 <= j <= explicit@.len(),
            no_dups(out@),
            forall|g: u32|
                out@.contains(g) <==> (defaults@.contains(g) || explicit@.take(
                    j as int,
                ).contains(g)),
        decreases explicit@.len() - j,
    {
        proof {
            assert(explicit@.take(j + 1) =~= explicit@.take(j as int).push(explicit@[j as int]));
        }
        push_unique(&mut out, explicit[j]);
        j = j + 1;
    }
    proof {
        assert(explicit@.take(explicit@.len() as int) =~= explicit@);
    }
    push_unique(&mut out, primary);
    proof {
        assert(out@.contains(primary));
        assert(out@.len() >= 1) by {
            assert(out@.contains(primary));
        }
    }
    out
}

/// Law: the merged group list is insensitive to duplicated input.
///
/// Two default lists with the same members and two explicit lists with
/// the same members — however often each member is repeated — yield
/// merged lists with exactly the same members, and every merged list
/// holds each distinct group id exactly once.
pub proof fn lemma_merge_ignores_duplicates(
    defaults_a: Seq<u32>,
    explicit_a: Seq<u32>,
    defaults_b: Seq<u32>,
    explicit_b: Seq<u32>,
    primary: u32,
    merged_a: Seq<u32>,
    merged_b: Seq<u32>,
)
    requires
        forall|g: u32| defaults_a.contains(g) <==> defaults_b.contains(g),
        forall|g: u32| explicit_a.contains(g) <==> explicit_b.contains(g),
        no_dups(merged_a),
        no_dups(merged_b),
        forall|g: u32|
            merged_a.contains(g) <==> (defaults_a.contains(g) || explicit_a.contains(g) || g
                == primary),
        forall|g: u32|
            merged_b.contains(g) <==> (defaults_b.contains(g) || explicit_b.contains(g) || g
                == primary),
    ensures
        forall|g: u32| merged_a.contains(g) <==> merged_b.contains(g),
        merged_a.to_set() == merged_b.to_set(),
{
    assert(merged_a.to_set() =~= merged_b.to_set());
}

} // verus!
