use vstd::prelude::*;

verus! {

/// Whether a name or path can be encoded for an OS lookup or call: it
/// must hold no embedded terminator character.
pub open spec fn valid_name(s: Seq<char>) -> bool {
    forall|i: int| 0 <= i < s.len() ==> (#[trigger] s[i]) as u32 != 0
}

/// Check that `s` holds no embedded terminator character.
pub fn check_name(s: &str) -> (r: bool)
    ensures
        r == valid_name(s@),
{
    let n = s.unicode_len();
    let mut i: usize = 0;
    while i < n
        invariant
            0 <= i <= n,
            n == s@.len(),
            forall|k: int| 0 <= k < i ==> (#[trigger] s@[k]) as u32 != 0,
        decreases n - i,
    {
        let c = s.get_char(i);
        if (c as u32) == 0 {
            return false;
        }
        i = i + 1;
    }
    true
}

} // verus!
