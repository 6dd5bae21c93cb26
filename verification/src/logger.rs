use vstd::prelude::*;

verus! {

/// Whether a trace event's target belongs to the `lb_fs` crate and its
/// modules, whose events the file-system client logs.
pub fn is_lb_fs_target(target: &str) -> (logged: bool)
    ensures
        logged == "lb_fs"@.is_prefix_of(target@),
{
    let prefix = "lb_fs";
    proof {
        reveal_strlit("lb_fs");
    }
    let n = target.unicode_len();
    if n < 5 {
        return false;
    }
    let mut i: usize = 0;
    while i < 5
        invariant
            i <= 5,
            n == target@.len(),
            n >= 5,
            prefix@ == "lb_fs"@,
            prefix@.len() == 5,
            forall|j: int| 0 <= j < i ==> target@[j] == prefix@[j],
        decreases 5 - i,
    {
        if target.get_char(i) != prefix.get_char(i) {
            return false;
        }
        i = i + 1;
    }
    true
}

} // verus!
