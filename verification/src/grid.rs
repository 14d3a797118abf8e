//! The dispatch grid: how many workgroups cover the output image.

use vstd::prelude::*;

verus! {

/// Edge length, in threads, of one square workgroup of the compute program.
pub const WORKGROUP_SIZE: u32 = 16;

/// Workgroups needed along one axis: the ceiling of `len / WORKGROUP_SIZE`.
pub open spec fn group_count(len: u32) -> int
    recommends
        1 <= len,
{
    (len - 1) / (WORKGROUP_SIZE as int) + 1
}

/// The grid covers the axis, and one workgroup fewer would fall short:
/// `group_count(len)` workgroups reach at least `len` threads, while all but
/// the last workgroup together stay strictly under `len`.
pub proof fn lemma_group_count_covers(len: u32)
    requires
        1 <= len,
    ensures
        group_count(len) * WORKGROUP_SIZE >= len,
        (group_count(len) - 1) * WORKGROUP_SIZE < len,
{
    let d = (len - 1) / (WORKGROUP_SIZE as int);
    vstd::arithmetic::div_mod::lemma_fundamental_div_mod(len - 1, WORKGROUP_SIZE as int);
    vstd::arithmetic::div_mod::lemma_mod_bound(len - 1, WORKGROUP_SIZE as int);
    assert(len - 1 == WORKGROUP_SIZE * d + (len - 1) % (WORKGROUP_SIZE as int));
}

/// Number of workgroups dispatched along one axis of `len` pixels.
pub fn dispatch_group_count(len: u32) -> (groups: u32)
    requires
        1 <= len,
    ensures
        groups == group_count(len),
        groups * WORKGROUP_SIZE >= len,
        (groups - 1) * WORKGROUP_SIZE < len,
{
    proof {
        lemma_group_count_covers(len);
    }
    (len - 1) / WORKGROUP_SIZE + 1
}

} // verus!
