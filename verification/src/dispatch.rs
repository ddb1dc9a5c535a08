//! Compute dispatch sizing: how many workgroups cover a grid of invocations.

use vstd::prelude::*;

verus! {

/// Invocations per workgroup along the x and y axes.
pub const WORKGROUP_SIZE: u32 = 8;

/// Number of workgroups of `size` invocations that are dispatched along one
/// axis of `dimension` invocations: the whole quotient, and one more where a
/// remainder is left.
pub open spec fn spec_workgroups_for(dimension: int, size: int) -> int {
    dimension / size + if dimension % size != 0 { 1int } else { 0int }
}

/// Workgroup count along one axis.
pub fn workgroups_for(dimension: u32, size: u32) -> (count: u32)
    requires
        size > 0,
    ensures
        count == spec_workgroups_for(dimension as int, size as int),
{
    let whole: u32 = dimension / size;
    let rest: u32 = dimension % size;
    proof {
        lemma_workgroups_cover(dimension as int, size as int);
    }
    if rest != 0 {
        whole + 1
    } else {
        whole
    }
}

/// The dispatched workgroups cover the axis, and dropping one of them would
/// leave part of it uncovered.
pub proof fn lemma_workgroups_cover(dimension: int, size: int)
    requires
        dimension >= 0,
        size > 0,
    ensures
        spec_workgroups_for(dimension, size) * size >= dimension,
        (spec_workgroups_for(dimension, size) - 1) * size < dimension,
        0 <= spec_workgroups_for(dimension, size) <= dimension,
{
    let q = dimension / size;
    let r = dimension % size;
    assert(dimension == size * q + r) by {
        vstd::arithmetic::div_mod::lemma_fundamental_div_mod(dimension, size);
    }
    assert(0 <= r < size) by {
        vstd::arithmetic::div_mod::lemma_mod_pos_bound(dimension, size);
    }
    assert(q >= 0) by {
        vstd::arithmetic::div_mod::lemma_div_pos_is_pos(dimension, size);
    }
    assert(size * q == q * size) by (nonlinear_arith);
    assert((q + 1) * size == q * size + size) by (nonlinear_arith);
    assert((q - 1) * size == q * size - size) by (nonlinear_arith);
    assert(q * size >= q) by (nonlinear_arith)
        requires
            q >= 0,
            size >= 1,
    ;
}

} // verus!
