//! Fixed-point movement: the distance an entity covers in one time step.

use vstd::prelude::*;
use vstd::arithmetic::div_mod::{lemma_div_nonincreasing, lemma_div_pos_is_pos};
use crate::{DT_LIMIT, STEP_LIMIT, VEL_LIMIT};

verus! {

/// The signed distance covered in one step: `v * num * dt / den`, computed
/// on the magnitude with truncating division and the sign of `v` restored.
pub open spec fn step_len(v: int, num: int, dt: int, den: int) -> int
    recommends
        den >= 1,
{
    if v >= 0 {
        (v * num * dt) / den
    } else {
        -((-v) * num * dt / den)
    }
}

/// One step within the accepted velocity and time bounds never moves an
/// entity by more than [`STEP_LIMIT`].
pub proof fn lemma_step_len_bound(v: int, num: int, dt: int, den: int)
    requires
        -VEL_LIMIT <= v <= VEL_LIMIT,
        0 <= num <= 1000,
        0 <= dt <= DT_LIMIT,
        1 <= den,
    ensures
        -STEP_LIMIT <= step_len(v, num, dt, den) <= STEP_LIMIT,
{
    if v >= 0 {
        assert(0 <= v * num * dt <= 10_000_000_000) by (nonlinear_arith)
            requires
                0 <= v <= 1000,
                0 <= num <= 1000,
                0 <= dt <= 10_000,
        ;
        lemma_div_nonincreasing(v * num * dt, den);
        lemma_div_pos_is_pos(v * num * dt, den);
    } else {
        assert(0 <= (-v) * num * dt <= 10_000_000_000) by (nonlinear_arith)
            requires
                0 <= -v <= 1000,
                0 <= num <= 1000,
                0 <= dt <= 10_000,
        ;
        lemma_div_nonincreasing((-v) * num * dt, den);
        lemma_div_pos_is_pos((-v) * num * dt, den);
    }
}

/// Compute [`step_len`] on machine integers.
pub fn scaled_step(v: i64, num: u64, dt: u64, den: u64) -> (r: i64)
    requires
        -VEL_LIMIT <= v <= VEL_LIMIT,
        num <= 1000,
        dt <= DT_LIMIT,
        1 <= den,
    ensures
        r == step_len(v as int, num as int, dt as int, den as int),
        -STEP_LIMIT <= r <= STEP_LIMIT,
{
    let m: u64 = if v >= 0 { v as u64 } else { (-v) as u64 };
    proof {
        assert(m * num <= 1_000_000) by (nonlinear_arith)
            requires
                m <= 1000,
                num <= 1000,
        ;
        assert(m * num * dt <= 10_000_000_000) by (nonlinear_arith)
            requires
                m <= 1000,
                num <= 1000,
                dt <= 10_000,
        ;
    }
    let prod: u64 = m * num * dt;
    let q: u64 = prod / den;
    proof {
        lemma_div_nonincreasing(prod as int, den as int);
        assert(q <= prod);
    }
    if v >= 0 {
        q as i64
    } else {
        -(q as i64)
    }
}

} // verus!
