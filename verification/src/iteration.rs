//! Scheduling decisions of the iterative solvers: when the quasi-Newton
//! solver rebuilds its Jacobian from finite differences, and on which
//! iterations the isothermal flash tries an accelerated step.

use vstd::prelude::*;

verus! {

/// How the quasi-Newton solver updates its Jacobian after a step.
#[derive(Debug, Clone, Copy, PartialEq, Eq, Structural)]
pub enum JacobianUpdate {
    /// Rebuild the Jacobian from finite differences.
    Refresh,
    /// Apply the rank-one ("good" Broyden) correction.
    RankOne,
}

/// The update after a step, with the count of rank-one updates since the
/// last rebuild: a rebuild is due when `refresh_every` is not 0 and this
/// step would be the `refresh_every`-th since the last rebuild; a step too
/// small to divide by also forces a rebuild; otherwise the rank-one update
/// is applied and counted.
pub open spec fn spec_next_jacobian_update(
    updates_since_refresh: nat,
    refresh_every: nat,
    step_is_tiny: bool,
) -> (JacobianUpdate, nat) {
    if refresh_every != 0 && updates_since_refresh + 1 >= refresh_every {
        (JacobianUpdate::Refresh, 0)
    } else if step_is_tiny {
        (JacobianUpdate::Refresh, 0)
    } else {
        (JacobianUpdate::RankOne, updates_since_refresh + 1)
    }
}

/// Decides how the Jacobian is updated after a step and returns the new
/// count of rank-one updates since the last rebuild. `refresh_every == 0`
/// means the Jacobian is never rebuilt on schedule.
pub fn next_jacobian_update(updates_since_refresh: usize, refresh_every: usize, step_is_tiny: bool) -> (r: (
    JacobianUpdate,
    usize,
))
    requires
        updates_since_refresh < usize::MAX,
    ensures
        (r.0, r.1 as nat) == spec_next_jacobian_update(
            updates_since_refresh as nat,
            refresh_every as nat,
            step_is_tiny,
        ),
{
    if refresh_every != 0 && updates_since_refresh + 1 >= refresh_every {
        (JacobianUpdate::Refresh, 0)
    } else if step_is_tiny {
        (JacobianUpdate::Refresh, 0)
    } else {
        (JacobianUpdate::RankOne, updates_since_refresh + 1)
    }
}

/// With a rebuild cadence `r > 0`, the count of rank-one updates since the
/// last rebuild stays below `r`: no more than `r − 1` rank-one updates ever
/// follow one another.
pub proof fn lemma_rank_one_run_is_bounded(count: nat, r: nat, tiny: bool)
    requires
        r > 0,
        count < r,
    ensures
        spec_next_jacobian_update(count, r, tiny).1 < r,
        spec_next_jacobian_update(count, r, tiny).0 == JacobianUpdate::RankOne ==> count + 1 < r,
{
}

/// Whether the isothermal flash tries an accelerated (dominant-eigenvalue)
/// step at this 0-based iteration: only once a previous residual is on
/// record, and only on every fifth iteration (4, 9, 14, …).
pub open spec fn spec_acceleration_due(iter: nat, have_previous_residual: bool) -> bool {
    have_previous_residual && iter % 5 == 4
}

/// Returns whether the isothermal flash attempts an accelerated step at
/// iteration `iter`.
pub fn acceleration_due(iter: usize, have_previous_residual: bool) -> (b: bool)
    ensures
        b == spec_acceleration_due(iter as nat, have_previous_residual),
{
    have_previous_residual && iter % 5 == 4
}

/// Among any five consecutive iterations, an accelerated step is due at
/// most once.
pub proof fn lemma_acceleration_at_most_once_in_five(i: nat, j: nat)
    requires
        i < j < i + 5,
        spec_acceleration_due(i, true),
    ensures
        !spec_acceleration_due(j, true),
{
}

} // verus!
