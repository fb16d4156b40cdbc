//! The spool transient's census: eight counts that see what no value can (which hook ran, which
//! arm of the subsonic failure was taken, how many residuals a root find evaluated), their
//! readers, the read-and-reset, and the decision between the subsonic fallback and the
//! escalation.
use vstd::prelude::*;

verus! {

/// The eight counts, read together.
#[derive(Clone, Copy, Debug, PartialEq, Eq)]
pub struct Census {
    /// Calls of the Illinois turbine choke solve.
    pub r34_solve_turbine: u64,
    /// Subsonic turbine failures absorbed at the sonic boundary.
    pub subsonic_fallbacks: u64,
    /// Subsonic turbine failures escalated to an abort.
    pub subsonic_escalations: u64,
    /// Firings of the speed-ratio floor.
    pub nu_floor_hits: u64,
    /// Residual sentinels returned to a root find.
    pub resid_sentinels: u64,
    /// Calls of the Illinois root finder.
    pub illinois_calls: u64,
    /// Residual evaluations inside the Illinois root finder, over every call.
    pub illinois_evals: u64,
    /// Illinois calls that ran out of iterations.
    pub illinois_exhausted: u64,
}

/// Every count at zero.
pub open spec fn census_zero() -> Census {
    Census {
        r34_solve_turbine: 0,
        subsonic_fallbacks: 0,
        subsonic_escalations: 0,
        nu_floor_hits: 0,
        resid_sentinels: 0,
        illinois_calls: 0,
        illinois_evals: 0,
        illinois_exhausted: 0,
    }
}

impl Default for Census {
    /// Every count at zero.
    fn default() -> (c: Census)
        ensures
            c == census_zero(),
    {
        Census {
            r34_solve_turbine: 0,
            subsonic_fallbacks: 0,
            subsonic_escalations: 0,
            nu_floor_hits: 0,
            resid_sentinels: 0,
            illinois_calls: 0,
            illinois_evals: 0,
            illinois_exhausted: 0,
        }
    }
}

/// Calls of the Illinois turbine choke solve.
pub fn r34_solve_turbine_calls(c: &Census) -> (n: u64)
    ensures
        n == c.r34_solve_turbine,
{
    c.r34_solve_turbine
}

/// Subsonic failures absorbed at the boundary.
pub fn subsonic_fallbacks(c: &Census) -> (n: u64)
    ensures
        n == c.subsonic_fallbacks,
{
    c.subsonic_fallbacks
}

/// Subsonic failures escalated.
pub fn subsonic_escalations(c: &Census) -> (n: u64)
    ensures
        n == c.subsonic_escalations,
{
    c.subsonic_escalations
}

/// Firings of the speed-ratio floor.
pub fn nu_floor_hits(c: &Census) -> (n: u64)
    ensures
        n == c.nu_floor_hits,
{
    c.nu_floor_hits
}

/// Residual sentinels.
pub fn resid_sentinels(c: &Census) -> (n: u64)
    ensures
        n == c.resid_sentinels,
{
    c.resid_sentinels
}

/// Residual evaluations inside the Illinois root finder, summed over every call.
pub fn illinois_evals(c: &Census) -> (n: u64)
    ensures
        n == c.illinois_evals,
{
    c.illinois_evals
}

/// Calls of the Illinois root finder.
pub fn illinois_calls(c: &Census) -> (n: u64)
    ensures
        n == c.illinois_calls,
{
    c.illinois_calls
}

/// Every subsonic turbine failure, absorbed or escalated: the two arms partition it exactly.
pub fn subsonic_raises(c: &Census) -> (n: u64)
    requires
        c.subsonic_fallbacks + c.subsonic_escalations <= u64::MAX,
    ensures
        n == c.subsonic_fallbacks + c.subsonic_escalations,
{
    c.subsonic_fallbacks + c.subsonic_escalations
}

/// Illinois calls that ran out of iterations.
pub fn illinois_exhausted(c: &Census) -> (n: u64)
    ensures
        n == c.illinois_exhausted,
{
    c.illinois_exhausted
}

/// Read AND reset every count, so a reader can attribute them to one run rather than to a sum.
pub fn take(c: &mut Census) -> (taken: Census)
    ensures
        taken == *old(c),
        *final(c) == census_zero(),
{
    let taken = *c;
    *c = Census::default();
    taken
}

/// What the census counts.
#[derive(Clone, Copy, Debug, PartialEq, Eq, Structural)]
pub enum SpoolEvent {
    R34SolveTurbine,
    SubsonicFallback,
    SubsonicEscalation,
    NuFloorHit,
    ResidSentinel,
    IllinoisCall,
    IllinoisEval,
    IllinoisExhausted,
}

/// The count an event goes to.
pub open spec fn spool_count(c: Census, e: SpoolEvent) -> u64 {
    match e {
        SpoolEvent::R34SolveTurbine => c.r34_solve_turbine,
        SpoolEvent::SubsonicFallback => c.subsonic_fallbacks,
        SpoolEvent::SubsonicEscalation => c.subsonic_escalations,
        SpoolEvent::NuFloorHit => c.nu_floor_hits,
        SpoolEvent::ResidSentinel => c.resid_sentinels,
        SpoolEvent::IllinoisCall => c.illinois_calls,
        SpoolEvent::IllinoisEval => c.illinois_evals,
        SpoolEvent::IllinoisExhausted => c.illinois_exhausted,
    }
}

/// `after` is `before` with the count of `e` one higher and every other count unchanged.
pub open spec fn spool_bumped(before: Census, after: Census, e: SpoolEvent) -> bool {
    forall|j: SpoolEvent|
        #[trigger] spool_count(after, j) == spool_count(before, j) + (if j == e {
            1int
        } else {
            0int
        })
}

/// Count one event.
pub fn record(c: &mut Census, e: SpoolEvent)
    requires
        spool_count(*old(c), e) < u64::MAX,
    ensures
        spool_bumped(*old(c), *final(c), e),
{
    match e {
        SpoolEvent::R34SolveTurbine => c.r34_solve_turbine = c.r34_solve_turbine + 1,
        SpoolEvent::SubsonicFallback => c.subsonic_fallbacks = c.subsonic_fallbacks + 1,
        SpoolEvent::SubsonicEscalation => c.subsonic_escalations = c.subsonic_escalations + 1,
        SpoolEvent::NuFloorHit => c.nu_floor_hits = c.nu_floor_hits + 1,
        SpoolEvent::ResidSentinel => c.resid_sentinels = c.resid_sentinels + 1,
        SpoolEvent::IllinoisCall => c.illinois_calls = c.illinois_calls + 1,
        SpoolEvent::IllinoisEval => c.illinois_evals = c.illinois_evals + 1,
        SpoolEvent::IllinoisExhausted => c.illinois_exhausted = c.illinois_exhausted + 1,
    }
}

/// The arm a subsonic turbine failure takes.
#[derive(Clone, Copy, Debug, PartialEq, Eq, Structural)]
pub enum SubsonicArm {
    /// Absorbed: the choked-star exit Mach number sits at the sonic boundary, where the choked
    /// solution is the continuous limit.
    Fallback,
    /// Escalated to an abort: a real subsonic-solve gap away from the boundary.
    Escalate,
}

/// Decide and count a subsonic turbine failure. `m9_above_edge` is the caller's `m9 > 0.985` on
/// the choked-star exit Mach number (false for a NaN, which therefore escalates).
pub fn subsonic_failure_arm(c: &mut Census, m9_above_edge: bool) -> (arm: SubsonicArm)
    requires
        m9_above_edge ==> old(c).subsonic_fallbacks < u64::MAX,
        !m9_above_edge ==> old(c).subsonic_escalations < u64::MAX,
    ensures
        arm == (if m9_above_edge {
            SubsonicArm::Fallback
        } else {
            SubsonicArm::Escalate
        }),
        spool_bumped(
            *old(c),
            *final(c),
            if m9_above_edge {
                SpoolEvent::SubsonicFallback
            } else {
                SpoolEvent::SubsonicEscalation
            },
        ),
{
    if !m9_above_edge {
        record(c, SpoolEvent::SubsonicEscalation);
        SubsonicArm::Escalate
    } else {
        record(c, SpoolEvent::SubsonicFallback);
        SubsonicArm::Fallback
    }
}

/// Every subsonic failure, whichever arm it takes, raises the sum of the two arms by exactly one
/// and moves no count outside them.
pub proof fn subsonic_arms_partition_the_raises(before: Census, after: Census, e: SpoolEvent)
    requires
        e == SpoolEvent::SubsonicFallback || e == SpoolEvent::SubsonicEscalation,
        spool_bumped(before, after, e),
    ensures
        after.subsonic_fallbacks + after.subsonic_escalations == before.subsonic_fallbacks
            + before.subsonic_escalations + 1,
        after.r34_solve_turbine == before.r34_solve_turbine,
        after.nu_floor_hits == before.nu_floor_hits,
        after.resid_sentinels == before.resid_sentinels,
        after.illinois_calls == before.illinois_calls,
        after.illinois_evals == before.illinois_evals,
        after.illinois_exhausted == before.illinois_exhausted,
{
    assert(spool_count(after, SpoolEvent::SubsonicFallback) == spool_count(
        before,
        SpoolEvent::SubsonicFallback,
    ) + (if SpoolEvent::SubsonicFallback == e {
        1int
    } else {
        0int
    }));
    assert(spool_count(after, SpoolEvent::SubsonicEscalation) == spool_count(
        before,
        SpoolEvent::SubsonicEscalation,
    ) + (if SpoolEvent::SubsonicEscalation == e {
        1int
    } else {
        0int
    }));
    assert(spool_count(after, SpoolEvent::R34SolveTurbine) == spool_count(
        before,
        SpoolEvent::R34SolveTurbine,
    ));
    assert(spool_count(after, SpoolEvent::NuFloorHit) == spool_count(before, SpoolEvent::NuFloorHit));
    assert(spool_count(after, SpoolEvent::ResidSentinel) == spool_count(
        before,
        SpoolEvent::ResidSentinel,
    ));
    assert(spool_count(after, SpoolEvent::IllinoisCall) == spool_count(
        before,
        SpoolEvent::IllinoisCall,
    ));
    assert(spool_count(after, SpoolEvent::IllinoisEval) == spool_count(
        before,
        SpoolEvent::IllinoisEval,
    ));
    assert(spool_count(after, SpoolEvent::IllinoisExhausted) == spool_count(
        before,
        SpoolEvent::IllinoisExhausted,
    ));
}

} // verus!
