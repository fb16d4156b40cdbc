//! The residual gauge: the gauge knob's two instruments, its two scope policies (one restores,
//! one clobbers), the dispatch of the gauged accel branch and its min-select, and the rung's
//! sibling constructor.
use vstd::prelude::*;
use crate::fuel_cap::{
    CAP_NONE_BITS, eq_bits, float_eq, float_lt, is_nan_bits, min_select, select_min,
};
use crate::knobs::{CapLaw, GAUGE_K_IDENTITY_BITS, Knobs, Rung, sibling};
use crate::reference_split::{
    ArmingRefusal, SplitArming, arming_admitted, is_first_refusal, split_family_sibling,
};

verus! {

/// One more on a counter that wraps at the top, as an atomic `fetch_add` does.
pub open spec fn wrap_inc(x: u64) -> u64 {
    if x == u64::MAX {
        0
    } else {
        (x + 1) as u64
    }
}

fn wrapping_inc(x: u64) -> (y: u64)
    ensures
        y == wrap_inc(x),
{
    if x == u64::MAX {
        0
    } else {
        x + 1
    }
}

/// The gauge's two instruments: how often the gauged accel branch RAN, and how often its value
/// WON the min-select. Each failure looks like a pass on its own, so there are two.
#[derive(Clone, Copy, Debug, PartialEq, Eq)]
pub struct GaugeCounters {
    /// Runs of the gauged accel branch.
    pub hits: u64,
    /// Min-selects the gauged accel cap won.
    pub binds: u64,
}

/// Read both instruments: `(hits, binds)`.
pub fn gauge_counters(c: &GaugeCounters) -> (r: (u64, u64))
    ensures
        r == (c.hits, c.binds),
{
    (c.hits, c.binds)
}

/// Zero both instruments together, returning what they held: the pair is never reset by halves.
pub fn reset_gauge_counters(c: &mut GaugeCounters) -> (r: (u64, u64))
    ensures
        r == (old(c).hits, old(c).binds),
        final(c).hits == 0,
        final(c).binds == 0,
        final(c).binds <= final(c).hits,
{
    let r = (c.hits, c.binds);
    c.hits = 0;
    c.binds = 0;
    r
}

/// `knobs` with the gauge set to `k` and nothing else moved.
pub open spec fn with_gauge(knobs: Knobs, k: u64) -> Knobs {
    Knobs { gauge_k: k, ..knobs }
}

/// The restoring gauge scope: set the gauge, and on close put back the value it displaced.
/// Correct under nesting.
#[must_use]
#[derive(Debug)]
pub struct GaugeRestored {
    prev: u64,
}

impl GaugeRestored {
    /// What this scope displaced, as a spec value.
    pub closed spec fn prev(&self) -> u64 {
        self.prev
    }

    /// Set the gauge, remembering what was there.
    pub fn set(core: &mut Knobs, k: u64) -> (scope: GaugeRestored)
        ensures
            scope.prev() == old(core).gauge_k,
            *final(core) == with_gauge(*old(core), k),
    {
        let prev: u64 = core.gauge_k;
        core.gauge_k = k;
        GaugeRestored { prev }
    }

    /// What this scope displaced.
    pub fn displaced(&self) -> (prev: u64)
        ensures
            prev == self.prev(),
    {
        self.prev
    }

    /// Close the scope: restore the displaced gauge.
    pub fn close(self, core: &mut Knobs)
        ensures
            *final(core) == with_gauge(*old(core), self.prev()),
    {
        core.gauge_k = self.prev;
    }
}

/// The clobbering gauge scope: set the gauge, and on close write the IDENTITY, whatever was there
/// before. A clobber, not a restore.
#[must_use]
#[derive(Debug)]
pub struct GaugeClobbered {}

impl GaugeClobbered {
    /// Set the gauge, forgetting what was there.
    pub fn set(core: &mut Knobs, k: u64) -> (scope: GaugeClobbered)
        ensures
            *final(core) == with_gauge(*old(core), k),
    {
        core.gauge_k = k;
        GaugeClobbered {}
    }

    /// Close the scope: write the identity gauge.
    pub fn close(self, core: &mut Knobs)
        ensures
            *final(core) == with_gauge(*old(core), GAUGE_K_IDENTITY_BITS),
    {
        core.gauge_k = GAUGE_K_IDENTITY_BITS;
    }
}

/// A restoring scope opened and closed leaves the machine exactly as it was, and two of them
/// nested and closed innermost first do too.
pub proof fn gauge_restored_round_trip(m: Knobs, outer: u64, inner: u64)
    ensures
        with_gauge(with_gauge(m, outer), m.gauge_k) == m,
        ({
            let m1 = with_gauge(m, outer);
            let m2 = with_gauge(m1, inner);
            let m3 = with_gauge(m2, m1.gauge_k);
            m3 == m1 && with_gauge(m3, m.gauge_k) == m
        }),
{
}

/// A clobbering scope entered on a machine at a non-identity gauge leaves it at the identity,
/// NOT at the gauge it was entered at: every read after the first one inside an outer scope runs
/// a different plant. Entered at the identity, the clobber is indistinguishable from a restore.
pub proof fn gauge_clobber_loses_the_outer_gauge(m: Knobs, k: u64)
    ensures
        with_gauge(with_gauge(m, k), GAUGE_K_IDENTITY_BITS).gauge_k == GAUGE_K_IDENTITY_BITS,
        m.gauge_k != GAUGE_K_IDENTITY_BITS ==> with_gauge(with_gauge(m, k), GAUGE_K_IDENTITY_BITS)
            != m,
        m.gauge_k == GAUGE_K_IDENTITY_BITS ==> with_gauge(with_gauge(m, k), GAUGE_K_IDENTITY_BITS)
            == m,
{
}

/// The two frozen actuator states a reading can be taken at, as float bit patterns: `None` for
/// a loop left closed, re-solved at the very fuel being read.
#[derive(Clone, Copy, Debug, PartialEq, Eq)]
pub struct Freeze {
    /// The valve's frozen position.
    pub b_state: Option<u64>,
    /// The stator's frozen setting.
    pub v_state: Option<u64>,
}

/// The freeze of one `phi` reading: both states set for the reading, and the ENCLOSING freeze
/// put back when it closes — not `None`, because this scope is entered inside another freeze on
/// purpose (a central difference taken at a frozen point).
#[must_use]
#[derive(Debug)]
pub struct PhiAtFreeze {
    prev: Freeze,
}

impl PhiAtFreeze {
    /// What this scope displaced, as a spec value.
    pub closed spec fn prev(&self) -> Freeze {
        self.prev
    }

    /// Freeze the valve at `q` and the stator at `v`, remembering both.
    pub fn set(state: &mut Freeze, q: Option<u64>, v: Option<u64>) -> (scope: PhiAtFreeze)
        ensures
            scope.prev() == *old(state),
            *final(state) == (Freeze { b_state: q, v_state: v }),
    {
        let prev = *state;
        state.b_state = q;
        state.v_state = v;
        PhiAtFreeze { prev }
    }

    /// Close the scope: restore the enclosing freeze, both states.
    pub fn close(self, state: &mut Freeze)
        ensures
            *final(state) == self.prev(),
    {
        *state = self.prev;
    }
}

/// Where the gauged rung's cap call goes.
#[derive(Clone, Copy, Debug, PartialEq, Eq, Structural)]
pub enum Route78 {
    /// The identity gauge: the parent rung's body, bit for bit.
    Parent,
    /// The gauged min-select.
    Gauged,
    /// `sensed` with a non-identity gauge: the gauged branch bypasses the sensed cap, so the cap
    /// would be read at the trial fuel rather than the applied one. Refused.
    RefusedSensed,
}

/// The route of the gauged rung's cap call, as a spec value.
pub open spec fn spec_route78(knobs: Knobs, accel_armed: bool) -> Route78 {
    if knobs.gauge_k == GAUGE_K_IDENTITY_BITS {
        Route78::Parent
    } else if accel_armed && knobs.cap_law == CapLaw::Sensed {
        Route78::RefusedSensed
    } else {
        Route78::Gauged
    }
}

/// The route of the gauged rung's cap call: the parent at the identity gauge, compared exactly
/// (a gauge one ulp off, or a NaN gauge, takes the gauged branch); the sensed law refused when
/// the accel leg is armed; the gauged min-select otherwise. Counts nothing.
pub fn r78_route(knobs: &Knobs, accel_armed: bool) -> (r: Route78)
    ensures
        r == spec_route78(*knobs, accel_armed),
        knobs.gauge_k == GAUGE_K_IDENTITY_BITS ==> r == Route78::Parent,
        r == Route78::RefusedSensed <==> (knobs.gauge_k != GAUGE_K_IDENTITY_BITS && accel_armed
            && knobs.cap_law == CapLaw::Sensed),
{
    if knobs.gauge_k == GAUGE_K_IDENTITY_BITS {
        return Route78::Parent;
    }
    if accel_armed {
        match knobs.cap_law {
            CapLaw::Sensed => {
                return Route78::RefusedSensed;
            },
            CapLaw::Solve => {},
        }
    }
    Route78::Gauged
}

/// The gauged min-select as a spec value: the armed caps in order accel, surge, folded with the
/// plant's min (the first kept unless the next is strictly lower); `+inf` when neither leg is
/// armed.
pub open spec fn spec_r78_select(accel: Option<u64>, surge: Option<u64>) -> u64 {
    match (accel, surge) {
        (None, None) => CAP_NONE_BITS,
        (Some(a), None) => a,
        (None, Some(s)) => s,
        (Some(a), Some(s)) => min_select(a, s),
    }
}

/// The gauged branch's min-select over the caps its armed legs returned.
pub fn r78_min_select(accel: Option<u64>, surge: Option<u64>) -> (out: u64)
    ensures
        out == spec_r78_select(accel, surge),
{
    match (accel, surge) {
        (None, None) => CAP_NONE_BITS,
        (Some(a), None) => a,
        (None, Some(s)) => s,
        (Some(a), Some(s)) => select_min(a, s),
    }
}

/// What one armed leg handed the gauged branch.
#[derive(Clone, Copy, Debug, PartialEq, Eq, Structural)]
pub enum LegCap {
    /// The leg is not armed.
    Unarmed,
    /// The leg's cap.
    Cap(u64),
    /// The leg's solve refused or aborted (for the accel leg: the anchored-root refusal too).
    Failed,
}

/// What the gauged rung's cap call answers.
#[derive(Clone, Copy, Debug, PartialEq, Eq, Structural)]
pub enum Cap78 {
    /// The identity gauge: the parent rung's cap call answers.
    Parent,
    /// `sensed` with a non-identity gauge and an accel leg: refused.
    RefusedSensed,
    /// A leg's solve failed: the call fails.
    Aborted,
    /// The composed cap.
    Cap(u64),
}

/// The cap a leg hands the min-select, when it hands one.
pub open spec fn leg_value(l: LegCap) -> Option<u64> {
    match l {
        LegCap::Cap(x) => Some(x),
        _ => None,
    }
}

/// The gauged rung's cap call as a spec value: its answer and the counters after it.
pub open spec fn r78_step(c: GaugeCounters, knobs: Knobs, accel: LegCap, surge: LegCap) -> (
    Cap78,
    GaugeCounters,
) {
    let route = spec_route78(knobs, accel != LegCap::Unarmed);
    if route == Route78::Parent {
        (Cap78::Parent, c)
    } else {
        let hit = if accel != LegCap::Unarmed {
            GaugeCounters { hits: wrap_inc(c.hits), binds: c.binds }
        } else {
            c
        };
        if route == Route78::RefusedSensed {
            (Cap78::RefusedSensed, hit)
        } else if accel == LegCap::Failed || surge == LegCap::Failed {
            (Cap78::Aborted, hit)
        } else {
            let out = spec_r78_select(leg_value(accel), leg_value(surge));
            let bound = match accel {
                LegCap::Cap(a) => float_eq(out, a),
                _ => false,
            };
            (
                Cap78::Cap(out),
                GaugeCounters {
                    hits: hit.hits,
                    binds: if bound {
                        wrap_inc(c.binds)
                    } else {
                        c.binds
                    },
                },
            )
        }
    }
}

/// The gauged rung's cap call, counters and all: the parent at the identity gauge; else, with an
/// accel leg armed, the gauged branch counted as run BEFORE the sensed-law refusal is tested and
/// before its solve can fail; then the min-select, counting a bind when the answer equals the
/// accel leg's cap as floats.
///
/// A leg's cap is read only on the gauged route; on the other routes only whether it is armed
/// counts.
pub fn r78_cap_fuel(c: &mut GaugeCounters, knobs: &Knobs, accel: LegCap, surge: LegCap) -> (r:
    Cap78)
    ensures
        (r, *final(c)) == r78_step(*old(c), *knobs, accel, surge),
        knobs.gauge_k == GAUGE_K_IDENTITY_BITS ==> r == Cap78::Parent && *final(c) == *old(c),
        r == Cap78::RefusedSensed ==> knobs.gauge_k != GAUGE_K_IDENTITY_BITS && knobs.cap_law
            == CapLaw::Sensed && accel != LegCap::Unarmed,
        old(c).binds <= old(c).hits && old(c).hits < u64::MAX ==> final(c).binds
            <= final(c).hits,
{
    let armed = match accel {
        LegCap::Unarmed => false,
        _ => true,
    };
    let route = r78_route(knobs, armed);
    match route {
        Route78::Parent => {
            return Cap78::Parent;
        },
        _ => {},
    }
    if armed {
        c.hits = wrapping_inc(c.hits);
    }
    match route {
        Route78::RefusedSensed => {
            return Cap78::RefusedSensed;
        },
        _ => {},
    }
    let a = match accel {
        LegCap::Failed => {
            return Cap78::Aborted;
        },
        LegCap::Cap(x) => Some(x),
        LegCap::Unarmed => None,
    };
    let s = match surge {
        LegCap::Failed => {
            return Cap78::Aborted;
        },
        LegCap::Cap(x) => Some(x),
        LegCap::Unarmed => None,
    };
    let out = r78_min_select(a, s);
    match a {
        Some(x) => {
            if eq_bits(out, x) {
                c.binds = wrapping_inc(c.binds);
            }
        },
        None => {},
    }
    Cap78::Cap(out)
}

/// At the identity gauge the cap call is the parent rung's, whatever the cap law and the legs:
/// nothing is refused and nothing is counted there. The sensed-law refusal is raised only off
/// the identity, only with the accel leg armed, and it counts the gauged branch's hit.
pub proof fn identity_gauge_is_always_the_parent(
    c: GaugeCounters,
    knobs: Knobs,
    accel: LegCap,
    surge: LegCap,
)
    ensures
        knobs.gauge_k == GAUGE_K_IDENTITY_BITS ==> r78_step(c, knobs, accel, surge) == (
            Cap78::Parent,
            c,
        ),
        knobs.gauge_k == GAUGE_K_IDENTITY_BITS ==> spec_route78(knobs, true) == Route78::Parent
            && spec_route78(knobs, false) == Route78::Parent,
        r78_step(c, knobs, accel, surge).0 == Cap78::RefusedSensed <==> (knobs.gauge_k
            != GAUGE_K_IDENTITY_BITS && knobs.cap_law == CapLaw::Sensed && accel
            != LegCap::Unarmed),
        r78_step(c, knobs, accel, surge).0 == Cap78::RefusedSensed ==> r78_step(
            c,
            knobs,
            accel,
            surge,
        ).1.hits == wrap_inc(c.hits),
{
}

/// With both legs armed and a non-NaN accel cap, the accel cap binds exactly when the surge cap
/// does not lie strictly below it: ties go to the accel leg, the first of the two. A NaN accel
/// cap never binds.
pub proof fn accel_binds_unless_surge_is_strictly_lower(a: u64, s: u64)
    ensures
        !is_nan_bits(a) ==> (float_eq(spec_r78_select(Some(a), Some(s)), a) <==> !float_lt(s, a)),
        is_nan_bits(a) ==> !float_eq(spec_r78_select(Some(a), Some(s)), a),
{
}

/// The gauged rung's sibling constructor: the cascade's guards, then seven knobs carried — the
/// gauge the last of them.
pub fn r78_at_lever(core: &Knobs, built: Knobs, arm: &SplitArming) -> (m: Result<
    Knobs,
    ArmingRefusal,
>)
    ensures
        m matches Ok(k) ==> arming_admitted(*arm) && k == sibling(Rung::R78, *core, built),
        m matches Err(g) ==> is_first_refusal(*arm, g) && !arming_admitted(*arm),
        arming_admitted(*arm) ==> m is Ok,
{
    split_family_sibling(Rung::R78, core, built, arm)
}

} // verus!
