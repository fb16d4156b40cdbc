//! The state coordinate: the phi leg's coordinate knob and its setter, the six counters that say
//! which branch ran and which coordinate fell back, the one place the coordinate is chosen, the
//! dispatch and min-select of the re-coordinated cap, and the rung's sibling constructor.
use vstd::prelude::*;
use crate::fuel_cap::{float_eq, float_le, le_bits, min_select, select_min};
use crate::knobs::{Coordinate, GAUGE_K_IDENTITY_BITS, Knobs, Rung, sibling};
use crate::reference_split::{
    ArmingRefusal, SplitArming, arming_admitted, is_first_refusal, split_family_sibling,
};

verus! {

/// The rung's six counters, read together.
#[derive(Clone, Copy, Debug, PartialEq, Eq)]
pub struct CoordCounters {
    /// The incidence branch ran.
    pub hits: u64,
    /// ... and its value won the min-select, compared by value, never by position.
    pub binds: u64,
    /// The set-point solve returned the shipped fallback, in the `phi` coordinate.
    pub fb_phi: u64,
    /// ... and in the incidence coordinate.
    pub fb_inc: u64,
    /// Completed phi-leg set-point solves, in `phi`.
    pub calls_phi: u64,
    /// ... and in incidence.
    pub calls_inc: u64,
}

/// Every counter at zero.
pub open spec fn coord_zero() -> CoordCounters {
    CoordCounters { hits: 0, binds: 0, fb_phi: 0, fb_inc: 0, calls_phi: 0, calls_inc: 0 }
}

impl Default for CoordCounters {
    /// Every counter at zero.
    fn default() -> (c: CoordCounters)
        ensures
            c == coord_zero(),
    {
        CoordCounters { hits: 0, binds: 0, fb_phi: 0, fb_inc: 0, calls_phi: 0, calls_inc: 0 }
    }
}

/// The rung's instrument state: the six counters and the probe flag.
#[derive(Clone, Copy, Debug, PartialEq, Eq)]
pub struct CoordState {
    /// The six counters.
    pub counters: CoordCounters,
    /// Whether the probe that re-solves the phi leg in the `phi` coordinate is armed.
    pub probe: bool,
}

/// Read all six counters.
pub fn coord_counters(s: &CoordState) -> (c: CoordCounters)
    ensures
        c == s.counters,
{
    s.counters
}

/// Zero all six counters as a set, returning what they held; the probe flag is not touched.
pub fn reset_coord_counters(s: &mut CoordState) -> (c: CoordCounters)
    ensures
        c == old(s).counters,
        final(s).counters == coord_zero(),
        final(s).counters.binds <= final(s).counters.hits,
        final(s).probe == old(s).probe,
{
    let c = s.counters;
    s.counters = CoordCounters::default();
    c
}

/// Whether the probe is armed.
pub fn coord_probe_armed(s: &CoordState) -> (armed: bool)
    ensures
        armed == s.probe,
{
    s.probe
}

/// `knobs` with the phi leg's coordinate set to `r` and nothing else moved.
pub open spec fn with_coord(knobs: Knobs, r: Coordinate) -> Knobs {
    Knobs { phi_ref: r, ..knobs }
}

/// The coordinate setter: write the phi leg's coordinate and hand back what it displaced.
pub fn r79_with_coord(t: &mut Knobs, r: Coordinate) -> (prev: Coordinate)
    ensures
        prev == old(t).phi_ref,
        *final(t) == with_coord(*old(t), r),
{
    let prev = t.phi_ref;
    t.phi_ref = r;
    prev
}

/// Setting a coordinate and then setting back what the setter handed back leaves the machine as
/// it was.
pub proof fn with_coord_round_trip(m: Knobs, r: Coordinate)
    ensures
        with_coord(with_coord(m, r), m.phi_ref) == m,
{
}

/// The coordinate a phi-leg solve runs in: the override when one is given, else the machine's
/// own; `true` for `phi`, `false` for every other word (the incidence residual).
pub open spec fn spec_solves_in_phi(coord: Option<Coordinate>, phi_ref: Coordinate) -> bool {
    match coord {
        Some(c) => c == Coordinate::Phi,
        None => phi_ref == Coordinate::Phi,
    }
}

/// The one place the phi leg's coordinate is chosen, so no reader can drift from the plant.
pub fn solves_in_phi(coord: Option<Coordinate>, phi_ref: Coordinate) -> (is_phi: bool)
    ensures
        is_phi == spec_solves_in_phi(coord, phi_ref),
        coord matches Some(c) ==> is_phi == (c == Coordinate::Phi),
        coord is None ==> is_phi == (phi_ref == Coordinate::Phi),
{
    let c = match coord {
        Some(c) => c,
        None => phi_ref,
    };
    match c {
        Coordinate::Phi => true,
        _ => false,
    }
}

/// Count one phi-leg set-point solve in its coordinate: the fallback counter when the solve fell
/// back to the shipped one, and the calls counter only when the solve came back — a solve that
/// aborts is never counted as a call.
pub fn record_phi_cap(c: &mut CoordCounters, is_phi: bool, fell_back: bool, solved: bool)
    requires
        is_phi && fell_back ==> old(c).fb_phi < u64::MAX,
        !is_phi && fell_back ==> old(c).fb_inc < u64::MAX,
        is_phi && solved ==> old(c).calls_phi < u64::MAX,
        !is_phi && solved ==> old(c).calls_inc < u64::MAX,
    ensures
        final(c).hits == old(c).hits,
        final(c).binds == old(c).binds,
        final(c).fb_phi == old(c).fb_phi + (if is_phi && fell_back {
            1int
        } else {
            0int
        }),
        final(c).fb_inc == old(c).fb_inc + (if !is_phi && fell_back {
            1int
        } else {
            0int
        }),
        final(c).calls_phi == old(c).calls_phi + (if is_phi && solved {
            1int
        } else {
            0int
        }),
        final(c).calls_inc == old(c).calls_inc + (if !is_phi && solved {
            1int
        } else {
            0int
        }),
{
    if fell_back {
        if is_phi {
            c.fb_phi = c.fb_phi + 1;
        } else {
            c.fb_inc = c.fb_inc + 1;
        }
    }
    if solved {
        if is_phi {
            c.calls_phi = c.calls_phi + 1;
        } else {
            c.calls_inc = c.calls_inc + 1;
        }
    }
}

/// Whether THIS call's incidence solve fell back: the incidence fallback counter differenced
/// around the solve, never inferred from a total.
pub fn used_fallback(before: &CoordCounters, after: &CoordCounters) -> (used: bool)
    ensures
        used == (after.fb_inc != before.fb_inc),
{
    after.fb_inc != before.fb_inc
}

/// Where the re-coordinated rung's cap call goes.
#[derive(Clone, Copy, Debug, PartialEq, Eq, Structural)]
pub enum Route79 {
    /// The `phi` coordinate: the gauged rung's body, bit for bit.
    Parent,
    /// An incidence phi leg with a non-identity gauge: the two knobs re-write different legs'
    /// residuals, so the composition is neither rung. Refused.
    RefusedGauge,
    /// The incidence branch.
    Incidence,
}

/// The route of the re-coordinated cap call, as a spec value.
pub open spec fn spec_route79(knobs: Knobs) -> Route79 {
    if knobs.phi_ref == Coordinate::Phi {
        Route79::Parent
    } else if knobs.gauge_k != GAUGE_K_IDENTITY_BITS {
        Route79::RefusedGauge
    } else {
        Route79::Incidence
    }
}

/// Dispatch the re-coordinated cap call: the parent in `phi`; every other word — incidence, and
/// the demand word a setter re-aim can leave here — takes the incidence branch, unless the gauge
/// is off the identity (a NaN gauge included), which is refused.
pub fn r79_route(knobs: &Knobs) -> (r: Route79)
    ensures
        r == spec_route79(*knobs),
        (r == Route79::Parent) == (knobs.phi_ref == Coordinate::Phi),
        (r == Route79::RefusedGauge) == (knobs.phi_ref != Coordinate::Phi && knobs.gauge_k
            != GAUGE_K_IDENTITY_BITS),
{
    match knobs.phi_ref {
        Coordinate::Phi => Route79::Parent,
        _ => if knobs.gauge_k != GAUGE_K_IDENTITY_BITS {
            Route79::RefusedGauge
        } else {
            Route79::Incidence
        },
    }
}

/// What one phi-leg set-point solve did: whether it fell back to the shipped solve, and its cap,
/// `None` where it aborted.
#[derive(Clone, Copy, Debug, PartialEq, Eq)]
pub struct PhiSolve {
    /// The solve returned the shipped fallback.
    pub fell_back: bool,
    /// The cap it returned; `None` where it aborted.
    pub cap: Option<u64>,
}

/// What the re-coordinated rung's cap call answers.
#[derive(Clone, Copy, Debug, PartialEq, Eq, Structural)]
pub enum Cap79 {
    /// The `phi` coordinate: the gauged rung's cap call answers.
    Parent,
    /// An incidence phi leg with a non-identity gauge: refused.
    RefusedGauge,
    /// A phi-leg solve aborted: the call fails.
    Aborted,
    /// The composed cap, and whether this call's incidence solve fell back.
    Cap {
        /// The cap.
        cap: u64,
        /// The incidence solve fell back to the shipped one.
        used_fb: bool,
    },
}

/// `c` with one phi-leg solve in coordinate `is_phi` counted, as [`record_phi_cap`] counts it.
pub open spec fn phi_tally(c: CoordCounters, is_phi: bool, ps: PhiSolve) -> CoordCounters {
    let fb: int = if ps.fell_back {
        1
    } else {
        0
    };
    let call: int = if ps.cap is Some {
        1
    } else {
        0
    };
    if is_phi {
        CoordCounters { fb_phi: (c.fb_phi + fb) as u64, calls_phi: (c.calls_phi + call) as u64, ..c }
    } else {
        CoordCounters { fb_inc: (c.fb_inc + fb) as u64, calls_inc: (c.calls_inc + call) as u64, ..c }
    }
}

/// The incidence branch's min-select, as a spec value: the answer and the counters after the
/// bind is counted (a bind when the phi leg's cap is at or below the accel cap, as floats).
pub open spec fn r79_finish(c: CoordCounters, a_cap: u64, p_cap: u64, used_fb: bool) -> (
    Cap79,
    CoordCounters,
) {
    (
        Cap79::Cap { cap: min_select(a_cap, p_cap), used_fb },
        CoordCounters {
            binds: if float_le(p_cap, a_cap) {
                (c.binds + 1) as u64
            } else {
                c.binds
            },
            ..c
        },
    )
}

/// The re-coordinated rung's cap call as a spec value: its answer and the counters after it.
pub open spec fn r79_step(
    c: CoordCounters,
    knobs: Knobs,
    probe_armed: bool,
    a_cap: u64,
    surge: Option<PhiSolve>,
    probe: Option<PhiSolve>,
) -> (Cap79, CoordCounters) {
    match spec_route79(knobs) {
        Route79::Parent => (Cap79::Parent, c),
        Route79::RefusedGauge => (Cap79::RefusedGauge, c),
        Route79::Incidence => match surge {
            None => (Cap79::Cap { cap: a_cap, used_fb: false }, c),
            Some(ps) => {
                let c1 = CoordCounters { hits: (c.hits + 1) as u64, ..c };
                let c2 = phi_tally(c1, false, ps);
                match ps.cap {
                    None => (Cap79::Aborted, c2),
                    Some(p) => if probe_armed {
                        match probe {
                            Some(pr) => {
                                let c3 = phi_tally(c2, true, pr);
                                if pr.cap is Some {
                                    r79_finish(c3, a_cap, p, ps.fell_back)
                                } else {
                                    (Cap79::Aborted, c3)
                                }
                            },
                            None => (Cap79::Aborted, c2),
                        }
                    } else {
                        r79_finish(c2, a_cap, p, ps.fell_back)
                    },
                }
            },
        },
    }
}

/// The re-coordinated rung's cap call, counters and all, given what the outside solves returned:
/// the accel cap (the gauged rung's call with the phi leg disarmed), the phi leg's solve in the
/// incidence coordinate when the phi leg is armed, and, when the probe is armed, the same leg
/// re-solved in `phi` — an instrument that counts on the `phi` side and never reaches the plant.
///
/// The incidence branch is counted BEFORE its solve; a solve is counted as a call only when it
/// returns; a bind is counted when the phi leg's cap is at or below the accel cap.
pub fn r79_cap_fuel(
    s: &mut CoordState,
    knobs: &Knobs,
    a_cap: u64,
    surge: Option<PhiSolve>,
    probe: Option<PhiSolve>,
) -> (r: Cap79)
    requires
        spec_route79(*knobs) == Route79::Incidence && surge is Some ==> old(s).counters.hits
            < u64::MAX && old(s).counters.binds < u64::MAX && old(s).counters.fb_inc < u64::MAX
            && old(s).counters.calls_inc < u64::MAX,
        spec_route79(*knobs) == Route79::Incidence && surge is Some && old(s).probe ==> old(
            s,
        ).counters.fb_phi < u64::MAX && old(s).counters.calls_phi < u64::MAX,
        spec_route79(*knobs) == Route79::Incidence && old(s).probe && (surge matches Some(ps)
            && ps.cap is Some) ==> probe is Some,
    ensures
        (r, final(s).counters) == r79_step(
            old(s).counters,
            *knobs,
            old(s).probe,
            a_cap,
            surge,
            probe,
        ),
        final(s).probe == old(s).probe,
        old(s).counters.binds <= old(s).counters.hits ==> final(s).counters.binds
            <= final(s).counters.hits,
{
    match r79_route(knobs) {
        Route79::Parent => {
            return Cap79::Parent;
        },
        Route79::RefusedGauge => {
            return Cap79::RefusedGauge;
        },
        Route79::Incidence => {},
    }
    let ps = match surge {
        None => {
            return Cap79::Cap { cap: a_cap, used_fb: false };
        },
        Some(ps) => ps,
    };
    s.counters.hits = s.counters.hits + 1;
    record_phi_cap(&mut s.counters, false, ps.fell_back, ps.cap.is_some());
    let p = match ps.cap {
        None => {
            return Cap79::Aborted;
        },
        Some(p) => p,
    };
    if s.probe {
        let pr = match probe {
            None => {
                return Cap79::Aborted;
            },
            Some(pr) => pr,
        };
        record_phi_cap(&mut s.counters, true, pr.fell_back, pr.cap.is_some());
        if pr.cap.is_none() {
            return Cap79::Aborted;
        }
    }
    if le_bits(p, a_cap) {
        s.counters.binds = s.counters.binds + 1;
    }
    Cap79::Cap { cap: select_min(a_cap, p), used_fb: ps.fell_back }
}

/// A bind is counted exactly when the answer the plant receives equals the phi leg's cap as a
/// float: ties count as binds (the value handed back on a tie is the accel cap's, equal to it),
/// and a NaN on either side is never a bind and never equal to the answer.
pub proof fn phi_binds_iff_phi_answers(a_cap: u64, p_cap: u64)
    ensures
        float_le(p_cap, a_cap) <==> float_eq(min_select(a_cap, p_cap), p_cap),
{
}

/// The re-coordinated rung's sibling constructor: the cascade's guards, then eight knobs carried
/// — the coordinate the last of them.
pub fn r79_at_lever(core: &Knobs, built: Knobs, arm: &SplitArming) -> (m: Result<
    Knobs,
    ArmingRefusal,
>)
    ensures
        m matches Ok(k) ==> arming_admitted(*arm) && k == sibling(Rung::R79, *core, built),
        m matches Err(g) ==> is_first_refusal(*arm, g) && !arming_admitted(*arm),
        arming_admitted(*arm) ==> m is Ok,
{
    split_family_sibling(Rung::R79, core, built, arm)
}

} // verus!
