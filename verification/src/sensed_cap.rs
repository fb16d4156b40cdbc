//! The sensed cap: the cap-law scope guard, the rule that picks the fuel a sensed cap is read at,
//! the integrator's two nested refusals, and the rung's sibling constructor.
use vstd::prelude::*;
use crate::fuel_cap::{fuel_floor, spec_fuel_floor};
use crate::knobs::{CapLaw, Coordinate, Knobs, Rung, sibling};
use crate::reference_split::{
    ArmingRefusal, SplitArming, arming_admitted, is_first_refusal, split_family_sibling,
};

verus! {

/// `knobs` with the cap law set to `law` and nothing else moved.
pub open spec fn with_cap(knobs: Knobs, law: CapLaw) -> Knobs {
    Knobs { cap_law: law, ..knobs }
}

/// A cap-law scope: the law armed for as long as the scope is open, and the PREVIOUS law put back
/// when it closes — not a constant, so a scope nested in one armed `sensed` hands `sensed` back.
#[must_use]
#[derive(Debug)]
pub struct CapScope {
    prev: CapLaw,
}

impl CapScope {
    /// What this scope displaced, as a spec value.
    pub closed spec fn prev(&self) -> CapLaw {
        self.prev
    }

    /// Arm the named cap law.
    pub fn set(core: &mut Knobs, law: CapLaw) -> (scope: CapScope)
        ensures
            scope.prev() == old(core).cap_law,
            *final(core) == with_cap(*old(core), law),
    {
        let prev = core.cap_law;
        core.cap_law = law;
        CapScope { prev }
    }

    /// What this scope displaced, so a reader can check the restore policy rather than only its
    /// effect.
    pub fn displaced(&self) -> (prev: CapLaw)
        ensures
            prev == self.prev(),
    {
        self.prev
    }

    /// Close the scope: restore the displaced law.
    pub fn close(self, core: &mut Knobs)
        ensures
            *final(core) == with_cap(*old(core), self.prev()),
    {
        core.cap_law = self.prev;
    }
}

/// A cap scope opened and closed leaves the machine as it was, and so do two nested ones closed
/// innermost first: the inner one hands back the outer one's law.
pub proof fn cap_scope_round_trip(m: Knobs, outer: CapLaw, inner: CapLaw)
    ensures
        with_cap(with_cap(m, outer), m.cap_law) == m,
        ({
            let m1 = with_cap(m, outer);
            let m2 = with_cap(m1, inner);
            let m3 = with_cap(m2, m1.cap_law);
            m3 == m1 && m3.cap_law == outer && with_cap(m3, m.cap_law) == m
        }),
{
}

/// The fuel a sensed cap is read at: `None` under the solve law, where the rung's sensed cell
/// answers nothing and the parent's solve decides; under the sensed law the applied fuel floored
/// at `1e-9` (`max(1e-9, applied)`, so a NaN, negative or tiny applied fuel reads at the floor).
///
/// A sensed cap asked with no applied fuel is a threading defect the plant refuses outright,
/// so that call is outside this function's domain.
pub fn sensed_cap_fuel(knobs: &Knobs, mf_app: Option<u64>) -> (at: Option<u64>)
    requires
        knobs.cap_law == CapLaw::Sensed ==> mf_app is Some,
    ensures
        knobs.cap_law == CapLaw::Solve ==> at is None,
        knobs.cap_law == CapLaw::Sensed ==> at == Some(spec_fuel_floor(mf_app->0)),
{
    match knobs.cap_law {
        CapLaw::Solve => None,
        CapLaw::Sensed => match mf_app {
            Some(x) => Some(fuel_floor(x)),
            None => None,
        },
    }
}

/// The integrator's refusals on the sensed law.
#[derive(Clone, Copy, Debug, PartialEq, Eq, Structural)]
pub enum Refusal76 {
    /// `sensed` in the clip coordinate: clip dispatches out of the cap ladder before the cap is
    /// consulted, so the march would silently be an earlier rung.
    SensedInClip,
    /// `sensed` with no accel schedule: the sensed cap re-reads the schedule, so there must be
    /// one.
    SensedWithoutSchedule,
}

/// The refusal the rung's integrator raises, as a spec value.
pub open spec fn spec_refusal76(knobs: Knobs, accel_armed: bool) -> Option<Refusal76> {
    if knobs.cap_law == CapLaw::Sensed && knobs.lag_coord == Coordinate::Clip {
        Some(Refusal76::SensedInClip)
    } else if knobs.cap_law == CapLaw::Sensed && !accel_armed {
        Some(Refusal76::SensedWithoutSchedule)
    } else {
        None
    }
}

/// The refusal the rung's integrator raises before it marches, or `None` when it marches. Both
/// refusals are NESTED inside the sensed law: the solve law marches in the clip coordinate and
/// without a schedule, as every earlier rung does.
pub fn r76_march_refusal(knobs: &Knobs, accel_armed: bool) -> (r: Option<Refusal76>)
    ensures
        r == spec_refusal76(*knobs, accel_armed),
        knobs.cap_law == CapLaw::Solve ==> r is None,
        r == Some(Refusal76::SensedInClip) <==> (knobs.cap_law == CapLaw::Sensed
            && knobs.lag_coord == Coordinate::Clip),
        r == Some(Refusal76::SensedWithoutSchedule) <==> (knobs.cap_law == CapLaw::Sensed
            && knobs.lag_coord != Coordinate::Clip && !accel_armed),
{
    match knobs.cap_law {
        CapLaw::Solve => None,
        CapLaw::Sensed => {
            match knobs.lag_coord {
                Coordinate::Clip => Some(Refusal76::SensedInClip),
                _ => if !accel_armed {
                    Some(Refusal76::SensedWithoutSchedule)
                } else {
                    None
                },
            }
        },
    }
}

/// The solve law is never refused, whatever coordinate and legs it runs with: the reduce arm
/// keeps marching every earlier rung.
pub proof fn solve_law_always_marches(knobs: Knobs, accel_armed: bool)
    requires
        knobs.cap_law == CapLaw::Solve,
    ensures
        spec_refusal76(knobs, accel_armed) is None,
{
}

/// The sensed-cap rung's sibling constructor: the cascade's guards, then six knobs carried — the
/// cap law the last of them.
pub fn r76_at_lever(core: &Knobs, built: Knobs, arm: &SplitArming) -> (m: Result<
    Knobs,
    ArmingRefusal,
>)
    ensures
        m matches Ok(k) ==> arming_admitted(*arm) && k == sibling(Rung::R76, *core, built),
        m matches Err(g) ==> is_first_refusal(*arm, g) && !arming_admitted(*arm),
        arming_admitted(*arm) ==> m is Ok,
{
    split_family_sibling(Rung::R76, core, built, arm)
}

} // verus!
