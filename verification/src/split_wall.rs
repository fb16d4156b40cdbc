//! The split wall: the floors as they stand on a built machine, which limiters the split rebuilds
//! at the airflow legs' own wall, and the last sibling constructor of the ladder.
use vstd::prelude::*;
use crate::knobs::{Knobs, Rung, sibling};
use crate::reference_split::{
    ArmingRefusal, SplitArming, arming_admitted, is_first_refusal, split_family_sibling,
};

verus! {

/// The floors a built machine stands on, as float bit patterns; `None` where no such floor is
/// armed.
#[derive(Clone, Copy, Debug, PartialEq, Eq)]
pub struct Walls {
    /// The fuel leg's floor.
    pub phi_lim: Option<u64>,
    /// The airflow legs' floor: the valve's when it is floored, else the stator's.
    pub phi_air: Option<u64>,
    /// The valve's own floor.
    pub phi_valve: Option<u64>,
    /// The stator's own floor, in either reference.
    pub phi_stator: Option<u64>,
}

/// `a`, else `b`.
pub open spec fn or_else(a: Option<u64>, b: Option<u64>) -> Option<u64> {
    match a {
        Some(x) => Some(x),
        None => b,
    }
}

/// The walls of a machine as a spec value.
pub open spec fn spec_walls(
    surge: Option<u64>,
    valve: Option<u64>,
    stator_phi: Option<u64>,
    stator_inc: Option<u64>,
) -> Walls {
    let stator = or_else(stator_phi, stator_inc);
    Walls { phi_lim: surge, phi_air: or_else(valve, stator), phi_valve: valve, phi_stator: stator }
}

fn first_of(a: Option<u64>, b: Option<u64>) -> (r: Option<u64>)
    ensures
        r == or_else(a, b),
{
    match a {
        Some(x) => Some(x),
        None => b,
    }
}

/// The floors as they stand on the built machine: the fuel leg's off its surge floor; the
/// airflow legs' in the order valve, then the `phi` stator, then the incidence stator (whose wall
/// the caller reads back through its own limiter).
pub fn walls_of(
    surge: Option<u64>,
    valve: Option<u64>,
    stator_phi: Option<u64>,
    stator_inc: Option<u64>,
) -> (w: Walls)
    ensures
        w == spec_walls(surge, valve, stator_phi, stator_inc),
        w.phi_lim == surge,
        w.phi_valve == valve,
        w.phi_stator == (if stator_phi is Some {
            stator_phi
        } else {
            stator_inc
        }),
        w.phi_air == (if valve is Some {
            valve
        } else {
            w.phi_stator
        }),
{
    let stator = first_of(stator_phi, stator_inc);
    Walls { phi_lim: surge, phi_air: first_of(valve, stator), phi_valve: valve, phi_stator: stator }
}

/// A floored valve decides the airflow wall whatever the stator holds; with no floored valve the
/// airflow wall IS the stator's.
pub proof fn valve_decides_the_airflow_wall(
    surge: Option<u64>,
    valve: Option<u64>,
    stator_phi: Option<u64>,
    stator_inc: Option<u64>,
)
    ensures
        valve is Some ==> spec_walls(surge, valve, stator_phi, stator_inc).phi_air == valve,
        valve is None ==> spec_walls(surge, valve, stator_phi, stator_inc).phi_air == spec_walls(
            surge,
            valve,
            stator_phi,
            stator_inc,
        ).phi_stator,
{
}

/// Each wall read off a machine is the floor it names and nothing else: the fuel leg's is the
/// surge floor, the valve's is the valve's own floor (`None` with no floored valve, whatever the
/// stator holds), the stator's is the `phi` stator's floor else the incidence stator's, and the
/// airflow wall is never a floor the machine does not carry.
pub proof fn each_wall_is_its_own_floor(
    surge: Option<u64>,
    valve: Option<u64>,
    stator_phi: Option<u64>,
    stator_inc: Option<u64>,
)
    ensures
        spec_walls(surge, valve, stator_phi, stator_inc).phi_lim == surge,
        spec_walls(surge, valve, stator_phi, stator_inc).phi_valve == valve,
        spec_walls(surge, valve, stator_phi, stator_inc).phi_stator == (if stator_phi is Some {
            stator_phi
        } else {
            stator_inc
        }),
        spec_walls(surge, valve, stator_phi, stator_inc).phi_air is Some <==> (valve is Some
            || stator_phi is Some || stator_inc is Some),
        spec_walls(surge, valve, stator_phi, stator_inc).phi_air == valve || spec_walls(
            surge,
            valve,
            stator_phi,
            stator_inc,
        ).phi_air == stator_phi || spec_walls(surge, valve, stator_phi, stator_inc).phi_air
            == stator_inc,
{
}

/// Which limiters the split rig rebuilds at the airflow wall.
#[derive(Clone, Copy, Debug, PartialEq, Eq)]
pub struct Rebuilds {
    /// The floored valve.
    pub valve: bool,
    /// The `phi`-floored stator.
    pub stator_phi: bool,
    /// The incidence-floored stator.
    pub stator_inc: bool,
}

/// The split applied on the machine the parent rig returned: nothing when the airflow margin is
/// unset (exact dispatch to the parent), else every floored limiter the machine carries is
/// rebuilt at the airflow wall, keeping its hardware.
pub fn r80_rebuilds(sm_air_set: bool, valve: bool, stator_phi: bool, stator_inc: bool) -> (r:
    Rebuilds)
    ensures
        r == (Rebuilds {
            valve: sm_air_set && valve,
            stator_phi: sm_air_set && stator_phi,
            stator_inc: sm_air_set && stator_inc,
        }),
{
    Rebuilds {
        valve: sm_air_set && valve,
        stator_phi: sm_air_set && stator_phi,
        stator_inc: sm_air_set && stator_inc,
    }
}

/// The split rung's sibling constructor — the last of the ladder — carrying all nine knobs.
pub fn r80_at_lever(core: &Knobs, built: Knobs, arm: &SplitArming) -> (m: Result<
    Knobs,
    ArmingRefusal,
>)
    ensures
        m matches Ok(k) ==> arming_admitted(*arm) && k == sibling(Rung::R80, *core, built),
        m matches Err(g) ==> is_first_refusal(*arm, g) && !arming_admitted(*arm),
        arming_admitted(*arm) ==> m is Ok,
{
    split_family_sibling(Rung::R80, core, built, arm)
}

} // verus!
