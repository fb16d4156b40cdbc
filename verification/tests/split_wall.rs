use lib::knobs::{CapLaw, Coordinate, GAUGE_K_IDENTITY_BITS, Knobs, RefLaw, ShareLaw, WindupLaw};
use lib::reference_split::{ArmingRefusal, SplitArming};
use lib::split_wall::{Rebuilds, Walls, r80_at_lever, r80_rebuilds, walls_of};

fn machine() -> Knobs {
    Knobs {
        ref_: None,
        ref_law: RefLaw::Applied,
        lag_coord: Coordinate::Demand,
        windup_law: WindupLaw::Off,
        tau_t: None,
        ic_cap: 60,
        cap_law: CapLaw::Solve,
        gauge_k: GAUGE_K_IDENTITY_BITS,
        phi_ref: Coordinate::Phi,
        sm_air: None,
        share_law: ShareLaw::Max,
        gov_max: None,
    }
}

fn b(x: f64) -> Option<u64> {
    Some(x.to_bits())
}

#[test]
fn valve_wall_decides_the_airflow_wall() {
    let w = walls_of(b(0.55), b(0.6), b(0.62), None);
    assert_eq!(w, Walls { phi_lim: b(0.55), phi_air: b(0.6), phi_valve: b(0.6), phi_stator: b(0.62) });
}

#[test]
fn stator_wall_is_phi_then_incidence() {
    let w = walls_of(None, None, None, b(0.64));
    assert_eq!(w.phi_air, b(0.64));
    assert_eq!(w.phi_stator, b(0.64));
    assert_eq!(w.phi_lim, None);
    let v = walls_of(None, None, b(0.61), b(0.64));
    assert_eq!(v.phi_stator, b(0.61));
    assert_eq!(walls_of(None, None, None, None).phi_air, None);
}

#[test]
fn unset_airflow_margin_rebuilds_nothing() {
    assert_eq!(r80_rebuilds(false, true, true, true),
               Rebuilds { valve: false, stator_phi: false, stator_inc: false });
    assert_eq!(r80_rebuilds(true, true, false, true),
               Rebuilds { valve: true, stator_phi: false, stator_inc: true });
}

#[test]
fn last_sibling_carries_the_airflow_margin() {
    let core = Knobs { sm_air: b(0.3), phi_ref: Coordinate::Incidence, ..machine() };
    let arm = SplitArming {
        stator_inc: false,
        stator_lim: false,
        lp_disabled: false,
        bleed_nonzero: false,
        bleed_in_range: true,
        bleed_sched: false,
        bleed_lim: false,
        vsv_lp_nonzero: false,
        sched_lp: false,
        floors_equal: true,
        wall_matched: true,
    };
    let m = r80_at_lever(&core, machine(), &arm).unwrap();
    assert_eq!(m.sm_air, b(0.3));
    assert_eq!(m.phi_ref, Coordinate::Incidence);
    let disabled = SplitArming { lp_disabled: true, ..arm };
    assert_eq!(r80_at_lever(&core, machine(), &disabled),
               Err(ArmingRefusal::DisabledLpNeedsOwnConstructor));
}
