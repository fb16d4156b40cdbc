use lib::knobs::{CapLaw, Coordinate, GAUGE_K_IDENTITY_BITS, Knobs, RefLaw, ShareLaw, WindupLaw};
use lib::reference_split::{ArmingRefusal, SplitArming};
use lib::sensed_cap::{CapScope, Refusal76, r76_at_lever, r76_march_refusal, sensed_cap_fuel};

fn machine() -> Knobs {
    Knobs {
        ref_: None,
        ref_law: RefLaw::Applied,
        lag_coord: Coordinate::Demand,
        windup_law: WindupLaw::Off,
        tau_t: None,
        ic_cap: 60,
        cap_law: CapLaw::Solve,
        gauge_k: GAUGE_K_IDENTITY_BITS,
        phi_ref: Coordinate::Phi,
        sm_air: None,
        share_law: ShareLaw::Max,
        gov_max: None,
    }
}

#[test]
fn nested_cap_scope_hands_back_the_outer_law() {
    let mut k = machine();
    let outer = CapScope::set(&mut k, CapLaw::Sensed);
    let inner = CapScope::set(&mut k, CapLaw::Solve);
    assert_eq!(inner.displaced(), CapLaw::Sensed);
    inner.close(&mut k);
    assert_eq!(k.cap_law, CapLaw::Sensed);
    assert_eq!(outer.displaced(), CapLaw::Solve);
    outer.close(&mut k);
    assert_eq!(k, machine());
}

#[test]
fn solve_law_reads_no_sensed_cap() {
    assert_eq!(sensed_cap_fuel(&machine(), None), None);
    assert_eq!(sensed_cap_fuel(&machine(), Some(0.4f64.to_bits())), None);
}

#[test]
fn sensed_law_reads_at_the_applied_fuel_floored() {
    let k = Knobs { cap_law: CapLaw::Sensed, ..machine() };
    assert_eq!(sensed_cap_fuel(&k, Some(0.4f64.to_bits())), Some(0.4f64.to_bits()));
    assert_eq!(sensed_cap_fuel(&k, Some(0.0f64.to_bits())), Some(1e-9f64.to_bits()));
    for x in [0.4, 1e-9, 2e-9, 5e-10, 0.0, -0.0, -3.0, f64::INFINITY, f64::NEG_INFINITY, f64::NAN] {
        assert_eq!(sensed_cap_fuel(&k, Some(x.to_bits())), Some(1e-9f64.max(x).to_bits()));
    }
}

#[test]
fn sensed_refusals_are_nested_inside_the_sensed_law() {
    let clip = Knobs { lag_coord: Coordinate::Clip, ..machine() };
    assert_eq!(r76_march_refusal(&clip, false), None);
    let sensed_clip = Knobs { cap_law: CapLaw::Sensed, ..clip };
    assert_eq!(r76_march_refusal(&sensed_clip, true), Some(Refusal76::SensedInClip));
    let sensed = Knobs { cap_law: CapLaw::Sensed, ..machine() };
    assert_eq!(r76_march_refusal(&sensed, false), Some(Refusal76::SensedWithoutSchedule));
    assert_eq!(r76_march_refusal(&sensed, true), None);
}

#[test]
fn sensed_cap_sibling_carries_the_cap_law() {
    let core = Knobs { cap_law: CapLaw::Sensed, ic_cap: 12, gauge_k: 2.0f64.to_bits(), ..machine() };
    let arm = SplitArming {
        stator_inc: true,
        stator_lim: false,
        lp_disabled: false,
        bleed_nonzero: false,
        bleed_in_range: true,
        bleed_sched: false,
        bleed_lim: true,
        vsv_lp_nonzero: false,
        sched_lp: false,
        floors_equal: false,
        wall_matched: true,
    };
    let m = r76_at_lever(&core, machine(), &arm).unwrap();
    assert_eq!(m.cap_law, CapLaw::Sensed);
    assert_eq!(m.ic_cap, 12);
    assert_eq!(m.gauge_k, GAUGE_K_IDENTITY_BITS);
    let unmatched = SplitArming { wall_matched: false, ..arm };
    assert_eq!(r76_at_lever(&core, machine(), &unmatched), Err(ArmingRefusal::WallUnmatched));
}
