use lib::fuel_cap::{CAP_NONE_BITS, eq_bits, le_bits, lt_bits, select_min};
use lib::knobs::{CapLaw, Coordinate, GAUGE_K_IDENTITY_BITS, Knobs, RefLaw, ShareLaw, WindupLaw};
use lib::reference_split::{ArmingRefusal, SplitArming};
use lib::residual_gauge::{
    Cap78, Freeze, GaugeClobbered, GaugeCounters, GaugeRestored, LegCap, PhiAtFreeze, Route78,
    gauge_counters, r78_at_lever, r78_cap_fuel, r78_min_select, r78_route, reset_gauge_counters,
};

fn machine() -> Knobs {
    Knobs {
        ref_: None,
        ref_law: RefLaw::Applied,
        lag_coord: Coordinate::Demand,
        windup_law: WindupLaw::Off,
        tau_t: None,
        ic_cap: 60,
        cap_law: CapLaw::Solve,
        gauge_k: GAUGE_K_IDENTITY_BITS,
        phi_ref: Coordinate::Phi,
        sm_air: None,
        share_law: ShareLaw::Max,
        gov_max: None,
    }
}

fn bits(x: f64) -> u64 {
    x.to_bits()
}

#[test]
fn counters_read_and_reset_as_a_pair() {
    let mut c = GaugeCounters { hits: 7, binds: 3 };
    assert_eq!(gauge_counters(&c), (7, 3));
    assert_eq!(reset_gauge_counters(&mut c), (7, 3));
    assert_eq!(gauge_counters(&c), (0, 0));
}

#[test]
fn restoring_scope_nests() {
    let mut k = Knobs { gauge_k: bits(2.5), ..machine() };
    let outer = GaugeRestored::set(&mut k, bits(0.5));
    let inner = GaugeRestored::set(&mut k, bits(3.0));
    assert_eq!(inner.displaced(), bits(0.5));
    inner.close(&mut k);
    assert_eq!(k.gauge_k, bits(0.5));
    assert_eq!(outer.displaced(), bits(2.5));
    outer.close(&mut k);
    assert_eq!(k.gauge_k, bits(2.5));
}

#[test]
fn clobbering_scope_writes_the_identity_not_the_outer_gauge() {
    let mut k = Knobs { gauge_k: bits(2.5), ..machine() };
    let scope = GaugeClobbered::set(&mut k, bits(0.5));
    assert_eq!(k.gauge_k, bits(0.5));
    scope.close(&mut k);
    assert_eq!(k.gauge_k, 1.0f64.to_bits());
    assert_ne!(k.gauge_k, bits(2.5));
}

#[test]
fn clobber_entered_at_the_identity_looks_like_a_restore() {
    let mut k = machine();
    let scope = GaugeClobbered::set(&mut k, bits(4.0));
    scope.close(&mut k);
    assert_eq!(k, machine());
}

#[test]
fn identity_gauge_is_the_parent_and_counts_nothing() {
    let mut c = GaugeCounters { hits: 0, binds: 0 };
    assert_eq!(r78_route(&machine(), true), Route78::Parent);
    let r = r78_cap_fuel(&mut c, &machine(), LegCap::Cap(bits(0.5)), LegCap::Unarmed);
    assert_eq!(r, Cap78::Parent);
    assert_eq!(gauge_counters(&c), (0, 0));
}

#[test]
fn a_gauge_one_ulp_off_the_identity_takes_the_gauged_branch() {
    let mut c = GaugeCounters { hits: 0, binds: 0 };
    let k = Knobs { gauge_k: bits(1.0) + 1, ..machine() };
    assert_eq!(r78_route(&k, true), Route78::Gauged);
    let r = r78_cap_fuel(&mut c, &k, LegCap::Cap(bits(0.5)), LegCap::Unarmed);
    assert_eq!(r, Cap78::Cap(bits(0.5)));
    assert_eq!(gauge_counters(&c), (1, 1));
}

#[test]
fn sensed_law_under_a_gauge_is_refused_after_the_hit_is_counted() {
    let mut c = GaugeCounters { hits: 4, binds: 0 };
    let k = Knobs { gauge_k: bits(2.0), cap_law: CapLaw::Sensed, ..machine() };
    assert_eq!(r78_route(&k, true), Route78::RefusedSensed);
    assert_eq!(r78_cap_fuel(&mut c, &k, LegCap::Failed, LegCap::Unarmed), Cap78::RefusedSensed);
    assert_eq!(c.hits, 5);
    assert_eq!(r78_route(&k, false), Route78::Gauged);
    assert_eq!(r78_cap_fuel(&mut c, &k, LegCap::Unarmed, LegCap::Cap(bits(0.7))),
               Cap78::Cap(bits(0.7)));
    assert_eq!(gauge_counters(&c), (5, 0));
}

#[test]
fn a_failed_gauged_solve_counts_its_hit_and_no_bind() {
    let mut c = GaugeCounters { hits: 0, binds: 0 };
    let k = Knobs { gauge_k: bits(0.5), ..machine() };
    assert_eq!(r78_cap_fuel(&mut c, &k, LegCap::Failed, LegCap::Cap(bits(0.7))), Cap78::Aborted);
    assert_eq!(r78_cap_fuel(&mut c, &k, LegCap::Cap(bits(0.6)), LegCap::Failed), Cap78::Aborted);
    assert_eq!(gauge_counters(&c), (2, 0));
}

#[test]
fn hit_counter_wraps_like_an_atomic() {
    let mut c = GaugeCounters { hits: u64::MAX, binds: 0 };
    let k = Knobs { gauge_k: bits(0.0), ..machine() };
    let r = r78_cap_fuel(&mut c, &k, LegCap::Cap(bits(0.9)), LegCap::Cap(bits(0.3)));
    assert_eq!(r, Cap78::Cap(bits(0.3)));
    assert_eq!(c.hits, 0);
}

#[test]
fn gauged_min_select_keeps_the_first_of_equals() {
    let mut c = GaugeCounters { hits: 0, binds: 0 };
    let k = Knobs { gauge_k: bits(2.0), ..machine() };
    let run = |c: &mut GaugeCounters, a: f64, s: f64| {
        r78_cap_fuel(c, &k, LegCap::Cap(bits(a)), LegCap::Cap(bits(s)))
    };
    assert_eq!(run(&mut c, 0.8, 0.9), Cap78::Cap(bits(0.8)));
    assert_eq!(c.binds, 1);
    assert_eq!(run(&mut c, 0.8, 0.8), Cap78::Cap(bits(0.8)));
    assert_eq!(c.binds, 2);
    assert_eq!(run(&mut c, 0.8, 0.7), Cap78::Cap(bits(0.7)));
    assert_eq!(c.binds, 2);
    assert_eq!(run(&mut c, 0.0, -0.0), Cap78::Cap(bits(0.0)));
    assert_eq!(c.binds, 3);
    assert_eq!(gauge_counters(&c).0, 4);
}

#[test]
fn nan_accel_cap_is_kept_and_never_binds() {
    let mut c = GaugeCounters { hits: 0, binds: 0 };
    let k = Knobs { gauge_k: bits(2.0), ..machine() };
    let r = r78_cap_fuel(&mut c, &k, LegCap::Cap(bits(f64::NAN)), LegCap::Cap(bits(0.7)));
    assert_eq!(r, Cap78::Cap(bits(f64::NAN)));
    let s = r78_cap_fuel(&mut c, &k, LegCap::Cap(bits(0.7)), LegCap::Cap(bits(f64::NAN)));
    assert_eq!(s, Cap78::Cap(bits(0.7)));
    let n = r78_cap_fuel(&mut c, &k, LegCap::Cap(bits(-1.0)), LegCap::Cap(bits(0.7)));
    assert_eq!(n, Cap78::Cap(bits(-1.0)));
    assert_eq!(gauge_counters(&c), (3, 2));
}

#[test]
fn gauged_min_select_without_an_accel_leg_never_binds() {
    let mut c = GaugeCounters { hits: 0, binds: 0 };
    let k = Knobs { gauge_k: bits(2.0), ..machine() };
    assert_eq!(r78_cap_fuel(&mut c, &k, LegCap::Unarmed, LegCap::Unarmed), Cap78::Cap(CAP_NONE_BITS));
    assert_eq!(f64::from_bits(CAP_NONE_BITS), f64::INFINITY);
    assert_eq!(r78_min_select(None, Some(bits(0.7))), bits(0.7));
    assert_eq!(r78_min_select(Some(bits(0.3)), None), bits(0.3));
    assert_eq!(gauge_counters(&c), (0, 0));
}

#[test]
fn bit_comparisons_are_the_float_comparisons() {
    let xs = [f64::NEG_INFINITY, -1e300, -2.0, -1e-300, -0.0, 0.0, 1e-300, 0.1, 0.5, 1.0, 2.0,
              1e300, f64::INFINITY, f64::NAN, -f64::NAN];
    for a in xs {
        for b in xs {
            assert_eq!(lt_bits(bits(a), bits(b)), a < b);
            assert_eq!(le_bits(bits(a), bits(b)), a <= b);
            assert_eq!(eq_bits(bits(a), bits(b)), a == b);
            let plant_min = if b < a { b } else { a };
            assert_eq!(select_min(bits(a), bits(b)), bits(plant_min));
        }
    }
}

#[test]
fn gauge_rung_sibling_carries_the_gauge() {
    let core = Knobs { gauge_k: bits(2.5), phi_ref: Coordinate::Incidence, ..machine() };
    let arm = SplitArming {
        stator_inc: false,
        stator_lim: true,
        lp_disabled: false,
        bleed_nonzero: false,
        bleed_in_range: true,
        bleed_sched: false,
        bleed_lim: true,
        vsv_lp_nonzero: false,
        sched_lp: false,
        floors_equal: true,
        wall_matched: false,
    };
    let m = r78_at_lever(&core, machine(), &arm).unwrap();
    assert_eq!(m.gauge_k, bits(2.5));
    assert_eq!(m.phi_ref, Coordinate::Phi);
    let bad = SplitArming { floors_equal: false, ..arm };
    assert_eq!(r78_at_lever(&core, machine(), &bad), Err(ArmingRefusal::FloorsUnequal));
}

#[test]
fn phi_reading_inside_a_freeze_returns_to_the_enclosing_freeze() {
    let outer = Freeze { b_state: Some(bits(0.04)), v_state: Some(bits(0.1)) };
    let mut st = outer;
    let plus = PhiAtFreeze::set(&mut st, Some(bits(0.0401)), Some(bits(0.1)));
    assert_eq!(st.b_state, Some(bits(0.0401)));
    plus.close(&mut st);
    assert_eq!(st, outer);
    let closed = PhiAtFreeze::set(&mut st, None, None);
    assert_eq!(st, Freeze { b_state: None, v_state: None });
    closed.close(&mut st);
    assert_eq!(st, outer);
}
