use lib::knobs::{CapLaw, Coordinate, GAUGE_K_IDENTITY_BITS, Knobs, RefLaw, ShareLaw, WindupLaw};
use lib::reference_split::SplitArming;
use lib::state_coordinate::{
    Cap79, CoordCounters, CoordState, PhiSolve, Route79, coord_counters, coord_probe_armed, r79_at_lever,
    r79_cap_fuel, r79_route, r79_with_coord, record_phi_cap,
    reset_coord_counters, solves_in_phi, used_fallback,
};

fn machine() -> Knobs {
    Knobs {
        ref_: None,
        ref_law: RefLaw::Applied,
        lag_coord: Coordinate::Demand,
        windup_law: WindupLaw::Off,
        tau_t: None,
        ic_cap: 60,
        cap_law: CapLaw::Solve,
        gauge_k: GAUGE_K_IDENTITY_BITS,
        phi_ref: Coordinate::Phi,
        sm_air: None,
        share_law: ShareLaw::Max,
        gov_max: None,
    }
}

fn zero() -> CoordCounters {
    CoordCounters { hits: 0, binds: 0, fb_phi: 0, fb_inc: 0, calls_phi: 0, calls_inc: 0 }
}

#[test]
fn counters_reset_as_a_set_and_leave_the_probe() {
    let mut s = CoordState {
        counters: CoordCounters { hits: 3, binds: 1, fb_phi: 2, fb_inc: 4, calls_phi: 5, calls_inc: 6 },
        probe: true,
    };
    let before = coord_counters(&s);
    assert_eq!(reset_coord_counters(&mut s), before);
    assert_eq!(coord_counters(&s), zero());
    assert!(coord_probe_armed(&s));
    assert_eq!(CoordCounters::default(), zero());
}

#[test]
fn coordinate_setter_round_trip() {
    let mut k = machine();
    let prev = r79_with_coord(&mut k, Coordinate::Incidence);
    assert_eq!(prev, Coordinate::Phi);
    assert_eq!(k.phi_ref, Coordinate::Incidence);
    assert_eq!(r79_with_coord(&mut k, prev), Coordinate::Incidence);
    assert_eq!(k, machine());
}

#[test]
fn override_beats_the_machines_coordinate() {
    assert!(solves_in_phi(None, Coordinate::Phi));
    assert!(!solves_in_phi(None, Coordinate::Incidence));
    assert!(!solves_in_phi(None, Coordinate::Demand));
    assert!(solves_in_phi(Some(Coordinate::Phi), Coordinate::Incidence));
    assert!(!solves_in_phi(Some(Coordinate::Incidence), Coordinate::Phi));
}

#[test]
fn aborted_solve_counts_its_fallback_but_not_a_call() {
    let mut c = zero();
    record_phi_cap(&mut c, false, true, false);
    assert_eq!((c.fb_inc, c.calls_inc, c.fb_phi, c.calls_phi), (1, 0, 0, 0));
    record_phi_cap(&mut c, true, false, true);
    assert_eq!((c.fb_inc, c.calls_inc, c.fb_phi, c.calls_phi), (1, 0, 0, 1));
}

#[test]
fn used_fallback_is_the_incidence_difference_only() {
    let before = zero();
    let mut after = before;
    record_phi_cap(&mut after, true, true, true);
    assert!(!used_fallback(&before, &after));
    record_phi_cap(&mut after, false, true, true);
    assert!(used_fallback(&before, &after));
}

#[test]
fn routes_of_the_coordinated_cap() {
    assert_eq!(r79_route(&machine()), Route79::Parent);
    let gauged_phi = Knobs { gauge_k: 2.0f64.to_bits(), ..machine() };
    assert_eq!(r79_route(&gauged_phi), Route79::Parent);
    let inc = Knobs { phi_ref: Coordinate::Incidence, ..machine() };
    assert_eq!(r79_route(&inc), Route79::Incidence);
    let demand = Knobs { phi_ref: Coordinate::Demand, ..machine() };
    assert_eq!(r79_route(&demand), Route79::Incidence);
    let refused = Knobs { gauge_k: 2.0f64.to_bits(), ..inc };
    assert_eq!(r79_route(&refused), Route79::RefusedGauge);
    let nan_gauge = Knobs { gauge_k: f64::NAN.to_bits(), ..inc };
    assert_eq!(r79_route(&nan_gauge), Route79::RefusedGauge);
}

fn state(probe: bool) -> CoordState {
    CoordState { counters: zero(), probe }
}

fn solved(x: f64) -> Option<PhiSolve> {
    Some(PhiSolve { fell_back: false, cap: Some(x.to_bits()) })
}

#[test]
fn ties_bind_and_return_the_accel_cap() {
    let inc = Knobs { phi_ref: Coordinate::Incidence, ..machine() };
    let a = 0.6f64.to_bits();
    let mut s = state(false);
    assert_eq!(r79_cap_fuel(&mut s, &inc, a, solved(0.6), None), Cap79::Cap { cap: a, used_fb: false });
    assert_eq!((s.counters.hits, s.counters.binds), (1, 1));
    assert_eq!(r79_cap_fuel(&mut s, &inc, a, solved(0.5), None),
               Cap79::Cap { cap: 0.5f64.to_bits(), used_fb: false });
    assert_eq!((s.counters.hits, s.counters.binds), (2, 2));
    assert_eq!(r79_cap_fuel(&mut s, &inc, a, solved(0.7), None), Cap79::Cap { cap: a, used_fb: false });
    assert_eq!((s.counters.hits, s.counters.binds), (3, 2));
    assert_eq!(s.counters.calls_inc, 3);
    assert_eq!(r79_cap_fuel(&mut s, &inc, a, solved(f64::NAN), None), Cap79::Cap { cap: a, used_fb: false });
    assert_eq!((s.counters.hits, s.counters.binds), (4, 2));
}

#[test]
fn other_routes_count_nothing() {
    let a = 0.6f64.to_bits();
    let mut s = state(true);
    assert_eq!(r79_cap_fuel(&mut s, &machine(), a, solved(0.5), None), Cap79::Parent);
    let refused = Knobs { phi_ref: Coordinate::Incidence, gauge_k: 2.0f64.to_bits(), ..machine() };
    assert_eq!(r79_cap_fuel(&mut s, &refused, a, solved(0.5), None), Cap79::RefusedGauge);
    let inc = Knobs { phi_ref: Coordinate::Demand, ..machine() };
    assert_eq!(r79_cap_fuel(&mut s, &inc, a, None, None), Cap79::Cap { cap: a, used_fb: false });
    assert_eq!(s.counters, zero());
}

#[test]
fn fallback_and_abort_are_counted_per_coordinate() {
    let inc = Knobs { phi_ref: Coordinate::Incidence, ..machine() };
    let a = 0.6f64.to_bits();
    let mut s = state(false);
    let fb = Some(PhiSolve { fell_back: true, cap: Some(0.4f64.to_bits()) });
    assert_eq!(r79_cap_fuel(&mut s, &inc, a, fb, None), Cap79::Cap { cap: 0.4f64.to_bits(), used_fb: true });
    let aborted = Some(PhiSolve { fell_back: true, cap: None });
    assert_eq!(r79_cap_fuel(&mut s, &inc, a, aborted, None), Cap79::Aborted);
    assert_eq!(s.counters, CoordCounters { hits: 2, binds: 1, fb_inc: 2, calls_inc: 1, ..zero() });
}

#[test]
fn the_probe_counts_on_the_phi_side_and_leaves_the_answer() {
    let inc = Knobs { phi_ref: Coordinate::Incidence, ..machine() };
    let a = 0.6f64.to_bits();
    let mut s = state(true);
    let probe = Some(PhiSolve { fell_back: true, cap: Some(0.1f64.to_bits()) });
    assert_eq!(r79_cap_fuel(&mut s, &inc, a, solved(0.5), probe),
               Cap79::Cap { cap: 0.5f64.to_bits(), used_fb: false });
    assert_eq!(s.counters,
               CoordCounters { hits: 1, binds: 1, calls_inc: 1, fb_phi: 1, calls_phi: 1, ..zero() });
    let failed = Some(PhiSolve { fell_back: false, cap: None });
    assert_eq!(r79_cap_fuel(&mut s, &inc, a, solved(0.5), failed), Cap79::Aborted);
    assert_eq!((s.counters.hits, s.counters.binds, s.counters.calls_phi), (2, 1, 1));
    assert!(s.probe);
}

#[test]
fn coordinate_rung_sibling_carries_the_coordinate() {
    let core = Knobs { phi_ref: Coordinate::Incidence, sm_air: Some(0.2f64.to_bits()), ..machine() };
    let arm = SplitArming {
        stator_inc: false,
        stator_lim: false,
        lp_disabled: false,
        bleed_nonzero: true,
        bleed_in_range: true,
        bleed_sched: false,
        bleed_lim: false,
        vsv_lp_nonzero: true,
        sched_lp: false,
        floors_equal: true,
        wall_matched: true,
    };
    let m = r79_at_lever(&core, machine(), &arm).unwrap();
    assert_eq!(m.phi_ref, Coordinate::Incidence);
    assert_eq!(m.sm_air, None);
}
