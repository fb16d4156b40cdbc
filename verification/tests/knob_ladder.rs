use lib::knobs::{
    CapLaw, Coordinate, GAUGE_K_IDENTITY_BITS, Knobs, RefLaw, Rung, ShareLaw, WindupLaw,
    shared_rig_knob, sibling_knobs,
};

fn resting() -> Knobs {
    Knobs {
        ref_: None,
        ref_law: RefLaw::Sched,
        lag_coord: Coordinate::Demand,
        windup_law: WindupLaw::Off,
        tau_t: None,
        ic_cap: 60,
        cap_law: CapLaw::Solve,
        gauge_k: GAUGE_K_IDENTITY_BITS,
        phi_ref: Coordinate::Phi,
        sm_air: None,
        share_law: ShareLaw::Max,
        gov_max: None,
    }
}

fn tuned() -> Knobs {
    Knobs {
        ref_: None,
        ref_law: RefLaw::Sched,
        lag_coord: Coordinate::Incidence,
        windup_law: WindupLaw::Track,
        tau_t: Some(0.25f64.to_bits()),
        ic_cap: 200,
        cap_law: CapLaw::Sensed,
        gauge_k: 2.5f64.to_bits(),
        phi_ref: Coordinate::Incidence,
        sm_air: Some(0.3f64.to_bits()),
        share_law: ShareLaw::Sum,
        gov_max: Some(1700.0f64.to_bits()),
    }
}

#[test]
fn identity_gauge_bits_are_one() {
    assert_eq!(GAUGE_K_IDENTITY_BITS, 1.0f64.to_bits());
    assert_ne!(GAUGE_K_IDENTITY_BITS, (1.0f64 + f64::EPSILON).to_bits());
}

#[test]
fn early_siblings_hand_back_the_built_machine() {
    let core = tuned();
    let built = resting();
    assert_eq!(sibling_knobs(Rung::R69, &core, built), built);
    assert_eq!(sibling_knobs(Rung::R72, &core, built), built);
}

#[test]
fn sensed_cap_sibling_carries_six_knobs() {
    let core = tuned();
    let built = resting();
    let m = sibling_knobs(Rung::R76, &core, built);
    assert_eq!(m.lag_coord, Coordinate::Incidence);
    assert_eq!(m.windup_law, WindupLaw::Track);
    assert_eq!(m.tau_t, Some(0.25f64.to_bits()));
    assert_eq!(m.ic_cap, 200);
    assert_eq!(m.cap_law, CapLaw::Sensed);
    assert_eq!(m.ref_law, RefLaw::Sched);
    assert_eq!(m.gauge_k, GAUGE_K_IDENTITY_BITS);
    assert_eq!(m.phi_ref, Coordinate::Phi);
    assert_eq!(m.sm_air, None);
    assert_eq!(m.share_law, ShareLaw::Max);
}

#[test]
fn gauge_coordinate_and_wall_join_the_carry_in_ladder_order() {
    let core = tuned();
    let built = resting();
    let r78 = sibling_knobs(Rung::R78, &core, built);
    assert_eq!(r78.gauge_k, 2.5f64.to_bits());
    assert_eq!(r78.phi_ref, Coordinate::Phi);
    let r79 = sibling_knobs(Rung::R79, &core, built);
    assert_eq!(r79.phi_ref, Coordinate::Incidence);
    assert_eq!(r79.sm_air, None);
    let r80 = sibling_knobs(Rung::R80, &core, built);
    assert_eq!(r80.sm_air, Some(0.3f64.to_bits()));
    assert_eq!(r80.gauge_k, 2.5f64.to_bits());
}

#[test]
fn last_sibling_agrees_with_its_receiver_on_all_nine_knobs() {
    let core = tuned();
    let m = sibling_knobs(Rung::R80, &core, resting());
    assert_eq!(m.ref_law, core.ref_law);
    assert_eq!(m.lag_coord, core.lag_coord);
    assert_eq!(m.windup_law, core.windup_law);
    assert_eq!(m.tau_t, core.tau_t);
    assert_eq!(m.ic_cap, core.ic_cap);
    assert_eq!(m.cap_law, core.cap_law);
    assert_eq!(m.gauge_k, core.gauge_k);
    assert_eq!(m.phi_ref, core.phi_ref);
    assert_eq!(m.sm_air, core.sm_air);
}

#[test]
fn carried_reference_law_overrides_the_builders_write() {
    let core = resting();
    let built = Knobs { ref_law: RefLaw::Applied, ..tuned() };
    let m = sibling_knobs(Rung::R76, &core, built);
    assert_eq!(m.ref_law, RefLaw::Sched);
    let early = sibling_knobs(Rung::R72, &core, built);
    assert_eq!(early.ref_law, RefLaw::Applied);
}

#[test]
fn shared_rig_recopy_changes_nothing_on_a_sibling() {
    let core = tuned();
    for r in [Rung::R69, Rung::R72, Rung::R76, Rung::R78, Rung::R79, Rung::R80] {
        let m = sibling_knobs(r, &core, resting());
        assert_eq!(shared_rig_knob(r, &core, m), m);
    }
}

#[test]
fn shared_rig_copies_its_own_knob_onto_a_foreign_machine() {
    let core = tuned();
    assert_eq!(shared_rig_knob(Rung::R76, &core, resting()).cap_law, CapLaw::Sensed);
    assert_eq!(shared_rig_knob(Rung::R78, &core, resting()).gauge_k, 2.5f64.to_bits());
    assert_eq!(shared_rig_knob(Rung::R79, &core, resting()).phi_ref, Coordinate::Incidence);
    assert_eq!(shared_rig_knob(Rung::R80, &core, resting()).sm_air, Some(0.3f64.to_bits()));
    assert_eq!(shared_rig_knob(Rung::R72, &core, resting()), resting());
}
