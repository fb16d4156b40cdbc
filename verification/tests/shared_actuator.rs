use lib::knobs::{CapLaw, Coordinate, GAUGE_K_IDENTITY_BITS, Knobs, RefLaw, ShareLaw, WindupLaw};
use lib::labels::{Authority, Regime};
use lib::shared_actuator::{
    BillLeg, Currency, FuelLegArming, IcStep, ParentRung, PointTag, Refusal72, Route72,
    ShareScope, SharedRigFlags, all_but, authority_census, authority_of, bill_key, cell_of_bits,
    first_fuel_to_gov, handover_indices, ic_step_of, ic_step_updates, ic_sweep, is_ic_order,
    only, own_currency, parent_of, predicted_zeros, r72_route, r72_shared_rig, v_regime_of,
};
use lib::reference_split::RigStator;

fn machine() -> Knobs {
    Knobs {
        ref_: None,
        ref_law: RefLaw::Sched,
        lag_coord: Coordinate::Demand,
        windup_law: WindupLaw::Off,
        tau_t: None,
        ic_cap: 60,
        cap_law: CapLaw::Solve,
        gauge_k: GAUGE_K_IDENTITY_BITS,
        phi_ref: Coordinate::Phi,
        sm_air: None,
        share_law: ShareLaw::Max,
        gov_max: None,
    }
}

fn shared(a: Authority) -> PointTag {
    PointTag::Shared { authority: a, v_regime: Some(Regime::Riding) }
}

fn full_arming() -> FuelLegArming {
    FuelLegArming {
        lag_arg: true,
        lag_core: false,
        tau_gov_arg: false,
        tau_gov_core: true,
        accel: true,
        floor: false,
        tt4_max: true,
        s_off: false,
        tau_rel: false,
        valve_floor: true,
        valve_lagged: true,
    }
}

#[test]
fn share_scope_round_trip_restores_the_law() {
    let mut k = machine();
    let scope = ShareScope::set(&mut k, ShareLaw::Sum);
    assert_eq!(k.share_law, ShareLaw::Sum);
    assert_eq!(scope.displaced(), ShareLaw::Max);
    scope.close(&mut k);
    assert_eq!(k, machine());
}

#[test]
fn labels_are_read_only_off_the_marches_that_carry_them() {
    assert_eq!(authority_of(&shared(Authority::Gov)), Some(Authority::Gov));
    assert_eq!(authority_of(&PointTag::Triple { regime: Regime::Dormant }), None);
    assert_eq!(authority_of(&PointTag::Other), None);
    assert_eq!(v_regime_of(&PointTag::Triple { regime: Regime::Saturated }),
               Some(Regime::Saturated));
    assert_eq!(v_regime_of(&PointTag::Shared { authority: Authority::Tie, v_regime: None }), None);
    assert_eq!(v_regime_of(&PointTag::Other), None);
}

#[test]
fn census_partitions_a_labelled_march() {
    let pts = vec![
        shared(Authority::Dormant),
        shared(Authority::Fuel),
        shared(Authority::Fuel),
        shared(Authority::Tie),
        shared(Authority::Gov),
        shared(Authority::Gov),
        shared(Authority::Gov),
    ];
    let c = authority_census(&pts);
    assert_eq!((c.dormant, c.tie, c.fuel, c.gov), (1, 1, 2, 3));
    assert_eq!(c.dormant + c.tie + c.fuel + c.gov, pts.len());
}

#[test]
fn handovers_skip_dormant_neighbours() {
    let pts = vec![
        shared(Authority::Dormant),
        shared(Authority::Fuel),
        shared(Authority::Gov),
        shared(Authority::Gov),
        shared(Authority::Dormant),
        shared(Authority::Tie),
        shared(Authority::Fuel),
    ];
    assert_eq!(handover_indices(&pts), vec![2, 6]);
    assert_eq!(first_fuel_to_gov(&pts), Some(2));
}

#[test]
fn no_fuel_to_gov_step_reads_none() {
    let pts = vec![shared(Authority::Gov), shared(Authority::Fuel), shared(Authority::Fuel)];
    assert_eq!(first_fuel_to_gov(&pts), None);
    assert_eq!(handover_indices(&pts), vec![1]);
    assert_eq!(handover_indices(&Vec::new()), Vec::<usize>::new());
}

#[test]
fn each_live_cell_is_its_parent_rung() {
    assert_eq!(parent_of(false, Authority::Fuel), ParentRung::R68);
    assert_eq!(parent_of(false, Authority::Gov), ParentRung::R70);
    assert_eq!(parent_of(true, Authority::Fuel), ParentRung::R69);
    assert_eq!(parent_of(true, Authority::Gov), ParentRung::R71);
}

#[test]
fn predicted_zero_table() {
    assert_eq!(predicted_zeros(false, Authority::Fuel), 2);
    assert_eq!(predicted_zeros(false, Authority::Gov), 1);
    assert_eq!(predicted_zeros(true, Authority::Fuel), 1);
    assert_eq!(predicted_zeros(true, Authority::Gov), 0);
}

#[test]
fn the_sixteen_bill_keys_are_distinct() {
    let mut keys: Vec<String> = Vec::new();
    for bits in 0u32..16 {
        let key: String = bill_key(cell_of_bits(bits)).into_iter().collect();
        assert!(!keys.contains(&key));
        keys.push(key);
    }
    assert_eq!(keys[0], "bare");
    assert_eq!(keys[15], "FGVS");
    assert_eq!(keys[5], "FV");
    assert_eq!(keys[10], "GS");
}

#[test]
fn shared_march_runs_only_with_both_legs() {
    assert_eq!(r72_route(&full_arming()), Route72::Shared);
    let no_gov = FuelLegArming { tau_gov_core: false, ..full_arming() };
    assert_eq!(r72_route(&no_gov), Route72::Parent { lag: true, tau_gov: false });
    let no_leg = FuelLegArming { accel: false, floor: false, ..full_arming() };
    assert_eq!(r72_route(&no_leg), Route72::Parent { lag: true, tau_gov: true });
    let unlagged = FuelLegArming { lag_arg: false, ..full_arming() };
    assert_eq!(r72_route(&unlagged), Route72::Parent { lag: false, tau_gov: true });
}

#[test]
fn shared_march_refusals_in_order() {
    let a = FuelLegArming { tt4_max: false, s_off: true, ..full_arming() };
    assert_eq!(r72_route(&a), Route72::Refused(Refusal72::GovernorWithoutSetPoint));
    let b = FuelLegArming { tau_rel: true, valve_lagged: false, ..full_arming() };
    assert_eq!(r72_route(&b), Route72::Refused(Refusal72::ForcedReleaseEdges));
    let c = FuelLegArming { valve_lagged: false, ..full_arming() };
    assert_eq!(r72_route(&c), Route72::Refused(Refusal72::InstantaneousValve));
    let d = FuelLegArming { valve_floor: false, valve_lagged: false, ..full_arming() };
    assert_eq!(r72_route(&d), Route72::Shared);
}

#[test]
fn declared_initial_condition_order_is_admissible() {
    assert!(is_ic_order(&vec!['r', 'q', 'v', 'f']));
    assert!(is_ic_order(&vec!['f', 'r', 'q', 'v']));
    assert!(!is_ic_order(&vec!['r', 'q', 'v']));
    assert!(!is_ic_order(&vec!['r', 'q', 'v', 'v']));
    assert!(!is_ic_order(&vec!['r', 'q', 'v', 'x']));
}

#[test]
fn sweep_steps_and_which_ones_move() {
    assert_eq!(ic_step_of('f'), IcStep::FuelClip);
    assert_eq!(ic_step_of('r'), IcStep::GovClip);
    assert_eq!(ic_step_of('q'), IcStep::Valve);
    assert_eq!(ic_step_of('v'), IcStep::Stator);
    assert!(ic_step_updates(IcStep::GovClip, true, true, false));
    assert!(!ic_step_updates(IcStep::Valve, true, false, true));
    assert!(ic_step_updates(IcStep::Valve, false, true, false));
    assert!(!ic_step_updates(IcStep::Stator, false, false, false));
    assert!(!ic_step_updates(IcStep::Stator, false, true, true));
    assert!(ic_step_updates(IcStep::Stator, false, false, true));
}

#[test]
fn declared_sweep_plan() {
    let order = vec!['r', 'q', 'v', 'f'];
    assert_eq!(ic_sweep(&order, true, false, false), vec![
        (IcStep::GovClip, true),
        (IcStep::Valve, false),
        (IcStep::Stator, false),
        (IcStep::FuelClip, true),
    ]);
    assert_eq!(ic_sweep(&order, false, false, true), vec![
        (IcStep::GovClip, true),
        (IcStep::Valve, true),
        (IcStep::Stator, true),
        (IcStep::FuelClip, true),
    ]);
}

#[test]
fn own_currencies_and_credit_cells() {
    assert_eq!(own_currency(BillLeg::Fuel, true), Currency::Phi);
    assert_eq!(own_currency(BillLeg::Gov, false), Currency::Tt4);
    assert_eq!(own_currency(BillLeg::Valve, true), Currency::Phi);
    assert_eq!(own_currency(BillLeg::Stator, true), Currency::Incidence);
    assert_eq!(own_currency(BillLeg::Stator, false), Currency::Phi);
    let key = |on| -> String { bill_key(on).into_iter().collect() };
    assert_eq!(key(all_but(BillLeg::Fuel)), "GVS");
    assert_eq!(key(all_but(BillLeg::Gov)), "FVS");
    assert_eq!(key(all_but(BillLeg::Valve)), "FGS");
    assert_eq!(key(all_but(BillLeg::Stator)), "FGV");
    assert_eq!(key(only(BillLeg::Valve)), "V");
    assert_eq!(key(only(BillLeg::Stator)), "S");
}

#[test]
fn shared_rig_writes_the_governor_set_point_or_clears_it() {
    let mut m = Knobs { gov_max: Some(1.0f64.to_bits()), ..machine() };
    let arm = SharedRigFlags { inc: true, fuel: false, valve: true, stator: true, gov: false };
    let plan = r72_shared_rig(&mut m, &arm, 1650.0f64.to_bits());
    assert_eq!(m.gov_max, None);
    assert_eq!(plan.stator, RigStator::Inc);
    assert!(plan.valve && !plan.surge && !plan.lag);
    let armed = SharedRigFlags { inc: false, fuel: true, stator: true, gov: true, valve: false };
    let plan = r72_shared_rig(&mut m, &armed, 1650.0f64.to_bits());
    assert_eq!(m.gov_max, Some(1650.0f64.to_bits()));
    assert_eq!(plan.stator, RigStator::Phi);
    assert!(!plan.valve && plan.surge && plan.lag);
}
