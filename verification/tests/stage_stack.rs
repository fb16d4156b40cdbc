use lib::stage::{
    CapacityCache, StackAbort, StackCensus, StackShape, StackTally, bump, march_floors,
    solve_n_dispatch, solve_n_verdict, take_census,
};

#[test]
fn unset_setting_count_means_every_stage() {
    let mut c = StackCensus::zero();
    let s = StackShape::new(&mut c, 8, None);
    assert_eq!(s.vsv_stages, 8);
    assert!((0..8).all(|k| s.carries_setting(k)));
    let front = StackShape::new(&mut c, 8, Some(1));
    assert!(front.carries_setting(0));
    assert!(!front.carries_setting(1));
    let none = StackShape::new(&mut c, 3, Some(0));
    assert!(!none.carries_setting(0));
    assert_eq!(c.stacks_built, 3);
}

#[test]
fn clamp_count_is_the_sum_of_both_floors() {
    let mut c = StackCensus::zero();
    let floors = vec![(false, false), (true, false), (true, true), (false, false), (false, true)];
    assert_eq!(march_floors(&mut c, &floors), 4);
    assert_eq!(c.marches, 1);
    assert_eq!(c.t_floor_fires, 2);
    assert_eq!(c.p_floor_fires, 2);
    assert_eq!(march_floors(&mut c, &Vec::new()), 0);
    assert_eq!(c.marches, 2);
}

#[test]
fn capacities_are_built_once() {
    let mut c = StackCensus::zero();
    let mut cache = CapacityCache::new();
    assert!(cache.read(&mut c));
    assert!(!cache.read(&mut c));
    assert!(!cache.read(&mut c));
    assert_eq!((c.capacities_built, c.capacities_hits), (1, 2));
}

#[test]
fn one_stage_stack_dispatches_to_the_lumped_solve() {
    let mut c = StackCensus::zero();
    let one = StackShape::new(&mut c, 1, None);
    let many = StackShape::new(&mut c, 4, Some(2));
    assert!(solve_n_dispatch(&mut c, &one));
    assert!(!solve_n_dispatch(&mut c, &many));
    assert_eq!(c.solve_n_calls, 2);
}

#[test]
fn inversion_verdicts_in_order() {
    assert_eq!(solve_n_verdict(false, 3), Some(StackAbort::BracketFails));
    assert_eq!(solve_n_verdict(true, 1), Some(StackAbort::ClampedRoot));
    assert_eq!(solve_n_verdict(true, 0), None);
}

#[test]
fn take_census_reads_and_resets() {
    let mut c = StackCensus::zero();
    bump(&mut c, StackTally::EtaPasses);
    bump(&mut c, StackTally::EtaPasses);
    bump(&mut c, StackTally::SolveNPasses);
    let t = take_census(&mut c);
    assert_eq!(t.eta_passes, 2);
    assert_eq!(t.solve_n_passes, 1);
    assert_eq!(c, StackCensus::zero());
    assert_eq!(take_census(&mut c), StackCensus::zero());
    assert_eq!(StackCensus::default(), StackCensus::zero());
}
