use lib::spool::{
    Census, SpoolEvent, SubsonicArm, illinois_calls, illinois_evals, illinois_exhausted,
    nu_floor_hits, r34_solve_turbine_calls, record, resid_sentinels, subsonic_escalations,
    subsonic_failure_arm, subsonic_fallbacks, subsonic_raises, take,
};

#[test]
fn each_event_lands_on_its_own_reader() {
    let mut c = Census::default();
    record(&mut c, SpoolEvent::R34SolveTurbine);
    record(&mut c, SpoolEvent::R34SolveTurbine);
    record(&mut c, SpoolEvent::NuFloorHit);
    record(&mut c, SpoolEvent::ResidSentinel);
    record(&mut c, SpoolEvent::IllinoisCall);
    record(&mut c, SpoolEvent::IllinoisEval);
    record(&mut c, SpoolEvent::IllinoisEval);
    record(&mut c, SpoolEvent::IllinoisEval);
    record(&mut c, SpoolEvent::IllinoisExhausted);
    assert_eq!(r34_solve_turbine_calls(&c), 2);
    assert_eq!(nu_floor_hits(&c), 1);
    assert_eq!(resid_sentinels(&c), 1);
    assert_eq!(illinois_calls(&c), 1);
    assert_eq!(illinois_evals(&c), 3);
    assert_eq!(illinois_exhausted(&c), 1);
    assert_eq!(subsonic_raises(&c), 0);
}

#[test]
fn subsonic_arms_partition_the_raises() {
    let mut c = Census::default();
    assert_eq!(subsonic_failure_arm(&mut c, true), SubsonicArm::Fallback);
    assert_eq!(subsonic_failure_arm(&mut c, true), SubsonicArm::Fallback);
    assert_eq!(subsonic_failure_arm(&mut c, false), SubsonicArm::Escalate);
    assert_eq!(subsonic_fallbacks(&c), 2);
    assert_eq!(subsonic_escalations(&c), 1);
    assert_eq!(subsonic_raises(&c), 3);
}

#[test]
fn a_nan_exit_mach_escalates() {
    let m9 = f64::NAN;
    let mut c = Census::default();
    assert_eq!(subsonic_failure_arm(&mut c, m9 > 0.985), SubsonicArm::Escalate);
    assert_eq!(subsonic_failure_arm(&mut c, 0.99 > 0.985), SubsonicArm::Fallback);
}

#[test]
fn take_reads_and_resets() {
    let mut c = Census::default();
    record(&mut c, SpoolEvent::IllinoisCall);
    record(&mut c, SpoolEvent::SubsonicFallback);
    let first = take(&mut c);
    assert_eq!(first.illinois_calls, 1);
    assert_eq!(first.subsonic_fallbacks, 1);
    assert_eq!(take(&mut c), Census::default());
}
