//! The reference split: the stator's reference carrier and its scope guard, the reduce arms of
//! the re-aimed cells and the instrument that counts which arm ran, the rig's reference choice,
//! and the arming guard sequence every cascade of the split family runs.
use vstd::prelude::*;
use crate::knobs::{Knobs, Reference, Rung, sibling, sibling_knobs};
use crate::labels::Regime;

verus! {

/// `knobs` with the reference carrier set to `r` and nothing else moved.
pub open spec fn with_ref(knobs: Knobs, r: Option<Reference>) -> Knobs {
    Knobs { ref_: r, ..knobs }
}

/// The reference setter cell: write the carrier and hand back what it displaced.
pub fn r69_with_ref(t: &mut Knobs, r: Option<Reference>) -> (prev: Option<Reference>)
    ensures
        prev == old(t).ref_,
        *final(t) == with_ref(*old(t), r),
{
    let prev = t.ref_;
    t.ref_ = r;
    prev
}

/// A reference scope: the carrier set through the setter cell for as long as the scope is open,
/// and restored to the value it DISPLACED — not to `None` — when it closes.
///
/// `None` is a real assignment and not a no-op: it is what the rig's fallback reads.
#[must_use]
#[derive(Debug)]
pub struct RefScope {
    prev: Option<Reference>,
}

impl RefScope {
    /// What this scope displaced, as a spec value.
    pub closed spec fn prev(&self) -> Option<Reference> {
        self.prev
    }

    /// Open a scope: set the reference through the cell.
    pub fn set(core: &mut Knobs, r: Option<Reference>) -> (scope: RefScope)
        ensures
            scope.prev() == old(core).ref_,
            *final(core) == with_ref(*old(core), r),
    {
        let prev = r69_with_ref(core, r);
        RefScope { prev }
    }

    /// What this scope displaced.
    pub fn displaced(&self) -> (prev: Option<Reference>)
        ensures
            prev == self.prev(),
    {
        self.prev
    }

    /// Close the scope: restore the displaced value, through the SAME cell that set it.
    pub fn close(self, core: &mut Knobs)
        ensures
            *final(core) == with_ref(*old(core), self.prev()),
    {
        let _ = r69_with_ref(core, self.prev);
    }
}

/// Opening a reference scope and closing it leaves the machine exactly as it was, whatever the
/// scope set; and the scope reports the value it displaced.
pub proof fn ref_scope_round_trip(k: Knobs, r: Option<Reference>)
    ensures
        with_ref(with_ref(k, r), k.ref_) == k,
{
}

/// Two reference scopes opened one inside the other and closed innermost first leave the
/// machine as it was: each restores what it displaced.
pub proof fn ref_scopes_nest(k: Knobs, outer: Option<Reference>, inner: Option<Reference>)
    ensures
        ({
            let k1 = with_ref(k, outer);
            let k2 = with_ref(k1, inner);
            let k3 = with_ref(k2, k1.ref_);
            with_ref(k3, k.ref_) == k && k3 == k1
        }),
{
}

} // verus!

verus! {

/// What the split-family cascade builder reads of its arming, as plain facts.
///
/// The four float facts (`bleed_nonzero`, `bleed_in_range`, `floors_equal`, `wall_matched`) are
/// comparisons the caller makes on the arming's own floats; the rest are presence flags.
#[derive(Clone, Copy, Debug, PartialEq, Eq)]
pub struct SplitArming {
    /// An incidence floor is armed on the LP stators.
    pub stator_inc: bool,
    /// A `phi` floor is armed on the LP stators.
    pub stator_lim: bool,
    /// The LP spool is disabled.
    pub lp_disabled: bool,
    /// The valve's constant position is not `0.0`.
    pub bleed_nonzero: bool,
    /// The valve's constant position lies in `[0, 0.5)`.
    pub bleed_in_range: bool,
    /// A valve schedule is armed.
    pub bleed_sched: bool,
    /// A valve floor is armed.
    pub bleed_lim: bool,
    /// The LP stators' constant setting is not `0.0`.
    pub vsv_lp_nonzero: bool,
    /// An LP stator schedule is armed.
    pub sched_lp: bool,
    /// The stator floor's `phi_lim` equals the valve floor's (read only when both are armed).
    pub floors_equal: bool,
    /// The incidence floor is the valve's `phi` floor at the design setting, to a relative
    /// `1e-12` (read only when both are armed).
    pub wall_matched: bool,
}

/// The builder's refusals, in the order it runs them.
#[derive(Clone, Copy, Debug, PartialEq, Eq, Structural)]
pub enum ArmingRefusal {
    /// An incidence floor on a disabled LP spool (asserted before the build).
    IncidenceOnDisabledLp,
    /// A disabled LP spool reaching the shared constructor, which has its own constructor.
    DisabledLpNeedsOwnConstructor,
    /// The valve given a constant position AND a schedule.
    ValveConstantAndSchedule,
    /// The valve's constant position outside `[0, 0.5)`.
    BleedOutOfRange,
    /// The valve given a floor beside a constant position or a schedule.
    ValveNotExclusive,
    /// The LP stators given a `phi` floor beside a constant setting or a schedule.
    StatorNotExclusive,
    /// A stator floor and a valve floor on different set points.
    FloorsUnequal,
    /// A stator floor on a disabled LP spool.
    FloorOnDisabledLp,
    /// Both a `phi` floor and an incidence floor on the one stator.
    TwoReferences,
    /// The LP stators given an incidence floor beside a constant setting or a schedule.
    IncidenceNotExclusive,
    /// An incidence floor that is not the valve's wall at the design setting.
    WallUnmatched,
}

/// The position of a refusal in the builder's sequence.
pub open spec fn refusal_rank(g: ArmingRefusal) -> nat {
    match g {
        ArmingRefusal::IncidenceOnDisabledLp => 0,
        ArmingRefusal::DisabledLpNeedsOwnConstructor => 1,
        ArmingRefusal::ValveConstantAndSchedule => 2,
        ArmingRefusal::BleedOutOfRange => 3,
        ArmingRefusal::ValveNotExclusive => 4,
        ArmingRefusal::StatorNotExclusive => 5,
        ArmingRefusal::FloorsUnequal => 6,
        ArmingRefusal::FloorOnDisabledLp => 7,
        ArmingRefusal::TwoReferences => 8,
        ArmingRefusal::IncidenceNotExclusive => 9,
        ArmingRefusal::WallUnmatched => 10,
    }
}

/// Whether the arming passes guard `g`.
pub open spec fn guard_passes(a: SplitArming, g: ArmingRefusal) -> bool {
    match g {
        ArmingRefusal::IncidenceOnDisabledLp => !(a.stator_inc && a.lp_disabled),
        ArmingRefusal::DisabledLpNeedsOwnConstructor => !a.lp_disabled,
        ArmingRefusal::ValveConstantAndSchedule => !(a.bleed_nonzero && a.bleed_sched),
        ArmingRefusal::BleedOutOfRange => a.bleed_in_range,
        ArmingRefusal::ValveNotExclusive => !(a.bleed_lim && (a.bleed_nonzero || a.bleed_sched)),
        ArmingRefusal::StatorNotExclusive => !(a.stator_lim && (a.vsv_lp_nonzero || a.sched_lp)),
        ArmingRefusal::FloorsUnequal => !(a.stator_lim && a.bleed_lim) || a.floors_equal,
        ArmingRefusal::FloorOnDisabledLp => !(a.stator_lim && a.lp_disabled),
        ArmingRefusal::TwoReferences => !(a.stator_lim && a.stator_inc),
        ArmingRefusal::IncidenceNotExclusive => !(a.stator_inc && (a.vsv_lp_nonzero || a.sched_lp)),
        ArmingRefusal::WallUnmatched => !(a.stator_inc && a.bleed_lim) || a.wall_matched,
    }
}

/// The arming passes every guard: the builder builds.
pub open spec fn arming_admitted(a: SplitArming) -> bool {
    forall|g: ArmingRefusal| guard_passes(a, g)
}

/// `g` is the refusal the builder raises: it fails, and every guard before it passes.
pub open spec fn is_first_refusal(a: SplitArming, g: ArmingRefusal) -> bool {
    &&& !guard_passes(a, g)
    &&& forall|h: ArmingRefusal| refusal_rank(h) < refusal_rank(g) ==> guard_passes(a, h)
}

/// The refusal the split-family builder raises on this arming — the FIRST guard in its sequence
/// that fails — or `None` when it builds.
pub fn split_family_refusal(a: &SplitArming) -> (r: Option<ArmingRefusal>)
    ensures
        r is None <==> arming_admitted(*a),
        r matches Some(g) ==> is_first_refusal(*a, g),
{
    let r = if a.stator_inc && a.lp_disabled {
        Some(ArmingRefusal::IncidenceOnDisabledLp)
    } else if a.lp_disabled {
        Some(ArmingRefusal::DisabledLpNeedsOwnConstructor)
    } else if a.bleed_nonzero && a.bleed_sched {
        Some(ArmingRefusal::ValveConstantAndSchedule)
    } else if !a.bleed_in_range {
        Some(ArmingRefusal::BleedOutOfRange)
    } else if a.bleed_lim && (a.bleed_nonzero || a.bleed_sched) {
        Some(ArmingRefusal::ValveNotExclusive)
    } else if a.stator_lim && (a.vsv_lp_nonzero || a.sched_lp) {
        Some(ArmingRefusal::StatorNotExclusive)
    } else if a.stator_lim && a.bleed_lim && !a.floors_equal {
        Some(ArmingRefusal::FloorsUnequal)
    } else if a.stator_lim && a.lp_disabled {
        Some(ArmingRefusal::FloorOnDisabledLp)
    } else if a.stator_lim && a.stator_inc {
        Some(ArmingRefusal::TwoReferences)
    } else if a.stator_inc && (a.vsv_lp_nonzero || a.sched_lp) {
        Some(ArmingRefusal::IncidenceNotExclusive)
    } else if a.stator_inc && a.bleed_lim && !a.wall_matched {
        Some(ArmingRefusal::WallUnmatched)
    } else {
        None
    };
    proof {
        match r {
            Some(g) => assert(!guard_passes(*a, g)),
            None => {
                assert forall|g: ArmingRefusal| guard_passes(*a, g) by {
                    match g {
                        ArmingRefusal::IncidenceOnDisabledLp => {},
                        ArmingRefusal::DisabledLpNeedsOwnConstructor => {},
                        ArmingRefusal::ValveConstantAndSchedule => {},
                        ArmingRefusal::BleedOutOfRange => {},
                        ArmingRefusal::ValveNotExclusive => {},
                        ArmingRefusal::StatorNotExclusive => {},
                        ArmingRefusal::FloorsUnequal => {},
                        ArmingRefusal::FloorOnDisabledLp => {},
                        ArmingRefusal::TwoReferences => {},
                        ArmingRefusal::IncidenceNotExclusive => {},
                        ArmingRefusal::WallUnmatched => {},
                    }
                }
            },
        }
    }
    r
}

/// The builder admits exactly the armings that are well formed in plain terms: an enabled LP
/// spool, a valve position in range, at most one leg per lever, one reference on the stator, and
/// one set point and one wall where floors meet. A disabled LP spool is refused first, by the
/// incidence guard when an incidence floor is armed and by the shared constructor otherwise.
pub proof fn admitted_armings_are_the_well_formed_ones(a: SplitArming)
    ensures
        arming_admitted(a) <==> {
            &&& !a.lp_disabled
            &&& a.bleed_in_range
            &&& !(a.bleed_nonzero && a.bleed_sched)
            &&& !(a.bleed_lim && (a.bleed_nonzero || a.bleed_sched))
            &&& !(a.stator_lim && a.stator_inc)
            &&& (a.stator_lim || a.stator_inc) ==> !a.vsv_lp_nonzero && !a.sched_lp
            &&& a.stator_lim && a.bleed_lim ==> a.floors_equal
            &&& a.stator_inc && a.bleed_lim ==> a.wall_matched
        },
        a.lp_disabled ==> is_first_refusal(
            a,
            if a.stator_inc {
                ArmingRefusal::IncidenceOnDisabledLp
            } else {
                ArmingRefusal::DisabledLpNeedsOwnConstructor
            },
        ),
{
    if arming_admitted(a) {
        admitted_arming_is_exclusive(a);
        assert(guard_passes(a, ArmingRefusal::BleedOutOfRange));
    }
    assert forall|g: ArmingRefusal|
        refusal_rank(g) < refusal_rank(ArmingRefusal::DisabledLpNeedsOwnConstructor) && !a.stator_inc
            implies guard_passes(a, g) by {
        match g {
            ArmingRefusal::IncidenceOnDisabledLp => {},
            _ => {},
        }
    }
    assert forall|g: ArmingRefusal|
        refusal_rank(g) < refusal_rank(ArmingRefusal::IncidenceOnDisabledLp) implies guard_passes(
            a,
            g,
        ) by {
        match g {
            ArmingRefusal::IncidenceOnDisabledLp => {},
            _ => {},
        }
    }
}

/// Every arming the builder admits gives each lever exactly one of its legs at most: the valve a
/// constant position, a schedule or a floor; the LP stators a constant setting, a schedule, a
/// `phi` floor or an incidence floor; and a floored machine one set point and one wall.
pub proof fn admitted_arming_is_exclusive(a: SplitArming)
    requires
        forall|g: ArmingRefusal| guard_passes(a, g),
    ensures
        !(a.bleed_nonzero && a.bleed_sched),
        !(a.bleed_lim && (a.bleed_nonzero || a.bleed_sched)),
        !(a.stator_lim && a.stator_inc),
        (a.stator_lim || a.stator_inc) ==> !a.vsv_lp_nonzero && !a.sched_lp,
        !a.lp_disabled,
        a.stator_lim && a.bleed_lim ==> a.floors_equal,
        a.stator_inc && a.bleed_lim ==> a.wall_matched,
{
    assert(guard_passes(a, ArmingRefusal::ValveConstantAndSchedule));
    assert(guard_passes(a, ArmingRefusal::ValveNotExclusive));
    assert(guard_passes(a, ArmingRefusal::TwoReferences));
    assert(guard_passes(a, ArmingRefusal::StatorNotExclusive));
    assert(guard_passes(a, ArmingRefusal::IncidenceNotExclusive));
    assert(guard_passes(a, ArmingRefusal::DisabledLpNeedsOwnConstructor));
    assert(guard_passes(a, ArmingRefusal::FloorsUnequal));
    assert(guard_passes(a, ArmingRefusal::WallUnmatched));
}

/// The stator-floor-on-a-disabled-LP refusal can never be the one the builder raises: the
/// shared constructor has already refused every disabled LP spool before it is reached.
pub proof fn floor_on_disabled_lp_is_never_first(a: SplitArming)
    ensures
        !(!guard_passes(a, ArmingRefusal::FloorOnDisabledLp) && forall|h: ArmingRefusal|
            refusal_rank(h) < refusal_rank(ArmingRefusal::FloorOnDisabledLp) ==> guard_passes(
                a,
                h,
            )),
{
    if !guard_passes(a, ArmingRefusal::FloorOnDisabledLp) {
        assert(refusal_rank(ArmingRefusal::DisabledLpNeedsOwnConstructor) < refusal_rank(
            ArmingRefusal::FloorOnDisabledLp,
        ));
        assert(!guard_passes(a, ArmingRefusal::DisabledLpNeedsOwnConstructor));
    }
}

} // verus!

verus! {

/// The counters of the split rung: which arm each re-aimed cell ran, and which reference the
/// rig armed. A reduce arm emits the parent's numbers by construction, so these are the only
/// instrument that can tell which body ran.
#[derive(Clone, Copy, Debug, PartialEq, Eq)]
pub struct Census69 {
    /// Runs of the split rung's OWN stator solve.
    pub solve_v_calls: u64,
    /// Its regime outcomes.
    pub regime_dormant: u64,
    pub regime_riding: u64,
    pub regime_saturated: u64,
    /// The stator leg returning the incidence limiter.
    pub leg_inc: u64,
    /// The six reduce arms.
    pub leg_parent: u64,
    pub lagged_parent: u64,
    pub clamp_parent: u64,
    pub check_parent: u64,
    pub solve_parent: u64,
    pub manifold_parent: u64,
    /// Which reference the rig armed.
    pub rig_inc: u64,
    pub rig_phi: u64,
}

/// One counter of [`Census69`].
#[derive(Clone, Copy, Debug, PartialEq, Eq, Structural)]
pub enum Counter69 {
    SolveVCalls,
    RegimeDormant,
    RegimeRiding,
    RegimeSaturated,
    LegInc,
    LegParent,
    LaggedParent,
    ClampParent,
    CheckParent,
    SolveParent,
    ManifoldParent,
    RigInc,
    RigPhi,
}

/// The value of one counter.
pub open spec fn count69(c: Census69, k: Counter69) -> u64 {
    match k {
        Counter69::SolveVCalls => c.solve_v_calls,
        Counter69::RegimeDormant => c.regime_dormant,
        Counter69::RegimeRiding => c.regime_riding,
        Counter69::RegimeSaturated => c.regime_saturated,
        Counter69::LegInc => c.leg_inc,
        Counter69::LegParent => c.leg_parent,
        Counter69::LaggedParent => c.lagged_parent,
        Counter69::ClampParent => c.clamp_parent,
        Counter69::CheckParent => c.check_parent,
        Counter69::SolveParent => c.solve_parent,
        Counter69::ManifoldParent => c.manifold_parent,
        Counter69::RigInc => c.rig_inc,
        Counter69::RigPhi => c.rig_phi,
    }
}

/// `after` is `before` with counter `k` one higher and every other counter unchanged.
pub open spec fn bumped69(before: Census69, after: Census69, k: Counter69) -> bool {
    forall|j: Counter69|
        #[trigger] count69(after, j) == count69(before, j) + (if j == k {
            1int
        } else {
            0int
        })
}

/// `after` and `before` agree on every counter.
pub open spec fn same69(before: Census69, after: Census69) -> bool {
    forall|j: Counter69| #[trigger] count69(after, j) == count69(before, j)
}

impl Default for Census69 {
    /// Every counter at zero.
    fn default() -> (c: Census69)
        ensures
            forall|j: Counter69| #[trigger] count69(c, j) == 0,
    {
        Census69::zero()
    }
}

impl Census69 {
    /// Every counter at zero.
    pub fn zero() -> (c: Census69)
        ensures
            forall|j: Counter69| #[trigger] count69(c, j) == 0,
    {
        Census69 {
            solve_v_calls: 0,
            regime_dormant: 0,
            regime_riding: 0,
            regime_saturated: 0,
            leg_inc: 0,
            leg_parent: 0,
            lagged_parent: 0,
            clamp_parent: 0,
            check_parent: 0,
            solve_parent: 0,
            manifold_parent: 0,
            rig_inc: 0,
            rig_phi: 0,
        }
    }

    /// Read every counter at once.
    pub fn read(&self) -> (c: Census69)
        ensures
            c == *self,
    {
        *self
    }

    /// Zero every counter at once — never by halves.
    pub fn reset(&mut self)
        ensures
            forall|j: Counter69| #[trigger] count69(*final(self), j) == 0,
            regimes_within_calls(*final(self)),
    {
        *self = Census69::zero();
        assert(count69(*self, Counter69::SolveVCalls) == 0);
        assert(count69(*self, Counter69::RegimeDormant) == 0);
        assert(count69(*self, Counter69::RegimeRiding) == 0);
        assert(count69(*self, Counter69::RegimeSaturated) == 0);
    }

    /// Count one event.
    pub fn bump(&mut self, k: Counter69)
        requires
            count69(*old(self), k) < u64::MAX,
        ensures
            bumped69(*old(self), *final(self), k),
    {
        match k {
            Counter69::SolveVCalls => self.solve_v_calls = self.solve_v_calls + 1,
            Counter69::RegimeDormant => self.regime_dormant = self.regime_dormant + 1,
            Counter69::RegimeRiding => self.regime_riding = self.regime_riding + 1,
            Counter69::RegimeSaturated => self.regime_saturated = self.regime_saturated + 1,
            Counter69::LegInc => self.leg_inc = self.leg_inc + 1,
            Counter69::LegParent => self.leg_parent = self.leg_parent + 1,
            Counter69::LaggedParent => self.lagged_parent = self.lagged_parent + 1,
            Counter69::ClampParent => self.clamp_parent = self.clamp_parent + 1,
            Counter69::CheckParent => self.check_parent = self.check_parent + 1,
            Counter69::SolveParent => self.solve_parent = self.solve_parent + 1,
            Counter69::ManifoldParent => self.manifold_parent = self.manifold_parent + 1,
            Counter69::RigInc => self.rig_inc = self.rig_inc + 1,
            Counter69::RigPhi => self.rig_phi = self.rig_phi + 1,
        }
    }
}

} // verus!

verus! {

/// The re-aimed cells of the split rung that open with a reduce arm: `stator_inc is None` runs
/// the parent rung's body verbatim.
#[derive(Clone, Copy, Debug, PartialEq, Eq, Structural)]
pub enum Cell69 {
    StatorLeg,
    LaggedStator,
    ClampV,
    CheckV0,
    SolveV,
    ManifoldV,
}

/// Which body a re-aimed cell runs.
#[derive(Clone, Copy, Debug, PartialEq, Eq, Structural)]
pub enum Arm69 {
    /// The split rung's own body, on the incidence limiter.
    Own,
    /// The parent rung's body, reached by a direct call.
    Parent,
}

/// The counter a cell's reduce arm bumps.
pub open spec fn parent_counter(cell: Cell69) -> Counter69 {
    match cell {
        Cell69::StatorLeg => Counter69::LegParent,
        Cell69::LaggedStator => Counter69::LaggedParent,
        Cell69::ClampV => Counter69::ClampParent,
        Cell69::CheckV0 => Counter69::CheckParent,
        Cell69::SolveV => Counter69::SolveParent,
        Cell69::ManifoldV => Counter69::ManifoldParent,
    }
}

/// What a cell's own arm counts, where it counts anything.
pub open spec fn own_counter(cell: Cell69) -> Option<Counter69> {
    match cell {
        Cell69::StatorLeg => Some(Counter69::LegInc),
        Cell69::SolveV => Some(Counter69::SolveVCalls),
        _ => None,
    }
}

/// Dispatch one re-aimed cell: its own body when an incidence floor is armed, else the parent's,
/// counting the arm taken.
pub fn r69_dispatch(census: &mut Census69, cell: Cell69, has_inc: bool) -> (arm: Arm69)
    requires
        !has_inc ==> count69(*old(census), parent_counter(cell)) < u64::MAX,
        has_inc ==> (own_counter(cell) matches Some(k) ==> count69(*old(census), k) < u64::MAX),
    ensures
        arm == (if has_inc {
            Arm69::Own
        } else {
            Arm69::Parent
        }),
        !has_inc ==> bumped69(*old(census), *final(census), parent_counter(cell)),
        has_inc ==> match own_counter(cell) {
            Some(k) => bumped69(*old(census), *final(census), k),
            None => *final(census) == *old(census),
        },
{
    if has_inc {
        match cell {
            Cell69::StatorLeg => census.bump(Counter69::LegInc),
            Cell69::SolveV => census.bump(Counter69::SolveVCalls),
            _ => {},
        }
        Arm69::Own
    } else {
        let k = match cell {
            Cell69::StatorLeg => Counter69::LegParent,
            Cell69::LaggedStator => Counter69::LaggedParent,
            Cell69::ClampV => Counter69::ClampParent,
            Cell69::CheckV0 => Counter69::CheckParent,
            Cell69::SolveV => Counter69::SolveParent,
            Cell69::ManifoldV => Counter69::ManifoldParent,
        };
        census.bump(k);
        Arm69::Parent
    }
}

/// A stator leg as the shared bodies read it: its time constant and its travel, and nothing of
/// its wall or the wall's sign.
#[derive(Clone, Copy, Debug, PartialEq, Eq)]
pub struct StatorLegArm {
    /// The loop's time constant, as a float bit pattern; `None` for an instantaneous loop.
    pub tau: Option<u64>,
    /// The stator's travel, as a float bit pattern.
    pub v_max: u64,
}

/// The stator leg: the incidence limiter IN PREFERENCE, else `parent`, the parent rung's own
/// stator leg (its `phi`-floored stator, or `None`).
pub fn r69_stator_leg(
    census: &mut Census69,
    inc: Option<StatorLegArm>,
    parent: Option<StatorLegArm>,
) -> (leg: Option<StatorLegArm>)
    requires
        inc is Some ==> count69(*old(census), Counter69::LegInc) < u64::MAX,
        inc is None ==> count69(*old(census), Counter69::LegParent) < u64::MAX,
    ensures
        leg == (if inc is Some {
            inc
        } else {
            parent
        }),
        inc is Some ==> bumped69(*old(census), *final(census), Counter69::LegInc),
        inc is None ==> bumped69(*old(census), *final(census), Counter69::LegParent),
{
    let _ = r69_dispatch(census, Cell69::StatorLeg, inc.is_some());
    match inc {
        Some(l) => Some(l),
        None => parent,
    }
}

/// Whether the stator loop is lagged: the incidence limiter's own answer, or `None` where the
/// parent's body decides.
pub fn r69_lagged_stator(census: &mut Census69, inc: Option<StatorLegArm>) -> (lagged: Option<
    bool,
>)
    requires
        inc is None ==> count69(*old(census), Counter69::LaggedParent) < u64::MAX,
    ensures
        lagged == (match inc {
            Some(l) => Some(l.tau is Some),
            None => None::<bool>,
        }),
        inc is Some ==> *final(census) == *old(census),
        inc is None ==> bumped69(*old(census), *final(census), Counter69::LaggedParent),
{
    match inc {
        Some(l) => Some(l.tau.is_some()),
        None => {
            let _ = r69_dispatch(census, Cell69::LaggedStator, false);
            None
        },
    }
}

/// Count one outcome of the split rung's own stator solve.
pub fn record_regime69(census: &mut Census69, regime: Regime)
    requires
        count69(
            *old(census),
            match regime {
                Regime::Dormant => Counter69::RegimeDormant,
                Regime::Riding => Counter69::RegimeRiding,
                Regime::Saturated => Counter69::RegimeSaturated,
            },
        ) < u64::MAX,
    ensures
        bumped69(
            *old(census),
            *final(census),
            match regime {
                Regime::Dormant => Counter69::RegimeDormant,
                Regime::Riding => Counter69::RegimeRiding,
                Regime::Saturated => Counter69::RegimeSaturated,
            },
        ),
{
    match regime {
        Regime::Dormant => census.bump(Counter69::RegimeDormant),
        Regime::Riding => census.bump(Counter69::RegimeRiding),
        Regime::Saturated => census.bump(Counter69::RegimeSaturated),
    }
}

/// The counter a regime outcome goes to.
pub open spec fn regime_counter(r: Regime) -> Counter69 {
    match r {
        Regime::Dormant => Counter69::RegimeDormant,
        Regime::Riding => Counter69::RegimeRiding,
        Regime::Saturated => Counter69::RegimeSaturated,
    }
}

/// The regime outcomes counted never exceed the own-solve calls counted: each call returns at
/// most one regime.
pub open spec fn regimes_within_calls(c: Census69) -> bool {
    c.regime_dormant + c.regime_riding + c.regime_saturated <= c.solve_v_calls
}

/// The split rung's stator solve, counted as a whole: with no incidence floor, the parent's solve
/// (its reduce arm counted); with one, the own solve's call counted, then the regime it returned
/// — `None` where the solve aborted, which counts no regime.
pub fn r69_solve_v(census: &mut Census69, has_inc: bool, outcome: Option<Regime>) -> (arm: Arm69)
    requires
        !has_inc ==> count69(*old(census), Counter69::SolveParent) < u64::MAX,
        has_inc ==> count69(*old(census), Counter69::SolveVCalls) < u64::MAX,
        has_inc && outcome is Some ==> count69(*old(census), regime_counter(outcome->0))
            < u64::MAX,
    ensures
        arm == (if has_inc {
            Arm69::Own
        } else {
            Arm69::Parent
        }),
        !has_inc ==> bumped69(*old(census), *final(census), Counter69::SolveParent),
        has_inc ==> forall|j: Counter69|
            #[trigger] count69(*final(census), j) == count69(*old(census), j) + (if j
                == Counter69::SolveVCalls {
                1int
            } else {
                0int
            }) + (if outcome matches Some(r) && j == regime_counter(r) {
                1int
            } else {
                0int
            }),
        regimes_within_calls(*old(census)) ==> regimes_within_calls(*final(census)),
{
    let arm = r69_dispatch(census, Cell69::SolveV, has_inc);
    let ghost mid = *census;
    if has_inc {
        match outcome {
            Some(r) => record_regime69(census, r),
            None => {},
        }
    }
    proof {
        assert(count69(mid, Counter69::SolveVCalls) == mid.solve_v_calls);
        assert(count69(mid, Counter69::RegimeDormant) == mid.regime_dormant);
        assert(count69(mid, Counter69::RegimeRiding) == mid.regime_riding);
        assert(count69(mid, Counter69::RegimeSaturated) == mid.regime_saturated);
        assert(count69(*census, Counter69::SolveVCalls) == census.solve_v_calls);
        assert(count69(*census, Counter69::RegimeDormant) == census.regime_dormant);
        assert(count69(*census, Counter69::RegimeRiding) == census.regime_riding);
        assert(count69(*census, Counter69::RegimeSaturated) == census.regime_saturated);
    }
    arm
}

/// Which stator a rig arms.
#[derive(Clone, Copy, Debug, PartialEq, Eq, Structural)]
pub enum RigStator {
    /// No stator loop.
    Unarmed,
    /// The `phi`-floored stator.
    Phi,
    /// The incidence-floored stator.
    Inc,
}

/// The reference a rig is built on: the carrier's, else `phi` on a `phi`-floored machine and
/// incidence otherwise.
pub open spec fn rig_reference(ref_: Option<Reference>, stator_lim_armed: bool) -> Reference {
    match ref_ {
        Some(r) => r,
        None => if stator_lim_armed {
            Reference::Phi
        } else {
            Reference::Inc
        },
    }
}

/// What a triple rig is asked to arm.
#[derive(Clone, Copy, Debug, PartialEq, Eq)]
pub struct TripleRigArm {
    /// A lagged, floored valve.
    pub valve: bool,
    /// A floored stator, in the rig's reference.
    pub stator: bool,
    /// The fuel leg: a surge floor and an asymmetric lag.
    pub fuel: bool,
}

/// What a triple rig builds.
#[derive(Clone, Copy, Debug, PartialEq, Eq)]
pub struct TripleRigPlan {
    /// The valve limiter is built.
    pub valve: bool,
    /// The stator limiter built, in its reference.
    pub stator: RigStator,
    /// The fuel leg's surge floor is built.
    pub surge: bool,
    /// The fuel leg's asymmetric lag is built.
    pub lag: bool,
}

/// The triple rig's plan: the valve and the fuel leg as asked, and the stator — when asked for —
/// in the reference the carrier names, consumed at construction, so a rig built inside a
/// reference scope keeps that reference after the scope closes. The reference the rig arms is
/// counted.
pub fn r69_triple_rig(
    census: &mut Census69,
    ref_: Option<Reference>,
    stator_lim_armed: bool,
    arm: &TripleRigArm,
) -> (plan: TripleRigPlan)
    requires
        arm.stator && rig_reference(ref_, stator_lim_armed) == Reference::Phi ==> count69(
            *old(census),
            Counter69::RigPhi,
        ) < u64::MAX,
        arm.stator && rig_reference(ref_, stator_lim_armed) == Reference::Inc ==> count69(
            *old(census),
            Counter69::RigInc,
        ) < u64::MAX,
    ensures
        arm.stator && ref_ == Some(Reference::Phi) ==> plan.stator == RigStator::Phi,
        arm.stator && ref_ == Some(Reference::Inc) ==> plan.stator == RigStator::Inc,
        arm.stator && ref_ is None ==> plan.stator == (if stator_lim_armed {
            RigStator::Phi
        } else {
            RigStator::Inc
        }),
        plan.valve == arm.valve,
        plan.surge == arm.fuel,
        plan.lag == arm.fuel,
        !arm.stator ==> plan.stator == RigStator::Unarmed && *final(census) == *old(census),
        arm.stator && rig_reference(ref_, stator_lim_armed) == Reference::Phi ==> plan.stator
            == RigStator::Phi && bumped69(*old(census), *final(census), Counter69::RigPhi),
        arm.stator && rig_reference(ref_, stator_lim_armed) == Reference::Inc ==> plan.stator
            == RigStator::Inc && bumped69(*old(census), *final(census), Counter69::RigInc),
{
    let reference = match ref_ {
        Some(r) => r,
        None => if stator_lim_armed {
            Reference::Phi
        } else {
            Reference::Inc
        },
    };
    let stator = if !arm.stator {
        RigStator::Unarmed
    } else {
        match reference {
            Reference::Phi => {
                census.bump(Counter69::RigPhi);
                RigStator::Phi
            },
            Reference::Inc => {
                census.bump(Counter69::RigInc);
                RigStator::Inc
            },
        }
    };
    TripleRigPlan { valve: arm.valve, stator, surge: arm.fuel, lag: arm.fuel }
}

/// A rig built inside a reference scope set to `r` is built on `r`, whatever the machine's own
/// arming would have chosen.
pub proof fn scoped_rig_uses_scope_reference(k: Knobs, r: Reference, stator_lim_armed: bool)
    ensures
        rig_reference(with_ref(k, Some(r)).ref_, stator_lim_armed) == r,
{
}

} // verus!

verus! {

/// Build a sibling through the split-family cascade: run the builder's guard sequence on the
/// arming, then carry the rung's knobs from the receiver onto the machine built.
///
/// `built` is the knobs the shared constructor gave the new machine, before the rung writes or
/// copies anything.
pub fn split_family_sibling(r: Rung, core: &Knobs, built: Knobs, arm: &SplitArming) -> (m: Result<
    Knobs,
    ArmingRefusal,
>)
    ensures
        m matches Ok(k) ==> arming_admitted(*arm) && k == sibling(r, *core, built),
        m matches Err(g) ==> is_first_refusal(*arm, g) && !arming_admitted(*arm),
        arming_admitted(*arm) ==> m is Ok,
{
    match split_family_refusal(arm) {
        Some(g) => Err(g),
        None => Ok(sibling_knobs(r, core, built)),
    }
}

/// The split rung's sibling constructor: the cascade's guards re-asserted on every sibling, and
/// no knob carried.
pub fn r69_at_lever(core: &Knobs, built: Knobs, arm: &SplitArming) -> (m: Result<
    Knobs,
    ArmingRefusal,
>)
    ensures
        m matches Ok(k) ==> arming_admitted(*arm) && k == built,
        m matches Err(g) ==> is_first_refusal(*arm, g) && !arming_admitted(*arm),
        arming_admitted(*arm) ==> m is Ok,
{
    split_family_sibling(Rung::R69, core, built, arm)
}

} // verus!
