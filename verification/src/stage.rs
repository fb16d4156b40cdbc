//! The stage stack's discrete side: the census its instruments keep (read and reset as one),
//! the stack's shape and which stages carry the variable setting, the per-floor tallies and the
//! clamp count of a march, the build-once capacity cache, and how a speed-line inversion starts
//! and fails.
use vstd::prelude::*;

verus! {

/// How the design temperature rise is divided between the stages of a stack.
///
/// At design every stage has unit loading, so "equal loading" is not a third split: it is
/// [`Split::DT`].
#[derive(Clone, Copy, Debug, PartialEq, Eq)]
pub enum Split {
    /// Equal total-temperature rise per stage.
    DT,
    /// Equal stage temperature ratio, `tau_d^(1/K)`.
    Tau,
}

/// How the front row's disclosed capacity constant is spread over the rows.
#[derive(Clone, Copy, Debug, PartialEq, Eq)]
pub enum CapProfile {
    /// Derived off the stack's own design temperature ladder.
    Derived,
    /// The same constant on every row.
    Uniform,
}

/// The eight tallies one stack match is measured by, read together.
#[derive(Clone, Copy, Debug, PartialEq, Eq)]
pub struct StackCensus {
    /// Stacks constructed.
    pub stacks_built: u64,
    /// Marches run, including the one extra march a speed-line solve runs for its clamped-root check.
    pub marches: u64,
    /// Speed-line solves, including the single-stage dispatch.
    pub solve_n_calls: u64,
    /// Bisection passes of the per-stage efficiency solve.
    pub eta_passes: u64,
    /// Bisection passes of the speed-line solve.
    pub solve_n_passes: u64,
    /// Firings of the stage temperature-ratio floor.
    pub t_floor_fires: u64,
    /// Firings of the internal pressure-factor floor.
    pub p_floor_fires: u64,
    /// Capacity reads that built the per-row cache.
    pub capacities_built: u64,
    /// Capacity reads that found it built.
    pub capacities_hits: u64,
}

impl StackCensus {
    /// Every tally at zero.
    pub open spec fn spec_zero() -> StackCensus {
        StackCensus {
            stacks_built: 0,
            marches: 0,
            solve_n_calls: 0,
            eta_passes: 0,
            solve_n_passes: 0,
            t_floor_fires: 0,
            p_floor_fires: 0,
            capacities_built: 0,
            capacities_hits: 0,
        }
    }

    /// Every tally at zero.
    pub fn zero() -> (c: StackCensus)
        ensures
            c == StackCensus::spec_zero(),
    {
        StackCensus {
            stacks_built: 0,
            marches: 0,
            solve_n_calls: 0,
            eta_passes: 0,
            solve_n_passes: 0,
            t_floor_fires: 0,
            p_floor_fires: 0,
            capacities_built: 0,
            capacities_hits: 0,
        }
    }
}

impl Default for StackCensus {
    /// Every tally at zero.
    fn default() -> (c: StackCensus)
        ensures
            c == StackCensus::spec_zero(),
    {
        StackCensus::zero()
    }
}

/// Read AND reset the tallies, so a caller can attribute them to one match rather than to a sum.
pub fn take_census(census: &mut StackCensus) -> (taken: StackCensus)
    ensures
        taken == *old(census),
        *final(census) == StackCensus::spec_zero(),
{
    let taken = *census;
    *census = StackCensus::zero();
    taken
}

/// One tally of [`StackCensus`].
#[derive(Clone, Copy, Debug, PartialEq, Eq, Structural)]
pub enum StackTally {
    StacksBuilt,
    Marches,
    SolveNCalls,
    EtaPasses,
    SolveNPasses,
    TFloorFires,
    PFloorFires,
    CapacitiesBuilt,
    CapacitiesHits,
}

/// The value of one tally.
pub open spec fn tally(c: StackCensus, t: StackTally) -> u64 {
    match t {
        StackTally::StacksBuilt => c.stacks_built,
        StackTally::Marches => c.marches,
        StackTally::SolveNCalls => c.solve_n_calls,
        StackTally::EtaPasses => c.eta_passes,
        StackTally::SolveNPasses => c.solve_n_passes,
        StackTally::TFloorFires => c.t_floor_fires,
        StackTally::PFloorFires => c.p_floor_fires,
        StackTally::CapacitiesBuilt => c.capacities_built,
        StackTally::CapacitiesHits => c.capacities_hits,
    }
}

/// `after` is `before` with tally `t` raised by `n` and every other tally unchanged.
pub open spec fn raised(before: StackCensus, after: StackCensus, t: StackTally, n: int) -> bool {
    forall|j: StackTally|
        #[trigger] tally(after, j) == tally(before, j) + (if j == t {
            n
        } else {
            0int
        })
}

/// Bump one tally; the others stay in the one census they share.
pub fn bump(census: &mut StackCensus, t: StackTally)
    requires
        tally(*old(census), t) < u64::MAX,
    ensures
        raised(*old(census), *final(census), t, 1),
{
    match t {
        StackTally::StacksBuilt => census.stacks_built = census.stacks_built + 1,
        StackTally::Marches => census.marches = census.marches + 1,
        StackTally::SolveNCalls => census.solve_n_calls = census.solve_n_calls + 1,
        StackTally::EtaPasses => census.eta_passes = census.eta_passes + 1,
        StackTally::SolveNPasses => census.solve_n_passes = census.solve_n_passes + 1,
        StackTally::TFloorFires => census.t_floor_fires = census.t_floor_fires + 1,
        StackTally::PFloorFires => census.p_floor_fires = census.p_floor_fires + 1,
        StackTally::CapacitiesBuilt => census.capacities_built = census.capacities_built + 1,
        StackTally::CapacitiesHits => census.capacities_hits = census.capacities_hits + 1,
    }
}

/// The discrete shape of a stage stack: its stage count and how many FRONT stages carry the
/// variable setting.
#[derive(Clone, Copy, Debug, PartialEq, Eq)]
pub struct StackShape {
    /// The stage count, at least one.
    pub k: usize,
    /// How many front stages carry the setting, resolved: never more than `k`.
    pub vsv_stages: usize,
}

impl StackShape {
    /// Build the shape as the stack's constructor does: count the construction, then resolve an
    /// unset `vsv_stages` to ALL `k` stages (the lumped lever). A stack with no stage, or with
    /// more setting-carrying stages than stages, is refused outright by the constructor, so those
    /// inputs are outside this function's domain.
    pub fn new(census: &mut StackCensus, k: usize, vsv_stages: Option<usize>) -> (s: StackShape)
        requires
            k >= 1,
            vsv_stages matches Some(v) ==> v <= k,
            old(census).stacks_built < u64::MAX,
        ensures
            s.k == k,
            s.vsv_stages == (match vsv_stages {
                Some(v) => v,
                None => k,
            }),
            raised(*old(census), *final(census), StackTally::StacksBuilt, 1),
    {
        bump(census, StackTally::StacksBuilt);
        let v: usize = match vsv_stages {
            Some(v) => v,
            None => k,
        };
        StackShape { k, vsv_stages: v }
    }

    /// Whether stage `stage` carries the variable setting (its loading is read off the set map);
    /// otherwise it sits at its design setting.
    pub fn carries_setting(&self, stage: usize) -> (b: bool)
        ensures
            b == (stage < self.vsv_stages),
    {
        stage < self.vsv_stages
    }
}

/// The default lever puts the setting on every stage of the stack; `Some(0)` on none of them.
pub proof fn default_lever_sets_every_stage(k: usize, stage: usize)
    requires
        k >= 1,
        stage < k,
    ensures
        (StackShape { k, vsv_stages: k }).vsv_stages > stage,
        !((StackShape { k, vsv_stages: 0 }).vsv_stages > stage),
{
}

/// Per-stage floor firings in a march: `(temperature floor, pressure floor)`.
pub open spec fn t_fires(s: Seq<(bool, bool)>) -> nat
    decreases s.len(),
{
    if s.len() == 0 {
        0
    } else {
        t_fires(s.drop_last()) + (if s.last().0 {
            1nat
        } else {
            0nat
        })
    }
}

/// See [`t_fires`].
pub open spec fn p_fires(s: Seq<(bool, bool)>) -> nat
    decreases s.len(),
{
    if s.len() == 0 {
        0
    } else {
        p_fires(s.drop_last()) + (if s.last().1 {
            1nat
        } else {
            0nat
        })
    }
}

proof fn lemma_fires_bounded(s: Seq<(bool, bool)>)
    ensures
        t_fires(s) <= s.len(),
        p_fires(s) <= s.len(),
    decreases s.len(),
{
    if s.len() > 0 {
        lemma_fires_bounded(s.drop_last());
    }
}

/// Count one march's floors: the march itself once, each floor on its own tally, and the stages
/// that hit EITHER floor summed into the one number the speed-line root check reads.
pub fn march_floors(census: &mut StackCensus, floors: &Vec<(bool, bool)>) -> (clamped: usize)
    requires
        old(census).marches < u64::MAX,
        old(census).t_floor_fires + floors.len() <= u64::MAX,
        old(census).p_floor_fires + floors.len() <= u64::MAX,
        2 * floors.len() <= usize::MAX,
    ensures
        clamped == t_fires(floors@) + p_fires(floors@),
        final(census).marches == old(census).marches + 1,
        final(census).t_floor_fires == old(census).t_floor_fires + t_fires(floors@),
        final(census).p_floor_fires == old(census).p_floor_fires + p_fires(floors@),
        final(census).stacks_built == old(census).stacks_built,
        final(census).solve_n_calls == old(census).solve_n_calls,
        final(census).eta_passes == old(census).eta_passes,
        final(census).solve_n_passes == old(census).solve_n_passes,
        final(census).capacities_built == old(census).capacities_built,
        final(census).capacities_hits == old(census).capacities_hits,
{
    census.marches = census.marches + 1;
    let ghost c0 = *census;
    let mut clamped: usize = 0;
    let mut i: usize = 0;
    while i < floors.len()
        invariant
            i <= floors.len(),
            2 * floors.len() <= usize::MAX,
            c0.t_floor_fires + floors.len() <= u64::MAX,
            c0.p_floor_fires + floors.len() <= u64::MAX,
            clamped == t_fires(floors@.take(i as int)) + p_fires(floors@.take(i as int)),
            census.t_floor_fires == c0.t_floor_fires + t_fires(floors@.take(i as int)),
            census.p_floor_fires == c0.p_floor_fires + p_fires(floors@.take(i as int)),
            *census == (StackCensus {
                t_floor_fires: census.t_floor_fires,
                p_floor_fires: census.p_floor_fires,
                ..c0
            }),
        decreases floors.len() - i,
    {
        proof {
            let t = floors@.take(i + 1);
            assert(t.drop_last() =~= floors@.take(i as int));
            assert(t.last() == floors@[i as int]);
            lemma_fires_bounded(floors@.take(i as int));
        }
        let (t_fired, p_fired) = floors[i];
        if t_fired {
            clamped = clamped + 1;
            census.t_floor_fires = census.t_floor_fires + 1;
        }
        if p_fired {
            clamped = clamped + 1;
            census.p_floor_fires = census.p_floor_fires + 1;
        }
        i = i + 1;
    }
    assert(floors@.take(floors.len() as int) =~= floors@);
    clamped
}

/// The march's clamp count is exactly what its two per-floor tallies gained: the sum the root
/// check reads can always be split back into the two floors.
pub proof fn clamp_count_splits_into_the_floors(
    before: StackCensus,
    after: StackCensus,
    floors: Seq<(bool, bool)>,
    clamped: nat,
)
    requires
        clamped == t_fires(floors) + p_fires(floors),
        after.t_floor_fires == before.t_floor_fires + t_fires(floors),
        after.p_floor_fires == before.p_floor_fires + p_fires(floors),
    ensures
        clamped == (after.t_floor_fires - before.t_floor_fires) + (after.p_floor_fires
            - before.p_floor_fires),
        clamped == 0 <==> (after.t_floor_fires == before.t_floor_fires && after.p_floor_fires
            == before.p_floor_fires),
{
}

/// The per-row capacity cache: built on FIRST read, not by the constructor, because a stack
/// whose map has no capacity must construct without complaint and refuse only when read.
#[derive(Debug)]
pub struct CapacityCache {
    built: bool,
}

impl CapacityCache {
    /// Whether the rows have been built.
    pub closed spec fn is_built(&self) -> bool {
        self.built
    }

    /// An unbuilt cache.
    pub fn new() -> (c: CapacityCache)
        ensures
            !c.is_built(),
    {
        CapacityCache { built: false }
    }

    /// Read the capacities: the first read builds them and counts a build, every later read
    /// counts a hit. Returns whether this read built them.
    pub fn read(&mut self, census: &mut StackCensus) -> (built_now: bool)
        requires
            !old(self).is_built() ==> old(census).capacities_built < u64::MAX,
            old(self).is_built() ==> old(census).capacities_hits < u64::MAX,
        ensures
            built_now == !old(self).is_built(),
            final(self).is_built(),
            built_now ==> raised(*old(census), *final(census), StackTally::CapacitiesBuilt, 1),
            !built_now ==> raised(*old(census), *final(census), StackTally::CapacitiesHits, 1),
    {
        if self.built {
            bump(census, StackTally::CapacitiesHits);
            false
        } else {
            bump(census, StackTally::CapacitiesBuilt);
            self.built = true;
            true
        }
    }
}

/// `(builds, hits)` counted by `n` reads of a cache that starts built or not, one read at a time
/// as [`CapacityCache::read`] counts it.
pub open spec fn cache_reads(built: bool, n: nat) -> (nat, nat)
    decreases n,
{
    if n == 0 {
        (0, 0)
    } else {
        let rest = cache_reads(true, (n - 1) as nat);
        if built {
            (rest.0, rest.1 + 1)
        } else {
            (rest.0 + 1, rest.1)
        }
    }
}

/// However many times a fresh stack's capacities are read, they are built exactly once: the
/// first read builds, the other `n - 1` hit.
pub proof fn capacities_build_once(n: nat)
    requires
        n >= 1,
    ensures
        cache_reads(false, n) == (1nat, (n - 1) as nat),
        cache_reads(true, n) == (0nat, n),
    decreases n,
{
    let m: nat = (n - 1) as nat;
    if n > 1 {
        capacities_build_once(m);
    } else {
        assert(cache_reads(true, 0) == (0nat, 0nat));
    }
    assert(cache_reads(true, m) == (0nat, m));
    assert(cache_reads(false, n) == (cache_reads(true, m).0 + 1, cache_reads(true, m).1));
    assert(cache_reads(true, n) == (cache_reads(true, m).0, cache_reads(true, m).1 + 1));
}

/// Why the stack's speed-line inversion aborts.
#[derive(Clone, Copy, Debug, PartialEq, Eq, Structural)]
pub enum StackAbort {
    /// The stack cannot reach the pinned work: the bracket does not straddle the root.
    BracketFails,
    /// The root sits where a stage hit a floor: a non-physical region.
    ClampedRoot,
}

/// How a speed-line inversion starts: it is counted, and a one-stage stack dispatches to the
/// lumped block's own inversion (`true`), so the reduce is the same code and not merely close.
pub fn solve_n_dispatch(census: &mut StackCensus, shape: &StackShape) -> (lumped: bool)
    requires
        old(census).solve_n_calls < u64::MAX,
    ensures
        lumped == (shape.k == 1),
        raised(*old(census), *final(census), StackTally::SolveNCalls, 1),
{
    bump(census, StackTally::SolveNCalls);
    shape.k == 1
}

/// The verdict of a multi-stage inversion: the bracket refusal first, then the clamped-root
/// refusal on the march at the root found.
pub fn solve_n_verdict(bracket_ok: bool, root_clamped: usize) -> (r: Option<StackAbort>)
    ensures
        !bracket_ok ==> r == Some(StackAbort::BracketFails),
        bracket_ok && root_clamped != 0 ==> r == Some(StackAbort::ClampedRoot),
        bracket_ok && root_clamped == 0 ==> r is None,
{
    if !bracket_ok {
        Some(StackAbort::BracketFails)
    } else if root_clamped != 0 {
        Some(StackAbort::ClampedRoot)
    } else {
        None
    }
}

} // verus!
