//! The declared knobs a transient machine carries, and the words they take.
//!
//! Each knob holds one of a DECLARED set of values, so the sets are types here: a value outside
//! the declared set is unrepresentable rather than refused at run time. The float knobs are held
//! as IEEE-754 bit patterns: this layer only copies them and tests them for identity, and a bit
//! comparison is exactly the float `==` for every identity test it makes (see
//! [`GAUGE_K_IDENTITY_BITS`]).
use vstd::prelude::*;

verus! {

/// The coordinate the third loop's stator watches: the flow-coefficient floor or the incidence
/// margin.
#[derive(Clone, Copy, Debug, PartialEq, Eq, Structural)]
pub enum Reference {
    /// The incidence margin `M_i = T_c - (1/phi - v)`.
    Inc,
    /// The flow coefficient `phi`.
    Phi,
}

/// Which fuel a leg's requirement is referenced to: the scheduled one or the applied one.
#[derive(Clone, Copy, Debug, PartialEq, Eq, Structural)]
pub enum RefLaw {
    /// The scheduled fuel — the class default.
    Sched,
    /// The applied fuel — what every cascade builder from the sensed-cap rung on writes.
    Applied,
}

/// A coordinate word. The lag coordinate and the phi leg's coordinate share one type because a
/// setter re-aim writes one knob's word into the other (see
/// [`r79_with_coord`](crate::state_coordinate::r79_with_coord)).
#[derive(Clone, Copy, Debug, PartialEq, Eq, Structural)]
pub enum Coordinate {
    /// The flow coefficient.
    Phi,
    /// The incidence margin.
    Incidence,
    /// The clip coordinate: dispatches out of the cap ladder before the cap is consulted.
    Clip,
    /// The demand coordinate.
    Demand,
}

/// The anti-windup law.
#[derive(Clone, Copy, Debug, PartialEq, Eq, Structural)]
pub enum WindupLaw {
    /// No windup law — the class default.
    Off,
    /// The tracking law, which carries its own time constant.
    Track,
}

/// The accel leg's cap law.
#[derive(Clone, Copy, Debug, PartialEq, Eq, Structural)]
pub enum CapLaw {
    /// The set-point solve — the class default and the reduce arm.
    Solve,
    /// The schedule as written, evaluated at the fuel actually burning.
    Sensed,
}

/// How two clips on one shared actuator compose.
#[derive(Clone, Copy, Debug, PartialEq, Eq, Structural)]
pub enum ShareLaw {
    /// Min-select: the larger clip wins. The plant.
    Max,
    /// The clips add: an isolation instrument, never the plant.
    Sum,
}

/// The bit pattern of `1.0_f64`, the identity gauge.
///
/// `1.0` has exactly one encoding and a NaN compares unequal to it, so `k == 1.0` on a float `k`
/// holds exactly when `k.to_bits() == GAUGE_K_IDENTITY_BITS`.
pub const GAUGE_K_IDENTITY_BITS: u64 = 0x3FF0_0000_0000_0000u64;

/// The knobs of one machine. Float-valued knobs are IEEE-754 bit patterns.
#[derive(Clone, Copy, Debug, PartialEq, Eq)]
pub struct Knobs {
    /// The stator reference carrier, set only through a reference scope; `None` at rest.
    pub ref_: Option<Reference>,
    /// The requirement reference law.
    pub ref_law: RefLaw,
    /// The lag coordinate.
    pub lag_coord: Coordinate,
    /// The anti-windup law.
    pub windup_law: WindupLaw,
    /// The tracking law's time constant, when one is set.
    pub tau_t: Option<u64>,
    /// The joint initial condition's iteration cap.
    pub ic_cap: usize,
    /// The accel leg's cap law.
    pub cap_law: CapLaw,
    /// The residual gauge `k`.
    pub gauge_k: u64,
    /// The phi leg's coordinate.
    pub phi_ref: Coordinate,
    /// The airflow legs' own surge margin, when the wall is split.
    pub sm_air: Option<u64>,
    /// The composition law on the shared actuator.
    pub share_law: ShareLaw,
    /// The governor's set point, when a rig arms the governor.
    pub gov_max: Option<u64>,
}

} // verus!

verus! {

/// The rungs whose sibling constructor this crate models, in ladder order.
#[derive(Clone, Copy, Debug, PartialEq, Eq, Structural)]
pub enum Rung {
    /// The reference split.
    R69,
    /// Two loops on one actuator.
    R72,
    /// The sensed cap.
    R76,
    /// The residual gauge.
    R78,
    /// The state coordinate.
    R79,
    /// The split wall — the last rung that defines a sibling constructor.
    R80,
}

/// A rung's place in the ladder.
pub open spec fn rung_rank(r: Rung) -> nat {
    match r {
        Rung::R69 => 0,
        Rung::R72 => 1,
        Rung::R76 => 2,
        Rung::R78 => 3,
        Rung::R79 => 4,
        Rung::R80 => 5,
    }
}

/// The knobs a sibling constructor may carry from its receiver.
#[derive(Clone, Copy, Debug, PartialEq, Eq, Structural)]
pub enum Knob {
    /// [`Knobs::ref_law`].
    RefLaw,
    /// [`Knobs::lag_coord`].
    LagCoord,
    /// [`Knobs::windup_law`].
    WindupLaw,
    /// [`Knobs::tau_t`].
    TauT,
    /// [`Knobs::ic_cap`].
    IcCap,
    /// [`Knobs::cap_law`].
    CapLaw,
    /// [`Knobs::gauge_k`].
    GaugeK,
    /// [`Knobs::phi_ref`].
    PhiRef,
    /// [`Knobs::sm_air`].
    SmAir,
}

/// The first rung whose sibling constructor carries a knob.
pub open spec fn first_carrier(k: Knob) -> Rung {
    match k {
        Knob::GaugeK => Rung::R78,
        Knob::PhiRef => Rung::R79,
        Knob::SmAir => Rung::R80,
        _ => Rung::R76,
    }
}

/// Whether a rung's sibling constructor copies a knob from its receiver onto the machine it
/// builds.
pub open spec fn carries(r: Rung, k: Knob) -> bool {
    rung_rank(r) >= rung_rank(first_carrier(k))
}

/// Whether a rung's cascade builder writes the applied reference law on what it builds.
pub open spec fn builder_applies_ref_law(r: Rung) -> bool {
    rung_rank(r) >= rung_rank(Rung::R76)
}

/// The knobs of the machine a rung's sibling constructor hands back, given its receiver's knobs
/// and the knobs the shared constructor built the new machine with.
pub open spec fn sibling(r: Rung, core: Knobs, built: Knobs) -> Knobs {
    let b_ref_law = if builder_applies_ref_law(r) {
        RefLaw::Applied
    } else {
        built.ref_law
    };
    Knobs {
        ref_: built.ref_,
        ref_law: if carries(r, Knob::RefLaw) {
            core.ref_law
        } else {
            b_ref_law
        },
        lag_coord: if carries(r, Knob::LagCoord) {
            core.lag_coord
        } else {
            built.lag_coord
        },
        windup_law: if carries(r, Knob::WindupLaw) {
            core.windup_law
        } else {
            built.windup_law
        },
        tau_t: if carries(r, Knob::TauT) {
            core.tau_t
        } else {
            built.tau_t
        },
        ic_cap: if carries(r, Knob::IcCap) {
            core.ic_cap
        } else {
            built.ic_cap
        },
        cap_law: if carries(r, Knob::CapLaw) {
            core.cap_law
        } else {
            built.cap_law
        },
        gauge_k: if carries(r, Knob::GaugeK) {
            core.gauge_k
        } else {
            built.gauge_k
        },
        phi_ref: if carries(r, Knob::PhiRef) {
            core.phi_ref
        } else {
            built.phi_ref
        },
        sm_air: if carries(r, Knob::SmAir) {
            core.sm_air
        } else {
            built.sm_air
        },
        share_law: built.share_law,
        gov_max: built.gov_max,
    }
}

/// Whether two machines agree on one knob.
pub open spec fn agree_on(a: Knobs, b: Knobs, k: Knob) -> bool {
    match k {
        Knob::RefLaw => a.ref_law == b.ref_law,
        Knob::LagCoord => a.lag_coord == b.lag_coord,
        Knob::WindupLaw => a.windup_law == b.windup_law,
        Knob::TauT => a.tau_t == b.tau_t,
        Knob::IcCap => a.ic_cap == b.ic_cap,
        Knob::CapLaw => a.cap_law == b.cap_law,
        Knob::GaugeK => a.gauge_k == b.gauge_k,
        Knob::PhiRef => a.phi_ref == b.phi_ref,
        Knob::SmAir => a.sm_air == b.sm_air,
    }
}

/// The knob carry of a rung's sibling constructor, after its cascade builder has run: the
/// builder's reference-law write first, then one copy per carried knob.
pub fn sibling_knobs(r: Rung, core: &Knobs, built: Knobs) -> (m: Knobs)
    ensures
        m == sibling(r, *core, built),
        m.share_law == built.share_law,
        m.ref_ == built.ref_,
        m.gov_max == built.gov_max,
{
    let mut m = built;
    let rank: u8 = match r {
        Rung::R69 => 0,
        Rung::R72 => 1,
        Rung::R76 => 2,
        Rung::R78 => 3,
        Rung::R79 => 4,
        Rung::R80 => 5,
    };
    if rank >= 2 {
        m.ref_law = RefLaw::Applied;
        m.ref_law = core.ref_law;
        m.lag_coord = core.lag_coord;
        m.windup_law = core.windup_law;
        m.tau_t = core.tau_t;
        m.ic_cap = core.ic_cap;
        m.cap_law = core.cap_law;
    }
    if rank >= 3 {
        m.gauge_k = core.gauge_k;
    }
    if rank >= 4 {
        m.phi_ref = core.phi_ref;
    }
    if rank >= 5 {
        m.sm_air = core.sm_air;
    }
    m
}

/// The knob a rung's own shared rig copies from its receiver onto the machine its parent's rig
/// built: each rung from the sensed cap on re-copies the knob it introduced.
pub open spec fn rig_knob(r: Rung) -> Option<Knob> {
    match r {
        Rung::R76 => Some(Knob::CapLaw),
        Rung::R78 => Some(Knob::GaugeK),
        Rung::R79 => Some(Knob::PhiRef),
        Rung::R80 => Some(Knob::SmAir),
        _ => None,
    }
}

/// `m` with knob `k` copied from `core`.
pub open spec fn copy_knob(m: Knobs, core: Knobs, k: Knob) -> Knobs {
    match k {
        Knob::RefLaw => Knobs { ref_law: core.ref_law, ..m },
        Knob::LagCoord => Knobs { lag_coord: core.lag_coord, ..m },
        Knob::WindupLaw => Knobs { windup_law: core.windup_law, ..m },
        Knob::TauT => Knobs { tau_t: core.tau_t, ..m },
        Knob::IcCap => Knobs { ic_cap: core.ic_cap, ..m },
        Knob::CapLaw => Knobs { cap_law: core.cap_law, ..m },
        Knob::GaugeK => Knobs { gauge_k: core.gauge_k, ..m },
        Knob::PhiRef => Knobs { phi_ref: core.phi_ref, ..m },
        Knob::SmAir => Knobs { sm_air: core.sm_air, ..m },
    }
}

/// The knob copy a rung's shared rig makes on the machine handed back to it.
pub fn shared_rig_knob(r: Rung, core: &Knobs, m: Knobs) -> (out: Knobs)
    ensures
        out == (match rig_knob(r) {
            Some(k) => copy_knob(m, *core, k),
            None => m,
        }),
{
    let mut out = m;
    match r {
        Rung::R76 => out.cap_law = core.cap_law,
        Rung::R78 => out.gauge_k = core.gauge_k,
        Rung::R79 => out.phi_ref = core.phi_ref,
        Rung::R80 => out.sm_air = core.sm_air,
        _ => {},
    }
    out
}

/// A shared rig's knob copy changes nothing on a machine its rung's own sibling constructor
/// built: the constructor has already carried the knob.
pub proof fn shared_rig_copy_is_a_no_op(r: Rung, core: Knobs, built: Knobs)
    ensures
        (match rig_knob(r) {
            Some(k) => copy_knob(sibling(r, core, built), core, k),
            None => sibling(r, core, built),
        }) == sibling(r, core, built),
{
}

/// No sibling constructor carries the composition law, the reference carrier or the governor's
/// set point: on every rung those three are the freshly built machine's, whatever the receiver
/// holds.
pub proof fn siblings_never_carry_the_uncarried_knobs(r: Rung, core: Knobs, built: Knobs)
    ensures
        sibling(r, core, built).share_law == built.share_law,
        sibling(r, core, built).ref_ == built.ref_,
        sibling(r, core, built).gov_max == built.gov_max,
{
}

/// The middle siblings are the built machine with exactly their declared knobs taken from the
/// receiver: six for the sensed cap, the gauge added for the residual gauge, the phi leg's
/// coordinate added for the state coordinate. The reference law is the receiver's, so the
/// builder's own write never shows.
pub proof fn middle_siblings_carry_their_declared_knobs(core: Knobs, built: Knobs)
    ensures
        sibling(Rung::R76, core, built) == (Knobs {
            ref_law: core.ref_law,
            lag_coord: core.lag_coord,
            windup_law: core.windup_law,
            tau_t: core.tau_t,
            ic_cap: core.ic_cap,
            cap_law: core.cap_law,
            ..built
        }),
        sibling(Rung::R78, core, built) == (Knobs {
            gauge_k: core.gauge_k,
            ..sibling(Rung::R76, core, built)
        }),
        sibling(Rung::R79, core, built) == (Knobs {
            phi_ref: core.phi_ref,
            ..sibling(Rung::R78, core, built)
        }),
        sibling(Rung::R80, core, built) == (Knobs {
            sm_air: core.sm_air,
            ..sibling(Rung::R79, core, built)
        }),
{
}

/// The last sibling is the built machine with exactly the nine declared knobs taken from the
/// receiver, and nothing else.
pub proof fn last_sibling_is_built_plus_nine_knobs(core: Knobs, built: Knobs)
    ensures
        sibling(Rung::R80, core, built) == (Knobs {
            ref_law: core.ref_law,
            lag_coord: core.lag_coord,
            windup_law: core.windup_law,
            tau_t: core.tau_t,
            ic_cap: core.ic_cap,
            cap_law: core.cap_law,
            gauge_k: core.gauge_k,
            phi_ref: core.phi_ref,
            sm_air: core.sm_air,
            ..built
        }),
{
}

/// A knob one rung's sibling carries, every later rung's sibling carries too: the carry chain
/// only grows up the ladder.
pub proof fn carry_grows_up_the_ladder(a: Rung, b: Rung, k: Knob)
    requires
        rung_rank(a) <= rung_rank(b),
        carries(a, k),
    ensures
        carries(b, k),
{
}

/// A sibling agrees with its receiver on every knob its rung carries, and with the freshly
/// built machine on every other, whatever both hold.
pub proof fn sibling_keeps_carried_knobs(r: Rung, core: Knobs, built: Knobs, k: Knob)
    ensures
        carries(r, k) ==> agree_on(sibling(r, core, built), core, k),
        !carries(r, k) && k != Knob::RefLaw ==> agree_on(sibling(r, core, built), built, k),
{
}

/// The last sibling constructor carries all nine knobs: a machine it builds agrees with its
/// receiver on every one of them.
pub proof fn last_sibling_carries_every_knob(core: Knobs, built: Knobs, k: Knob)
    ensures
        agree_on(sibling(Rung::R80, core, built), core, k),
{
}

/// The two earliest sibling constructors carry nothing: what they hand back is the freshly built
/// machine, every knob of the receiver dropped.
pub proof fn early_siblings_carry_nothing(core: Knobs, built: Knobs)
    ensures
        sibling(Rung::R69, core, built) == built,
        sibling(Rung::R72, core, built) == built,
{
}

} // verus!
