//! The labels a marched point carries: a loop's regime and the shared actuator's authority.
use vstd::prelude::*;

verus! {

/// A floored loop's regime: at its dormant stop, riding strictly inside its band, or at its
/// saturated stop. Carried, never re-derived from the float.
#[derive(Clone, Copy, Debug, PartialEq, Eq, Structural)]
pub enum Regime {
    /// At the dormant stop: the floor already clears.
    Dormant,
    /// Strictly inside the band: the only regime in which the loop is evidence of anything.
    Riding,
    /// At the saturated stop: the floor is violated and the authority is spent.
    Saturated,
}

/// Which fuel-side leg holds a shared actuator under min-select.
#[derive(Clone, Copy, Debug, PartialEq, Eq, Structural)]
pub enum Authority {
    /// Neither leg clips.
    Dormant,
    /// Both clip by the same amount.
    Tie,
    /// The fuel leg's clip is the larger.
    Fuel,
    /// The governor's clip is the larger.
    Gov,
}

} // verus!
