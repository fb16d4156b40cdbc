//! The discrete layer of a two-spool engine transient ladder: the instruments that count what
//! the plant did, the knobs a machine carries from rung to rung, the scope guards that set and
//! restore those knobs, and the arming, dispatch and labelling rules that decide which body runs.
//!
//! Every float the plant computes stays outside this crate; the few the logic only copies,
//! tests for identity or orders (knob values, fuel caps, floors) are held as their IEEE-754 bit
//! patterns. What stands here is the logic that decides on plain values, each function with a
//! contract that pins its result.

pub mod fuel_cap;
pub mod knobs;
pub mod labels;
pub mod reference_split;
pub mod residual_gauge;
pub mod sensed_cap;
pub mod shared_actuator;
pub mod split_wall;
pub mod spool;
pub mod stage;
pub mod state_coordinate;
pub mod zero_counts;
