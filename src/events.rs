//! Inbound tool updates and outbound pointer events.

use vstd::prelude::*;

use crate::tool::Tool;

verus! {

/// Full-scale raw pressure value: a raw pressure `r` stands for the
/// normalized force `r / PRESSURE_FULL_SCALE`.
pub const PRESSURE_FULL_SCALE: u32 = 65535;

/// One raw property update or marker for a single tool.
///
/// `P` is a physical position and `T` a pair of tilt angles; both are carried
/// through verbatim.
#[derive(Clone, Debug, PartialEq)]
pub enum ToolEvent<P, T> {
    Pressure(u32),
    Tilt(T),
    Motion(P),
    Down,
    Up,
    ProximityIn(u64),
    ProximityOut,
    Frame,
}

/// Whether a contact button went down or up.
#[derive(Clone, Copy, Debug, PartialEq, Eq, Structural)]
pub enum ElementState {
    Pressed,
    Released,
}

/// A consolidated pointer event. `force` is a raw pressure value over
/// `PRESSURE_FULL_SCALE`.
#[derive(Clone, Debug, PartialEq)]
pub enum PointerEvent<P, T> {
    Entered,
    Left,
    Moved { position: P, force: Option<u32>, tilt: Option<T> },
    Button { state: ElementState, position: Option<P>, force: Option<u32>, tilt: Option<T> },
}

/// A pointer event tagged with the tool that caused it and its target surface.
#[derive(Clone, Debug, PartialEq)]
pub struct Emitted<P, T> {
    pub tool: Tool,
    pub surface: u64,
    pub event: PointerEvent<P, T>,
}

} // verus!
