//! Per-tool accumulation, frame reduction and proximity tracking.

use vstd::prelude::*;

use crate::events::{ElementState, Emitted, PointerEvent, ToolEvent};
use crate::tool::{tool_of_tag, resolve_tool, Tool};

verus! {

/// In-flight state of one tool: the surface it is over, which persists across
/// frames, and the updates pending for the current frame.
pub struct ToolState<P, T> {
    pub surface: Option<u64>,
    pub pressure: Option<u32>,
    pub tilt: Option<T>,
    pub motion: Option<P>,
    pub down: bool,
    pub up: bool,
}

impl<P, T> ToolState<P, T> {
    /// A pending motion is only kept while the tool is over a surface.
    pub open spec fn wf(self) -> bool {
        self.motion is Some ==> self.surface is Some
    }

    /// No update is pending for the current frame.
    pub open spec fn pending_cleared(self) -> bool {
        &&& self.pressure is None
        &&& self.tilt is None
        &&& self.motion is None
        &&& !self.down
        &&& !self.up
    }

    /// The same surface with every pending update dropped.
    pub open spec fn cleared(self) -> Self {
        ToolState {
            surface: self.surface,
            pressure: None,
            tilt: None,
            motion: None,
            down: false,
            up: false,
        }
    }

    /// The event that committing a frame in this state reports, if any.
    pub open spec fn frame_event(self) -> Option<PointerEvent<P, T>> {
        if self.surface is None {
            None
        } else if self.down || self.up {
            Some(
                PointerEvent::Button {
                    state: if self.down {
                        ElementState::Pressed
                    } else {
                        ElementState::Released
                    },
                    position: self.motion,
                    force: self.pressure,
                    tilt: self.tilt,
                },
            )
        } else if self.motion is Some {
            Some(
                PointerEvent::Moved {
                    position: self.motion->Some_0,
                    force: self.pressure,
                    tilt: self.tilt,
                },
            )
        } else {
            None
        }
    }

    /// The next state, and the surface and event reported, after one update.
    /// Leaving proximity forgets the surface and any pending motion, so later
    /// frames stay silent until the tool enters a surface again.
    pub open spec fn step(self, event: ToolEvent<P, T>) -> (Self, Option<(u64, PointerEvent<P, T>)>) {
        match event {
            ToolEvent::Pressure(raw) => (ToolState { pressure: Some(raw), ..self }, None),
            ToolEvent::Tilt(t) => (ToolState { tilt: Some(t), ..self }, None),
            ToolEvent::Motion(p) => {
                if self.surface is Some {
                    (ToolState { motion: Some(p), ..self }, None)
                } else {
                    (self, None)
                }
            },
            ToolEvent::Down => (ToolState { down: true, ..self }, None),
            ToolEvent::Up => (ToolState { up: true, ..self }, None),
            ToolEvent::ProximityIn(s) => (
                ToolState { surface: Some(s), ..self },
                Some((s, PointerEvent::Entered)),
            ),
            ToolEvent::ProximityOut => match self.surface {
                Some(s) => (
                    ToolState { surface: None, motion: None, ..self },
                    Some((s, PointerEvent::Left)),
                ),
                None => (self, None),
            },
            ToolEvent::Frame => match self.frame_event() {
                Some(e) => (self.cleared(), Some((self.surface->Some_0, e))),
                None => (self.cleared(), None),
            },
        }
    }

    /// The state of a freshly identified tool: over no surface, nothing pending.
    pub open spec fn fresh() -> Self {
        ToolState { surface: None, pressure: None, tilt: None, motion: None, down: false, up: false }
    }

    /// A freshly identified tool: over no surface, nothing pending.
    pub fn new() -> (r: Self)
        ensures
            r == Self::fresh(),
    {
        ToolState { surface: None, pressure: None, tilt: None, motion: None, down: false, up: false }
    }

    /// Commits the current frame: reports at most one event and drops every
    /// pending update, keeping the surface.
    pub fn reduce_frame(&mut self) -> (r: Option<PointerEvent<P, T>>)
        ensures
            r == old(self).frame_event(),
            *final(self) == old(self).cleared(),
    {
        let force = self.pressure.take();
        let tilt = self.tilt.take();
        let down = self.down;
        let up = self.up;
        self.down = false;
        self.up = false;
        let motion = self.motion.take();
        if self.surface.is_none() {
            return None;
        }
        if down || up {
            let state = if down {
                ElementState::Pressed
            } else {
                ElementState::Released
            };
            return Some(PointerEvent::Button { state, position: motion, force, tilt });
        }
        match motion {
            Some(position) => Some(PointerEvent::Moved { position, force, tilt }),
            None => None,
        }
    }

    /// Applies one update: stores a property for the current frame, or handles
    /// proximity or a frame marker at once. Returns the surface and event
    /// reported, if any.
    pub fn apply(&mut self, event: ToolEvent<P, T>) -> (r: Option<(u64, PointerEvent<P, T>)>)
        requires
            old(self).wf(),
        ensures
            (*final(self), r) == old(self).step(event),
            final(self).wf(),
    {
        match event {
            ToolEvent::Pressure(raw) => {
                self.pressure = Some(raw);
                None
            },
            ToolEvent::Tilt(t) => {
                self.tilt = Some(t);
                None
            },
            ToolEvent::Motion(p) => {
                if self.surface.is_some() {
                    self.motion = Some(p);
                }
                None
            },
            ToolEvent::Down => {
                self.down = true;
                None
            },
            ToolEvent::Up => {
                self.up = true;
                None
            },
            ToolEvent::ProximityIn(s) => {
                self.surface = Some(s);
                Some((s, PointerEvent::Entered))
            },
            ToolEvent::ProximityOut => match self.surface {
                Some(s) => {
                    self.surface = None;
                    self.motion = None;
                    Some((s, PointerEvent::Left))
                },
                None => None,
            },
            ToolEvent::Frame => {
                let surface = self.surface;
                match self.reduce_frame() {
                    Some(e) => match surface {
                        Some(s) => Some((s, e)),
                        None => None,
                    },
                    None => None,
                }
            },
        }
    }
}

/// The state after one update of `tool`, and the event reported, over a table
/// of identified tools. An update of a tool not in the table changes nothing.
pub open spec fn tablet_step<P, T>(
    tools: Map<Tool, ToolState<P, T>>,
    tool: Tool,
    event: ToolEvent<P, T>,
) -> (Map<Tool, ToolState<P, T>>, Option<Emitted<P, T>>) {
    if tools.contains_key(tool) {
        let (next, out) = tools[tool].step(event);
        (
            tools.insert(tool, next),
            match out {
                Some((surface, e)) => Some(Emitted { tool, surface, event: e }),
                None => None,
            },
        )
    } else {
        (tools, None)
    }
}

/// The table after a whole sequence of updates of `tool`, and the events
/// reported, in order.
pub open spec fn tablet_run<P, T>(
    tools: Map<Tool, ToolState<P, T>>,
    tool: Tool,
    events: Seq<ToolEvent<P, T>>,
) -> (Map<Tool, ToolState<P, T>>, Seq<Emitted<P, T>>)
    decreases events.len(),
{
    if events.len() == 0 {
        (tools, Seq::empty())
    } else {
        let (next, out) = tablet_step(tools, tool, events[0]);
        let (last, rest) = tablet_run(next, tool, events.drop_first());
        (
            last,
            match out {
                Some(e) => seq![e] + rest,
                None => rest,
            },
        )
    }
}

/// The state and latched identity after a tool-type announcement. Only the
/// first recognized announcement for a handle latches an identity; it
/// registers a fresh state for that tool.
pub open spec fn announce<P, T>(
    tools: Map<Tool, ToolState<P, T>>,
    latched: Option<Tool>,
    tag: u32,
    fresh: ToolState<P, T>,
) -> (Map<Tool, ToolState<P, T>>, Option<Tool>) {
    match (latched, tool_of_tag(tag)) {
        (None, Some(t)) => (tools.insert(t, fresh), Some(t)),
        _ => (tools, None),
    }
}

/// The table from each identified tool to its state.
pub struct TabletState<P, T> {
    pen: Option<ToolState<P, T>>,
    eraser: Option<ToolState<P, T>>,
}

impl<P, T> View for TabletState<P, T> {
    type V = Map<Tool, ToolState<P, T>>;

    closed spec fn view(&self) -> Map<Tool, ToolState<P, T>> {
        let with_pen = match self.pen {
            Some(ts) => Map::empty().insert(Tool::Pen, ts),
            None => Map::empty(),
        };
        match self.eraser {
            Some(ts) => with_pen.insert(Tool::Eraser, ts),
            None => with_pen,
        }
    }
}

impl<P, T> TabletState<P, T> {
    /// Every tool state keeps its motion only while over a surface.
    pub open spec fn wf(self) -> bool {
        forall|t: Tool| #[trigger] self@.contains_key(t) ==> self@[t].wf()
    }

    /// An empty table: no tool identified yet.
    pub fn new() -> (r: Self)
        ensures
            r@ == Map::<Tool, ToolState<P, T>>::empty(),
            r.wf(),
    {
        let r = TabletState { pen: None, eraser: None };
        assert(r@ =~= Map::<Tool, ToolState<P, T>>::empty());
        r
    }

    fn take_slot(&mut self, tool: Tool) -> (r: Option<ToolState<P, T>>)
        ensures
            r == (if old(self)@.contains_key(tool) { Some(old(self)@[tool]) } else { None }),
            final(self)@ == old(self)@.remove(tool),
    {
        let r = match tool {
            Tool::Pen => self.pen.take(),
            Tool::Eraser => self.eraser.take(),
        };
        assert(self@ =~= old(self)@.remove(tool));
        r
    }

    fn put_slot(&mut self, tool: Tool, ts: ToolState<P, T>)
        ensures
            final(self)@ == old(self)@.insert(tool, ts),
    {
        match tool {
            Tool::Pen => self.pen = Some(ts),
            Tool::Eraser => self.eraser = Some(ts),
        }
        assert(self@ =~= old(self)@.insert(tool, ts));
    }

    /// Whether `tool` has been identified.
    pub fn is_registered(&self, tool: Tool) -> (r: bool)
        ensures
            r == self@.contains_key(tool),
    {
        match tool {
            Tool::Pen => self.pen.is_some(),
            Tool::Eraser => self.eraser.is_some(),
        }
    }

    /// The surface that `tool` is over, if it is identified and over one.
    pub fn owning_surface(&self, tool: Tool) -> (r: Option<u64>)
        ensures
            r == (if self@.contains_key(tool) { self@[tool].surface } else { None }),
    {
        let slot = match tool {
            Tool::Pen => &self.pen,
            Tool::Eraser => &self.eraser,
        };
        match slot {
            Some(ts) => ts.surface,
            None => None,
        }
    }

    /// Handles a tool-type announcement for a handle whose identity so far is
    /// `latched`. Returns the identity to latch: `Some` only for the first
    /// recognized tag, in which case a fresh state is registered for it.
    pub fn announce_tool_type(&mut self, latched: Option<Tool>, tag: u32) -> (r: Option<Tool>)
        requires
            old(self).wf(),
        ensures
            (final(self)@, r) == announce(old(self)@, latched, tag, ToolState::fresh()),
            final(self).wf(),
    {
        if latched.is_some() {
            return None;
        }
        match resolve_tool(tag) {
            Some(t) => {
                self.put_slot(t, ToolState::new());
                Some(t)
            },
            None => None,
        }
    }

    /// Handles one update of an identified tool: stores it for the current
    /// frame, or reports proximity changes and committed frames at once.
    /// Updates of a tool that is not identified are dropped.
    pub fn handle(&mut self, tool: Tool, event: ToolEvent<P, T>) -> (r: Option<Emitted<P, T>>)
        requires
            old(self).wf(),
        ensures
            (final(self)@, r) == tablet_step(old(self)@, tool, event),
            final(self).wf(),
    {
        match self.take_slot(tool) {
            Some(mut ts) => {
                let out = ts.apply(event);
                self.put_slot(tool, ts);
                assert(self@ =~= old(self)@.insert(tool, ts));
                match out {
                    Some((surface, e)) => Some(Emitted { tool, surface, event: e }),
                    None => None,
                }
            },
            None => None,
        }
    }
}

} // verus!
