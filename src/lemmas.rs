//! Facts about sequences of tool updates, proved over the step relation.

use vstd::prelude::*;

use crate::events::{ElementState, Emitted, PointerEvent, ToolEvent};
use crate::tablet::{tablet_run, tablet_step, ToolState};
use crate::tool::Tool;

verus! {

/// A frame that follows only a pressure update reports nothing, when no
/// motion or contact change was pending before it.
pub proof fn lemma_pressure_alone_reports_nothing<P, T>(
    tools: Map<Tool, ToolState<P, T>>,
    tool: Tool,
    raw: u32,
)
    requires
        tools.contains_key(tool) ==> (tools[tool].motion is None && !tools[tool].down
            && !tools[tool].up),
    ensures
        tablet_run(tools, tool, seq![ToolEvent::Pressure(raw), ToolEvent::Frame]).1
            == Seq::<Emitted<P, T>>::empty(),
{
    reveal_with_fuel(tablet_run, 3);
    let evs = seq![ToolEvent::<P, T>::Pressure(raw), ToolEvent::Frame];
    assert(evs.drop_first() =~= seq![ToolEvent::<P, T>::Frame]);
    assert(evs.drop_first().drop_first() =~= Seq::<ToolEvent<P, T>>::empty());
}

/// Entering a surface, moving, and a pressure update, committed by one frame,
/// report exactly the entry and then one move carrying that position and
/// force, with no tilt.
pub proof fn lemma_enter_move_frame<P, T>(
    tools: Map<Tool, ToolState<P, T>>,
    tool: Tool,
    surface: u64,
    position: P,
    raw: u32,
)
    requires
        tools.contains_key(tool),
        tools[tool].pending_cleared(),
    ensures
        tablet_run(
            tools,
            tool,
            seq![
                ToolEvent::ProximityIn(surface),
                ToolEvent::Motion(position),
                ToolEvent::Pressure(raw),
                ToolEvent::Frame,
            ],
        ).1 == seq![
            Emitted { tool, surface, event: PointerEvent::<P, T>::Entered },
            Emitted {
                tool,
                surface,
                event: PointerEvent::Moved { position, force: Some(raw), tilt: None },
            },
        ],
{
    reveal_with_fuel(tablet_run, 5);
    let evs = seq![
        ToolEvent::<P, T>::ProximityIn(surface),
        ToolEvent::Motion(position),
        ToolEvent::Pressure(raw),
        ToolEvent::Frame,
    ];
    assert(evs.drop_first() =~= seq![ToolEvent::Motion(position), ToolEvent::Pressure(raw), ToolEvent::Frame]);
    assert(evs.drop_first().drop_first() =~= seq![ToolEvent::Pressure(raw), ToolEvent::Frame]);
    assert(evs.drop_first().drop_first().drop_first() =~= seq![ToolEvent::<P, T>::Frame]);
    assert(evs.drop_first().drop_first().drop_first().drop_first() =~= Seq::<ToolEvent<P, T>>::empty());
    let out = tablet_run(tools, tool, evs).1;
    assert(out =~= seq![
        Emitted { tool, surface, event: PointerEvent::<P, T>::Entered },
        Emitted {
            tool,
            surface,
            event: PointerEvent::Moved { position, force: Some(raw), tilt: None },
        },
    ]);
}

/// Entering a surface, a pressure update and a contact going down, committed
/// by one frame, report exactly the entry and then a press carrying that force
/// and no position or tilt.
pub proof fn lemma_enter_press_frame<P, T>(
    tools: Map<Tool, ToolState<P, T>>,
    tool: Tool,
    surface: u64,
    raw: u32,
)
    requires
        tools.contains_key(tool),
        tools[tool].pending_cleared(),
    ensures
        tablet_run(
            tools,
            tool,
            seq![
                ToolEvent::ProximityIn(surface),
                ToolEvent::Pressure(raw),
                ToolEvent::Down,
                ToolEvent::Frame,
            ],
        ).1 == seq![
            Emitted { tool, surface, event: PointerEvent::<P, T>::Entered },
            Emitted {
                tool,
                surface,
                event: PointerEvent::Button {
                    state: ElementState::Pressed,
                    position: None,
                    force: Some(raw),
                    tilt: None,
                },
            },
        ],
{
    reveal_with_fuel(tablet_run, 5);
    let evs = seq![
        ToolEvent::<P, T>::ProximityIn(surface),
        ToolEvent::Pressure(raw),
        ToolEvent::Down,
        ToolEvent::Frame,
    ];
    assert(evs.drop_first() =~= seq![ToolEvent::Pressure(raw), ToolEvent::Down, ToolEvent::Frame]);
    assert(evs.drop_first().drop_first() =~= seq![ToolEvent::Down, ToolEvent::Frame]);
    assert(evs.drop_first().drop_first().drop_first() =~= seq![ToolEvent::<P, T>::Frame]);
    assert(evs.drop_first().drop_first().drop_first().drop_first() =~= Seq::<ToolEvent<P, T>>::empty());
    let out = tablet_run(tools, tool, evs).1;
    assert(out =~= seq![
        Emitted { tool, surface, event: PointerEvent::<P, T>::Entered },
        Emitted {
            tool,
            surface,
            event: PointerEvent::Button {
                state: ElementState::Pressed,
                position: None,
                force: Some(raw),
                tilt: None,
            },
        },
    ]);
}

/// A contact that goes down and up within one frame reports the entry and a
/// single press: the down transition takes precedence, and no release follows.
pub proof fn lemma_down_up_one_frame<P, T>(
    tools: Map<Tool, ToolState<P, T>>,
    tool: Tool,
    surface: u64,
)
    requires
        tools.contains_key(tool),
        tools[tool].pending_cleared(),
    ensures
        tablet_run(
            tools,
            tool,
            seq![ToolEvent::ProximityIn(surface), ToolEvent::Down, ToolEvent::Up, ToolEvent::Frame],
        ).1 == seq![
            Emitted { tool, surface, event: PointerEvent::<P, T>::Entered },
            Emitted {
                tool,
                surface,
                event: PointerEvent::Button {
                    state: ElementState::Pressed,
                    position: None,
                    force: None,
                    tilt: None,
                },
            },
        ],
{
    reveal_with_fuel(tablet_run, 5);
    let evs = seq![
        ToolEvent::<P, T>::ProximityIn(surface),
        ToolEvent::Down,
        ToolEvent::Up,
        ToolEvent::Frame,
    ];
    assert(evs.drop_first() =~= seq![ToolEvent::Down, ToolEvent::Up, ToolEvent::Frame]);
    assert(evs.drop_first().drop_first() =~= seq![ToolEvent::Up, ToolEvent::Frame]);
    assert(evs.drop_first().drop_first().drop_first() =~= seq![ToolEvent::<P, T>::Frame]);
    assert(evs.drop_first().drop_first().drop_first().drop_first() =~= Seq::<ToolEvent<P, T>>::empty());
    let out = tablet_run(tools, tool, evs).1;
    assert(out =~= seq![
        Emitted { tool, surface, event: PointerEvent::<P, T>::Entered },
        Emitted {
            tool,
            surface,
            event: PointerEvent::Button {
                state: ElementState::Pressed,
                position: None,
                force: None,
                tilt: None,
            },
        },
    ]);
}

/// A committed frame leaves nothing pending, whether or not it reported an
/// event, so a second frame right after it reports nothing.
pub proof fn lemma_frame_clears_pending<P, T>(tools: Map<Tool, ToolState<P, T>>, tool: Tool)
    requires
        tools.contains_key(tool),
    ensures
        tablet_step(tools, tool, ToolEvent::Frame).0[tool].pending_cleared(),
        tablet_step(tablet_step(tools, tool, ToolEvent::Frame).0, tool, ToolEvent::Frame).1 is None,
{
}

/// An update of one tool leaves every other tool's entry as it was.
pub proof fn lemma_step_isolates_tools<P, T>(
    tools: Map<Tool, ToolState<P, T>>,
    tool: Tool,
    event: ToolEvent<P, T>,
    other: Tool,
)
    requires
        other != tool,
    ensures
        tablet_step(tools, tool, event).0.contains_key(other) == tools.contains_key(other),
        tools.contains_key(other) ==> tablet_step(tools, tool, event).0[other] == tools[other],
{
}

/// Leaving proximity while over no surface reports nothing and changes
/// nothing.
pub proof fn lemma_leave_without_enter<P, T>(tools: Map<Tool, ToolState<P, T>>, tool: Tool)
    requires
        tools.contains_key(tool) ==> tools[tool].surface is None,
    ensures
        tablet_step(tools, tool, ToolEvent::ProximityOut) == (tools, None::<Emitted<P, T>>),
{
    if tools.contains_key(tool) {
        assert(tools.insert(tool, tools[tool]) =~= tools);
    }
}

/// Motion reported while over no surface is dropped: the updates that follow
/// it go exactly as if it had never been reported.
pub proof fn lemma_motion_without_surface_dropped<P, T>(
    tools: Map<Tool, ToolState<P, T>>,
    tool: Tool,
    position: P,
    rest: Seq<ToolEvent<P, T>>,
)
    requires
        tools.contains_key(tool) ==> tools[tool].surface is None,
    ensures
        tablet_run(tools, tool, seq![ToolEvent::Motion(position)] + rest) == tablet_run(
            tools,
            tool,
            rest,
        ),
{
    let evs = seq![ToolEvent::Motion(position)] + rest;
    assert(evs[0] == ToolEvent::<P, T>::Motion(position));
    assert(evs.drop_first() =~= rest);
    if tools.contains_key(tool) {
        assert(tools.insert(tool, tools[tool]) =~= tools);
    }
}

} // verus!
