use tablet_tool::events::{ElementState, Emitted, PointerEvent, ToolEvent, PRESSURE_FULL_SCALE};
use tablet_tool::tablet::{TabletState, ToolState};
use tablet_tool::tool::{resolve_tool, Tool, TOOL_TYPE_ERASER, TOOL_TYPE_PEN};

type Pos = (f64, f64);
type Tilt = (f64, f64);

fn with_pen() -> TabletState<Pos, Tilt> {
    let mut t = TabletState::new();
    assert_eq!(t.announce_tool_type(None, TOOL_TYPE_PEN), Some(Tool::Pen));
    t
}

fn emitted(surface: u64, event: PointerEvent<Pos, Tilt>) -> Option<Emitted<Pos, Tilt>> {
    Some(Emitted { tool: Tool::Pen, surface, event })
}

#[test]
fn resolves_known_tags_only() {
    assert_eq!(resolve_tool(0x140), Some(Tool::Pen));
    assert_eq!(resolve_tool(0x141), Some(Tool::Eraser));
    assert_eq!(resolve_tool(0x142), None);
    assert_eq!(resolve_tool(0), None);
}

#[test]
fn unknown_tag_registers_nothing() {
    let mut t: TabletState<Pos, Tilt> = TabletState::new();
    assert_eq!(t.announce_tool_type(None, 0x146), None);
    assert!(!t.is_registered(Tool::Pen));
    assert!(!t.is_registered(Tool::Eraser));
    assert_eq!(t.handle(Tool::Pen, ToolEvent::ProximityIn(1)), None);
}

#[test]
fn identity_latches_once() {
    let mut t: TabletState<Pos, Tilt> = TabletState::new();
    assert_eq!(t.announce_tool_type(None, TOOL_TYPE_ERASER), Some(Tool::Eraser));
    assert_eq!(t.announce_tool_type(Some(Tool::Eraser), TOOL_TYPE_PEN), None);
    assert!(t.is_registered(Tool::Eraser));
    assert!(!t.is_registered(Tool::Pen));
}

#[test]
fn pressure_alone_reports_nothing() {
    let mut t = with_pen();
    assert!(t.handle(Tool::Pen, ToolEvent::ProximityIn(5)).is_some());
    assert_eq!(t.handle(Tool::Pen, ToolEvent::Pressure(1000)), None);
    assert_eq!(t.handle(Tool::Pen, ToolEvent::Frame), None);
}

#[test]
fn enter_move_frame() {
    let mut t = with_pen();
    assert_eq!(t.handle(Tool::Pen, ToolEvent::ProximityIn(9)), emitted(9, PointerEvent::Entered));
    assert_eq!(t.handle(Tool::Pen, ToolEvent::Motion((20.0, 30.0))), None);
    assert_eq!(t.handle(Tool::Pen, ToolEvent::Pressure(32768)), None);
    assert_eq!(
        t.handle(Tool::Pen, ToolEvent::Frame),
        emitted(9, PointerEvent::Moved { position: (20.0, 30.0), force: Some(32768), tilt: None })
    );
}

#[test]
fn enter_press_frame() {
    let mut t = with_pen();
    assert_eq!(t.handle(Tool::Pen, ToolEvent::ProximityIn(4)), emitted(4, PointerEvent::Entered));
    assert_eq!(t.handle(Tool::Pen, ToolEvent::Pressure(65535)), None);
    assert_eq!(t.handle(Tool::Pen, ToolEvent::Down), None);
    assert_eq!(
        t.handle(Tool::Pen, ToolEvent::Frame),
        emitted(
            4,
            PointerEvent::Button {
                state: ElementState::Pressed,
                position: None,
                force: Some(PRESSURE_FULL_SCALE),
                tilt: None
            }
        )
    );
}

#[test]
fn down_up_same_frame_is_one_press() {
    let mut t = with_pen();
    assert!(t.handle(Tool::Pen, ToolEvent::ProximityIn(2)).is_some());
    assert_eq!(t.handle(Tool::Pen, ToolEvent::Down), None);
    assert_eq!(t.handle(Tool::Pen, ToolEvent::Up), None);
    assert_eq!(
        t.handle(Tool::Pen, ToolEvent::Frame),
        emitted(
            2,
            PointerEvent::Button { state: ElementState::Pressed, position: None, force: None, tilt: None }
        )
    );
    assert_eq!(t.handle(Tool::Pen, ToolEvent::Frame), None);
}

#[test]
fn up_alone_is_release_with_motion_and_tilt() {
    let mut t = with_pen();
    assert!(t.handle(Tool::Pen, ToolEvent::ProximityIn(3)).is_some());
    assert_eq!(t.handle(Tool::Pen, ToolEvent::Tilt((10.5, -4.0))), None);
    assert_eq!(t.handle(Tool::Pen, ToolEvent::Motion((1.0, 2.0))), None);
    assert_eq!(t.handle(Tool::Pen, ToolEvent::Pressure(0)), None);
    assert_eq!(t.handle(Tool::Pen, ToolEvent::Up), None);
    assert_eq!(
        t.handle(Tool::Pen, ToolEvent::Frame),
        emitted(
            3,
            PointerEvent::Button {
                state: ElementState::Released,
                position: Some((1.0, 2.0)),
                force: Some(0),
                tilt: Some((10.5, -4.0))
            }
        )
    );
}

#[test]
fn last_update_within_frame_wins() {
    let mut t = with_pen();
    assert!(t.handle(Tool::Pen, ToolEvent::ProximityIn(3)).is_some());
    t.handle(Tool::Pen, ToolEvent::Motion((1.0, 1.0)));
    t.handle(Tool::Pen, ToolEvent::Motion((5.0, 6.0)));
    t.handle(Tool::Pen, ToolEvent::Pressure(7));
    t.handle(Tool::Pen, ToolEvent::Pressure(8));
    assert_eq!(
        t.handle(Tool::Pen, ToolEvent::Frame),
        emitted(3, PointerEvent::Moved { position: (5.0, 6.0), force: Some(8), tilt: None })
    );
}

#[test]
fn frame_clears_pending_updates() {
    let mut t = with_pen();
    assert!(t.handle(Tool::Pen, ToolEvent::ProximityIn(8)).is_some());
    t.handle(Tool::Pen, ToolEvent::Motion((3.0, 4.0)));
    t.handle(Tool::Pen, ToolEvent::Tilt((1.0, 1.0)));
    assert!(t.handle(Tool::Pen, ToolEvent::Frame).is_some());
    assert_eq!(t.handle(Tool::Pen, ToolEvent::Frame), None);
    assert_eq!(t.owning_surface(Tool::Pen), Some(8));
}

#[test]
fn reduce_frame_clears_even_without_event() {
    let mut s: ToolState<Pos, Tilt> = ToolState::new();
    s.pressure = Some(12);
    s.tilt = Some((2.0, 3.0));
    s.down = true;
    assert_eq!(s.reduce_frame(), None);
    assert_eq!(s.pressure, None);
    assert_eq!(s.tilt, None);
    assert!(!s.down && !s.up);
    assert_eq!(s.motion, None);
}

#[test]
fn leave_without_enter_is_silent() {
    let mut t: TabletState<Pos, Tilt> = TabletState::new();
    t.announce_tool_type(None, TOOL_TYPE_PEN);
    t.announce_tool_type(None, TOOL_TYPE_ERASER);
    assert!(t.handle(Tool::Eraser, ToolEvent::ProximityIn(6)).is_some());
    assert_eq!(t.handle(Tool::Pen, ToolEvent::ProximityOut), None);
    assert_eq!(t.owning_surface(Tool::Eraser), Some(6));
    assert_eq!(t.owning_surface(Tool::Pen), None);
}

#[test]
fn leave_reports_and_clears_surface() {
    let mut t = with_pen();
    assert!(t.handle(Tool::Pen, ToolEvent::ProximityIn(11)).is_some());
    t.handle(Tool::Pen, ToolEvent::Motion((1.0, 1.0)));
    t.handle(Tool::Pen, ToolEvent::Down);
    assert_eq!(t.handle(Tool::Pen, ToolEvent::ProximityOut), emitted(11, PointerEvent::Left));
    assert_eq!(t.owning_surface(Tool::Pen), None);
    assert_eq!(t.handle(Tool::Pen, ToolEvent::Frame), None);
    assert_eq!(t.handle(Tool::Pen, ToolEvent::ProximityOut), None);
}

#[test]
fn motion_before_enter_is_dropped() {
    let mut t = with_pen();
    assert_eq!(t.handle(Tool::Pen, ToolEvent::Motion((50.0, 60.0))), None);
    assert_eq!(t.handle(Tool::Pen, ToolEvent::ProximityIn(1)), emitted(1, PointerEvent::Entered));
    assert_eq!(t.handle(Tool::Pen, ToolEvent::Frame), None);
    t.handle(Tool::Pen, ToolEvent::Down);
    assert_eq!(
        t.handle(Tool::Pen, ToolEvent::Frame),
        emitted(
            1,
            PointerEvent::Button { state: ElementState::Pressed, position: None, force: None, tilt: None }
        )
    );
}

#[test]
fn unregistered_tool_is_ignored() {
    let mut t = with_pen();
    assert_eq!(t.handle(Tool::Eraser, ToolEvent::ProximityIn(1)), None);
    assert_eq!(t.handle(Tool::Eraser, ToolEvent::Frame), None);
    assert!(!t.is_registered(Tool::Eraser));
}

#[test]
fn pressure_scale_end_points() {
    assert_eq!(PRESSURE_FULL_SCALE, 65535);
    let full = PRESSURE_FULL_SCALE as f64 / 65535.0;
    assert_eq!(full, 1.0);
    assert_eq!(0u32 as f64 / PRESSURE_FULL_SCALE as f64, 0.0);
}
