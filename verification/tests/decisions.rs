use iced_resizable_split::split::{mouse_interaction, Axis, Interaction};
use iced_resizable_split::state::{InternalState, PointerEvent, Reaction};
use iced_resizable_split::style::{status, State};
use iced_resizable_split::Status;

fn idle() -> InternalState {
    InternalState::default()
}

fn dragging() -> InternalState {
    InternalState { is_dragging: true, is_hovering: false }
}

const KEEP: Reaction = Reaction { capture: true, publish: false, redraw: false };
const PASS: Reaction = Reaction { capture: false, publish: false, redraw: false };

#[test]
fn default_state_is_idle() {
    let s = idle();
    assert!(!s.is_dragging);
    assert!(!s.is_hovering);
}

#[test]
fn press_on_divider_starts_drag() {
    let mut s = idle();
    let r = s.handle(PointerEvent::LeftPressed { over_divider: true });
    assert_eq!(r, KEEP);
    assert!(s.is_dragging);
}

#[test]
fn press_on_divider_while_dragging_keeps_dragging() {
    let mut s = dragging();
    let r = s.handle(PointerEvent::LeftPressed { over_divider: true });
    assert_eq!(r, KEEP);
    assert!(s.is_dragging);
}

#[test]
fn press_elsewhere_goes_to_panes() {
    let mut s = idle();
    let r = s.handle(PointerEvent::LeftPressed { over_divider: false });
    assert_eq!(r, PASS);
    assert!(!s.is_dragging);

    let mut s = dragging();
    let r = s.handle(PointerEvent::LeftPressed { over_divider: false });
    assert_eq!(r, PASS);
    assert!(s.is_dragging);
}

#[test]
fn release_ends_drag_with_redraw() {
    let mut s = dragging();
    let r = s.handle(PointerEvent::LeftReleased);
    assert_eq!(r, Reaction { capture: true, publish: false, redraw: true });
    assert!(!s.is_dragging);
}

#[test]
fn cursor_left_ends_drag_with_redraw() {
    let mut s = dragging();
    let r = s.handle(PointerEvent::CursorLeft);
    assert_eq!(r, Reaction { capture: true, publish: false, redraw: true });
    assert!(!s.is_dragging);
}

#[test]
fn release_without_drag_goes_to_panes() {
    let mut s = idle();
    assert_eq!(s.handle(PointerEvent::LeftReleased), PASS);
    assert_eq!(s.handle(PointerEvent::CursorLeft), PASS);
    assert!(!s.is_dragging);
}

#[test]
fn move_while_dragging_publishes_when_ratio_changes() {
    let mut s = dragging();
    let r = s.handle(PointerEvent::CursorMoved { divider_moves: true });
    assert_eq!(r, Reaction { capture: true, publish: true, redraw: false });
    assert!(s.is_dragging);

    let r = s.handle(PointerEvent::CursorMoved { divider_moves: false });
    assert_eq!(r, KEEP);
    assert!(s.is_dragging);
}

#[test]
fn move_without_drag_goes_to_panes() {
    let mut s = idle();
    assert_eq!(s.handle(PointerEvent::CursorMoved { divider_moves: true }), PASS);
    assert!(!s.is_dragging);
}

#[test]
fn other_events_go_to_panes() {
    let mut s = dragging();
    assert_eq!(s.handle(PointerEvent::Other), PASS);
    assert!(s.is_dragging);
    let mut s = idle();
    assert_eq!(s.handle(PointerEvent::Other), PASS);
    assert!(!s.is_dragging);
}

#[test]
fn hovering_flag_is_left_alone() {
    let mut s = InternalState { is_dragging: false, is_hovering: true };
    s.handle(PointerEvent::LeftPressed { over_divider: true });
    s.handle(PointerEvent::LeftReleased);
    assert!(s.is_hovering);
}

#[test]
fn full_drag_gesture() {
    let mut s = idle();
    let mut published = 0;
    let events = [
        PointerEvent::CursorMoved { divider_moves: true },
        PointerEvent::LeftPressed { over_divider: true },
        PointerEvent::CursorMoved { divider_moves: true },
        PointerEvent::CursorMoved { divider_moves: false },
        PointerEvent::CursorMoved { divider_moves: true },
        PointerEvent::LeftReleased,
        PointerEvent::CursorMoved { divider_moves: true },
    ];
    for e in events {
        if s.handle(e).publish {
            published += 1;
        }
    }
    assert_eq!(published, 2);
    assert!(!s.is_dragging);
}

#[test]
fn status_prefers_dragging() {
    assert_eq!(status(true, true), State::Dragging);
    assert_eq!(status(true, false), State::Dragging);
    assert_eq!(status(false, true), State::Hovering);
    assert_eq!(status(false, false), State::Idle);
    assert_eq!(status(false, false), Status::Idle);
}

#[test]
fn interaction_follows_axis() {
    assert_eq!(mouse_interaction(Axis::Vertical, true), Interaction::ResizingHorizontally);
    assert_eq!(mouse_interaction(Axis::Horizontal, true), Interaction::ResizingVertically);
    assert_eq!(mouse_interaction(Axis::Vertical, false), Interaction::Unspecified);
    assert_eq!(mouse_interaction(Axis::Horizontal, false), Interaction::Unspecified);
}

#[test]
fn axis_select_and_across() {
    assert_eq!(Axis::Vertical.select(3, 7), 3);
    assert_eq!(Axis::Horizontal.select(3, 7), 7);
    assert_eq!(Axis::Vertical.across(3, 7), 7);
    assert_eq!(Axis::Horizontal.across(3, 7), 3);
}

#[test]
fn axis_orient_round_trip() {
    assert_eq!(Axis::Vertical.orient(5, 9), (5, 9));
    assert_eq!(Axis::Horizontal.orient(5, 9), (9, 5));
    for axis in [Axis::Vertical, Axis::Horizontal] {
        let (x, y) = axis.orient(11, 22);
        assert_eq!(axis.select(x, y), 11);
        assert_eq!(axis.across(x, y), 22);
    }
}

#[test]
fn axis_works_with_floats() {
    let (x, y) = Axis::Horizontal.orient(0.25_f32, 4.0_f32);
    assert_eq!((x, y), (4.0, 0.25));
}
