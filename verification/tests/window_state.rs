use pane_windows::events::{
    drag_and_drop, file_drag, file_drag_exit, insert_text, marked_text_cleared,
    marked_text_updated, nsrange_to_rust_range, Event, NSRange,
};
use pane_windows::platform::WindowId;
use pane_windows::resizing::{
    dispatch_window_resized, view_did_change_backing_properties, view_set_frame_size,
    warp_app_window_moved, Dispatch, ResizeStep, WindowCallback,
};
use pane_windows::synthetic_drag::{DragTick, SyntheticDrag};
use pane_windows::window_state::{handled, LayerStep, ViewEventOutcome, WindowState};

type State = WindowState<&'static str, u8, &'static str, u32, &'static str>;
type Position = (f32, f32);
type ViewEvent = Event<Position, u8, &'static str>;
type Outcome = ViewEventOutcome<Position, u8, &'static str>;
type Tick = Option<DragTick<Position, u8, &'static str>>;

fn state() -> State {
    WindowState::new(WindowId(5), "app", Some("gpu"), Some(1))
}

fn building() -> Vec<LayerStep> {
    vec![LayerStep::BuildScene, LayerStep::Render, LayerStep::FrameDrawn]
}

fn dragged() -> Option<ViewEvent> {
    Some(Event::LeftMouseDragged { position: (1.5, 2.5), modifiers: 3 })
}

#[test]
fn new_window_has_nothing_to_show() {
    let s = state();
    assert_eq!(s.id(), WindowId(5));
    assert_eq!(s.callbacks(), &"app");
    assert_eq!(s.device(), Some(&"gpu"));
    assert!(!s.ime_active());
    assert_eq!(s.synthetic_drag_counter(), 0);
    assert_eq!(s.update_layer(true), building());
    assert!(s.frame().is_none());
    assert_eq!(s.resize_renderer(), Some((&1, &"gpu")));
    let bare: State = WindowState::new(WindowId(6), "app", None, Some(1));
    assert_eq!(bare.device(), None);
    assert_eq!(bare.resize_renderer(), None);
    let unmanaged: State = WindowState::new(WindowId(6), "app", Some("gpu"), None);
    assert_eq!(unmanaged.resize_renderer(), None);
}

#[test]
fn ime_state_is_kept() {
    let mut s = state();
    s.update_ime_state(true);
    assert!(s.ime_active());
    s.update_ime_state(false);
    assert!(!s.ime_active());
}

#[test]
fn rendered_scene_is_drawn() {
    let mut s = state();
    s.render_scene("scene");
    assert_eq!(s.update_layer(false), vec![]);
    assert_eq!(s.update_layer(true), vec![LayerStep::Render, LayerStep::FrameDrawn]);
    let frame = s.frame().unwrap();
    assert_eq!((*frame.scene, *frame.device, *frame.renderer_manager), ("scene", "gpu", 1));
}

#[test]
fn redraw_builds_a_new_scene() {
    let mut s = state();
    s.render_scene("old");
    s.request_redraw();
    assert_eq!(s.update_layer(true), building());
    assert_eq!(s.update_layer(false), vec![]);
    s.request_redraw();
    s.scene_built("new");
    assert_eq!(s.update_layer(true), vec![LayerStep::Render, LayerStep::FrameDrawn]);
    assert_eq!(*s.frame().unwrap().scene, "new");
}

#[test]
fn last_capture_request_counts() {
    let mut s = state();
    assert_eq!(s.take_capture_callback(), None);
    s.render_scene("scene");
    s.request_frame_capture(7);
    s.request_frame_capture(8);
    assert_eq!(s.take_capture_callback(), Some(8));
    assert_eq!(s.take_capture_callback(), None);
    assert_eq!(*s.frame().unwrap().scene, "scene");
}

#[test]
fn drags_repeat_until_the_mouse_is_released() {
    let mut s = state();
    let outcome: Outcome = s.handle_view_event(dragged(), false);
    let drag = outcome.synthetic_drag.unwrap();
    assert_eq!(
        drag,
        SyntheticDrag { drag_id: 1, delay_millis: 16, position: (1.5, 2.5), modifiers: 3 }
    );
    assert!(matches!(outcome.dispatch, Some(Event::LeftMouseDragged { .. })));
    let tick: Tick = s.resume_synthetic_drag(drag);
    let tick = tick.unwrap();
    assert_eq!(tick.next.drag_id, 2);
    assert_eq!(tick.next.delay_millis, 16);
    assert!(matches!(
        tick.event,
        Event::LeftMouseDragged { position, modifiers: 3 } if position == (1.5, 2.5)
    ));
    let again: Tick = s.resume_synthetic_drag(drag);
    assert!(again.is_none());
    let up: Outcome = s.handle_view_event(Some(Event::LeftMouseUp("up")), false);
    assert!(up.synthetic_drag.is_none());
    assert!(matches!(up.dispatch, Some(Event::LeftMouseUp("up"))));
    let ended: Tick = s.resume_synthetic_drag(tick.next);
    assert!(ended.is_none());
    assert_eq!(s.synthetic_drag_counter(), 3);
}

#[test]
fn new_drag_supersedes_the_old_one() {
    let mut s = state();
    let first: SyntheticDrag<Position, u8> = s.schedule_synthetic_drag((0., 0.), 0);
    let second: SyntheticDrag<Position, u8> = s.schedule_synthetic_drag((1., 1.), 0);
    let tick: Tick = s.resume_synthetic_drag(first);
    assert!(tick.is_none());
    let tick: Tick = s.resume_synthetic_drag(second);
    assert!(tick.is_some());
}

#[test]
fn cancelled_drag_ends() {
    let mut s = state();
    let drag: SyntheticDrag<Position, u8> = s.schedule_synthetic_drag((0., 0.), 0);
    assert_eq!(s.next_synthetic_drag_id(), 2);
    let tick: Tick = s.resume_synthetic_drag(drag);
    assert!(tick.is_none());
}

#[test]
fn key_presses_learn_whether_text_is_composed() {
    let mut s = state();
    for composing in [true, false] {
        let outcome: Outcome = s.handle_view_event(
            Some(Event::KeyDown { is_composing: !composing, details: "a" }),
            composing,
        );
        assert!(matches!(
            outcome.dispatch,
            Some(Event::KeyDown { is_composing, details: "a" }) if is_composing == composing
        ));
    }
    assert_eq!(s.synthetic_drag_counter(), 0);
}

#[test]
fn other_events_are_dispatched_as_they_are() {
    let mut s = state();
    let outcome: Outcome = s.handle_view_event(Some(Event::Other("scroll")), true);
    assert!(matches!(outcome.dispatch, Some(Event::Other("scroll"))));
    assert!(handled(outcome.dispatch.map(|_| true)));
    let outcome: Outcome = s.handle_view_event(None, true);
    assert!(outcome.dispatch.is_none());
    assert!(!handled(None));
    assert!(!handled(Some(false)));
}

#[test]
fn first_mouse_event_starts_no_drag() {
    let s = state();
    let outcome: Outcome = s.handle_first_mouse_event(dragged());
    assert!(outcome.synthetic_drag.is_none());
    assert!(matches!(outcome.dispatch, Some(Event::LeftMouseDragged { .. })));
    assert_eq!(s.synthetic_drag_counter(), 0);
}

#[test]
fn ranges_end_where_their_length_says() {
    assert_eq!(nsrange_to_rust_range(NSRange { location: 3, length: 4 }), 3..7);
    assert_eq!(nsrange_to_rust_range(NSRange { location: 0, length: 0 }), 0..0);
    let event: ViewEvent =
        marked_text_updated("kana".to_string(), NSRange { location: 1, length: 2 });
    assert!(matches!(
        event,
        Event::SetMarkedText { marked_text, selected_range }
            if marked_text == "kana" && selected_range == (1..3)
    ));
}

#[test]
fn view_callbacks_become_events() {
    let event: ViewEvent = insert_text("x".to_string());
    assert!(matches!(event, Event::TypedCharacters { chars } if chars == "x"));
    let event: ViewEvent = drag_and_drop(vec!["/a".to_string(), "/b".to_string()], (1., 2.));
    assert!(matches!(
        event,
        Event::DragAndDropFiles { paths, location } if paths == ["/a", "/b"] && location == (1., 2.)
    ));
    let event: ViewEvent = file_drag((3., 4.));
    assert!(matches!(event, Event::DragFiles { location } if location == (3., 4.)));
    let event: ViewEvent = file_drag_exit();
    assert!(matches!(event, Event::DragFileExit));
    let event: ViewEvent = marked_text_cleared();
    assert!(matches!(event, Event::ClearMarkedText));
}

#[test]
fn busy_application_is_told_of_a_resize_later() {
    for (force_async, available, now) in
        [(false, true, true), (true, true, false), (false, false, false), (true, false, false)]
    {
        let dispatch: Dispatch<u8> = dispatch_window_resized(force_async, available);
        if now {
            assert_eq!(dispatch, Dispatch::Now(WindowCallback::Resized));
            assert_eq!(dispatch.resume(true), None);
        } else {
            assert_eq!(dispatch, Dispatch::Deferred(WindowCallback::Resized));
            assert_eq!(dispatch.resume(true), Some(WindowCallback::Resized));
            assert_eq!(dispatch.resume(false), None);
        }
    }
}

#[test]
fn moves_are_told_later() {
    let dispatch = warp_app_window_moved((1., 2.));
    assert_eq!(dispatch, Dispatch::Deferred(WindowCallback::Moved((1., 2.))));
    assert_eq!(dispatch.resume(true), Some(WindowCallback::Moved((1., 2.))));
}

#[test]
fn views_are_resized_before_the_application_is_told() {
    let resize = ResizeStep::ResizeRenderer;
    assert_eq!(
        view_did_change_backing_properties(false, true),
        vec![
            ResizeStep::SetContentsScale,
            ResizeStep::SetDrawableSize,
            resize,
            ResizeStep::DispatchWindowResized { force_async: true },
        ]
    );
    assert_eq!(
        view_did_change_backing_properties(true, false),
        vec![
            ResizeStep::SetContentsScale,
            resize,
            ResizeStep::DispatchWindowResized { force_async: false },
        ]
    );
    assert_eq!(
        view_set_frame_size(false),
        vec![
            ResizeStep::SetDrawableSize,
            resize,
            ResizeStep::DispatchWindowResized { force_async: false },
        ]
    );
}
