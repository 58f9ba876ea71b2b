use pane_windows::platform::{
    FullscreenState, GPUPowerPreference, WindowBounds, WindowId, WindowOptions, WindowStyle,
};
use pane_windows::window::Window;
use pane_windows::window_open::{
    dealloc_steps, find_integrated, is_test_mode, CreateWindow, DeallocStep, DeviceChoice, FrameRequest, NativeKind,
    OpenAction, OpenError, OpenEvent, OpenPhase, OpenStep, StateHolder, WindowOpening,
};
use pane_windows::window_state::{LayerStep, WindowState};

type Rect = (f32, f32, f32, f32);
type Size = (f32, f32);

fn options() -> WindowOptions<Rect, Size> {
    WindowOptions {
        bounds: WindowBounds::Default,
        style: WindowStyle::Normal,
        fullscreen_state: FullscreenState::Normal,
        gpu_power_preference: GPUPowerPreference::LowPower,
        hide_title_bar: true,
        background_blur_radius_pixels: None,
    }
}

fn creation(opening: &WindowOpening<Rect, Size>) -> CreateWindow<Rect, Size> {
    match opening.action() {
        OpenAction::CreateWindow(request) => request,
        other => panic!("{other:?}"),
    }
}

fn stored() -> Vec<OpenStep> {
    vec![
        OpenStep::BuildState,
        OpenStep::StoreState(StateHolder::NativeWindow),
        OpenStep::StoreState(StateHolder::ContentView),
        OpenStep::StoreState(StateHolder::Delegate),
        OpenStep::BackingPropertiesChanged { async_callback: true },
    ]
}

#[test]
fn low_power_takes_the_first_integrated_device() {
    let mut opening = Window::open(options(), false, false);
    assert_eq!(opening.action(), OpenAction::ScanDevices);
    opening.advance(OpenEvent::DevicesScanned(vec![false, true, true]));
    assert_eq!(creation(&opening).device, DeviceChoice::Scanned(1));
    opening.advance(OpenEvent::WindowCreated(true));
    assert_eq!(opening.action(), OpenAction::Finish);
    assert_eq!(opening.current_phase(), OpenPhase::Opened(DeviceChoice::Scanned(1)));
}

#[test]
fn low_power_falls_back_to_the_default_device() {
    let mut opening = Window::open(options(), false, true);
    opening.advance(OpenEvent::DevicesScanned(vec![false, false]));
    assert_eq!(opening.action(), OpenAction::CreateDefaultDevice);
    opening.advance(OpenEvent::DefaultDevice(true));
    assert_eq!(creation(&opening).device, DeviceChoice::SystemDefault);
}

#[test]
fn no_device_fails() {
    let mut high = options();
    high.gpu_power_preference = GPUPowerPreference::HighPerformance;
    let mut opening = Window::open(high, false, false);
    assert_eq!(opening.action(), OpenAction::CreateDefaultDevice);
    opening.advance(OpenEvent::DefaultDevice(false));
    assert_eq!(opening.action(), OpenAction::Fail(OpenError::NoMetalDevice));
    assert_eq!(OpenError::NoMetalDevice.message(), "could not obtain metal device");
}

#[test]
fn nil_window_fails() {
    let mut opening = Window::open(options(), true, false);
    opening.advance(OpenEvent::WindowCreated(false));
    assert_eq!(opening.action(), OpenAction::Fail(OpenError::NilWindow));
    assert_eq!(OpenError::NilWindow.message(), "WarpWindow returned nil from initializer");
}

#[test]
fn test_mode_needs_no_device() {
    assert!(is_test_mode(true, false));
    assert!(!is_test_mode(true, true));
    assert!(!is_test_mode(false, false));
    let mut opening = Window::open(options(), true, false);
    let request = creation(&opening);
    assert_eq!(request.device, DeviceChoice::NoDevice);
    assert!(request.test_mode);
    opening.advance(OpenEvent::WindowCreated(true));
    let mut expected = stored();
    expected.push(OpenStep::PositionAndOrderFront);
    assert_eq!(opening.completion_steps(), expected);
}

#[test]
fn creation_follows_the_options() {
    let request = creation(&WindowOpening::new(options(), true));
    assert_eq!(
        request,
        CreateWindow {
            kind: NativeKind::Window,
            frame: FrameRequest::DefaultAtZero { width: 1280, height: 800 },
            device: DeviceChoice::NoDevice,
            hide_title_bar: true,
            background_blur_radius_pixels: 1,
            test_mode: true,
        }
    );
    let mut pinned = options();
    pinned.style = WindowStyle::Pin;
    pinned.bounds = WindowBounds::ExactSize((3., 4.));
    pinned.background_blur_radius_pixels = Some(20);
    pinned.hide_title_bar = false;
    let request = creation(&WindowOpening::new(pinned, true));
    assert_eq!(request.kind, NativeKind::PinnedPanel);
    assert_eq!(request.frame, FrameRequest::SizedAtZero((3., 4.)));
    assert_eq!(request.background_blur_radius_pixels, 20);
    assert!(!request.hide_title_bar);
    let mut exact = options();
    exact.bounds = WindowBounds::ExactPosition((1., 2., 3., 4.));
    assert_eq!(
        creation(&WindowOpening::new(exact, true)).frame,
        FrameRequest::FlippedBounds((1., 2., 3., 4.))
    );
}

#[test]
fn completion_places_the_window_by_its_style() {
    let exact = WindowBounds::ExactPosition((1., 2., 3., 4.));
    let front = OpenStep::PositionAndOrderFront;
    for (style, bounds, last) in [
        (WindowStyle::Normal, exact, Some(OpenStep::PositionAtFrameOrigin)),
        (WindowStyle::Pin, exact, Some(OpenStep::PositionAtFrameOrigin)),
        (WindowStyle::Pin, WindowBounds::Default, Some(front)),
        (WindowStyle::Normal, WindowBounds::ExactSize((3., 4.)), Some(front)),
        (WindowStyle::Cascade, exact, Some(front)),
        (WindowStyle::NotStealFocus, exact, None),
        (
            WindowStyle::PositionedNoFocus,
            WindowBounds::Default,
            Some(OpenStep::OrderFrontWithoutFocusAtFrameOrigin),
        ),
    ] {
        let mut o = options();
        o.style = style;
        o.bounds = bounds;
        let mut expected = vec![OpenStep::CreateRenderingDevice(DeviceChoice::SystemDefault)];
        expected.extend(stored());
        expected.extend(last);
        o.gpu_power_preference = GPUPowerPreference::HighPerformance;
        let mut opening = WindowOpening::new(o, false);
        opening.advance(OpenEvent::DefaultDevice(true));
        opening.advance(OpenEvent::WindowCreated(true));
        assert_eq!(opening.completion_steps(), expected);
    }
}

#[test]
fn fullscreen_windows_enqueue_the_transition_first() {
    let mut o = options();
    o.fullscreen_state = FullscreenState::Fullscreen;
    let mut opening = WindowOpening::new(o, true);
    opening.advance(OpenEvent::WindowCreated(true));
    let steps = opening.completion_steps();
    assert_eq!(steps[0], OpenStep::EnqueueFullscreenTransition);
    assert_eq!(steps[1], OpenStep::BuildState);
}

#[test]
fn release_takes_what_opening_stored() {
    assert_eq!(
        dealloc_steps(),
        vec![
            DeallocStep::TakeState(StateHolder::ContentView),
            DeallocStep::TakeState(StateHolder::Delegate),
            DeallocStep::TakeState(StateHolder::NativeWindow),
            DeallocStep::DropState,
        ]
    );
}

type State = WindowState<&'static str, u8, &'static str, u32, &'static str>;

#[test]
fn first_integrated_device_is_found() {
    assert_eq!(find_integrated(&vec![false, true, true]), Some(1));
    assert_eq!(find_integrated(&vec![true]), Some(0));
    assert_eq!(find_integrated(&vec![false, false]), None);
    assert_eq!(find_integrated(&vec![]), None);
}

#[test]
fn opened_windows_start_fresh() {
    let mut opening = Window::open(options(), false, false);
    opening.advance(OpenEvent::DevicesScanned(vec![true]));
    opening.advance(OpenEvent::WindowCreated(true));
    let state: State = opening.build_state(WindowId(9), "app", Some("gpu"), 1);
    assert_eq!(state.id(), WindowId(9));
    assert_eq!(state.callbacks(), &"app");
    assert_eq!(state.device(), Some(&"gpu"));
    assert_eq!(state.resize_renderer(), Some((&1, &"gpu")));
    assert_eq!(state.synthetic_drag_counter(), 0);
    assert!(!state.ime_active());
    assert!(state.frame().is_none());
    assert_eq!(
        state.update_layer(true),
        vec![LayerStep::BuildScene, LayerStep::Render, LayerStep::FrameDrawn]
    );
    let mut opening = Window::open(options(), true, false);
    opening.advance(OpenEvent::WindowCreated(true));
    let state: State = opening.build_state(WindowId(10), "app", None, 1);
    assert_eq!(state.id(), WindowId(10));
    assert_eq!(state.device(), None);
}
