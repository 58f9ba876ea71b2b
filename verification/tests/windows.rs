use pane_windows::platform::{
    DisplayIdx, FullscreenState, GraphicsBackend, System, TerminationMode, WindowFocusBehavior,
    WindowId,
};
use pane_windows::synthetic_drag::{DragTick, SyntheticDrag};
use pane_windows::window::{
    warp_get_accessibility_contents, AccessibilityContent, NativeWindow,
    SaveFilePickerConfiguration, TargetedCommand, WarpWindow, Window, WindowCommand,
};
use pane_windows::window_buttons::{PlatformWindow, WindowButtons, WindowExt};
use pane_windows::window_manager::{Desktop, IntegrationTestWindowManager, WindowManager};
use pane_windows::window_open::OpenError;
use pane_windows::window_state::{WindowHandle, WindowState};

type Rect = (f32, f32, f32, f32);
type Targeted = Option<TargetedCommand<Rect, f32>>;

fn warp(id: u64) -> NativeWindow {
    NativeWindow::Warp(WarpWindow { window_id: WindowId(id), ime_active: id % 2 == 1 })
}

fn opened<W>(window: W) -> Result<W, OpenError> {
    Ok(window)
}

type State = WindowState<(), (), (), (), ()>;

fn state(id: u64) -> State {
    WindowState::new(WindowId(id), (), None, None)
}

fn windows() -> Vec<NativeWindow> {
    vec![NativeWindow::Foreign, warp(4), warp(7), NativeWindow::Foreign, warp(4)]
}

fn desktop() -> Desktop {
    Desktop {
        app_is_active: false,
        key_window: Some(warp(7)),
        key_window_is_modal: Some(true),
        frontmost_window: Some(warp(4)),
        windows: windows(),
        ordered_windows: vec![warp(7), NativeWindow::Foreign, warp(4)],
        screen_count: 2,
    }
}

#[test]
fn first_window_with_the_id_is_found() {
    assert_eq!(Window::find_window_with_id(&windows(), WindowId(4)), Some(1));
    assert_eq!(Window::find_window_with_id(&windows(), WindowId(7)), Some(2));
    assert_eq!(Window::find_window_with_id(&windows(), WindowId(5)), None);
    assert_eq!(Window::find_window_with_id(&vec![], WindowId(4)), None);
}

#[test]
fn key_and_frontmost_windows_must_be_own() {
    assert_eq!(Window::active_window_id(Some(warp(7))), Some(WindowId(7)));
    assert_eq!(Window::active_window_id(Some(NativeWindow::Foreign)), None);
    assert_eq!(Window::active_window_id(None), None);
    assert_eq!(Window::frontmost_window_id(Some(warp(4))), Some(WindowId(4)));
    assert_eq!(Window::frontmost_window_id(Some(NativeWindow::Foreign)), None);
    assert_eq!(Window::frontmost_window_id(None), None);
}

#[test]
fn modal_panels_need_a_key_window() {
    assert!(Window::key_window_is_modal_panel(Some(true)));
    assert!(!Window::key_window_is_modal_panel(Some(false)));
    assert!(!Window::key_window_is_modal_panel(None));
}

#[test]
fn ime_is_asked_of_own_windows_only() {
    assert!(Window::is_ime_open(Some(warp(7))));
    assert!(!Window::is_ime_open(Some(warp(4))));
    assert!(!Window::is_ime_open(Some(NativeWindow::Foreign)));
    assert!(!Window::is_ime_open(None));
    let close: Option<WindowCommand<Rect, f32>> =
        Window::close_ime_on_active_window(Some(warp(7)));
    assert!(matches!(close, Some(WindowCommand::CloseIme)));
    let close: Option<WindowCommand<Rect, f32>> =
        Window::close_ime_on_active_window(Some(NativeWindow::Foreign));
    assert!(close.is_none());
}

#[test]
fn commands_reach_the_window_they_name() {
    let all = windows();
    let id = WindowId(7);
    let c: Targeted = Window::close_ime_async(&all, id);
    assert!(matches!(c, Some(TargetedCommand { window: 2, command: WindowCommand::CloseIme })));
    let c: Targeted = Window::hide_window(&all, id);
    assert!(matches!(c, Some(TargetedCommand { window: 2, command: WindowCommand::Hide })));
    let c: Targeted = Window::set_window_alpha(&all, id, 0.5);
    assert!(matches!(c.unwrap().command, WindowCommand::SetAlpha(a) if a == 0.5));
    let c: Targeted = Window::set_window_bounds(&all, id, (1., 2., 3., 4.));
    assert!(matches!(c.unwrap().command, WindowCommand::SetBounds(r) if r == (1., 2., 3., 4.)));
    let c: Targeted = Window::set_window_title(&all, id, "title".to_string());
    assert!(matches!(c.unwrap().command, WindowCommand::SetTitle(t) if t == "title"));
    let c: Targeted = Window::show_window_and_focus_app(&all, id, true);
    assert!(matches!(
        c.unwrap().command,
        WindowCommand::ShowAndFocusApp { bring_to_front: true }
    ));
    let c: Targeted = Window::hide_window(&all, WindowId(8));
    assert!(c.is_none());
}

#[test]
fn only_cancellable_termination_is_not_forced() {
    for (mode, forced) in [
        (TerminationMode::Cancellable, false),
        (TerminationMode::ForceTerminate, true),
        (TerminationMode::ContentTransferred, true),
    ] {
        let c: Targeted = Window::close_window_async(&windows(), WindowId(4), mode);
        let c = c.unwrap();
        assert_eq!(c.window, 1);
        assert!(
            matches!(c.command, WindowCommand::Close { force_terminate } if force_terminate == forced)
        );
    }
}

#[test]
fn blur_radius_goes_to_all_own_windows() {
    let (places, command): (Vec<usize>, WindowCommand<Rect, f32>) =
        Window::set_all_windows_background_blur_radius(&windows(), 9);
    assert_eq!(places, vec![1, 2, 4]);
    assert!(matches!(command, WindowCommand::SetBackgroundBlurRadius(9)));
}

#[test]
fn accessibility_contents_go_to_an_own_key_window() {
    let content = |help: Option<&str>, frame: Option<Rect>| AccessibilityContent {
        value: "value".to_string(),
        help: help.map(str::to_string),
        role: "role".to_string(),
        frame,
    };
    let u = Window::set_accessibility_contents(Some(warp(4)), content(None, None)).unwrap();
    assert_eq!((u.value.as_str(), u.help.as_str(), u.role.as_str()), ("value", "", "role"));
    assert!(!u.set_frame && u.frame.is_none());
    let frame = (0., 1., 2., 3.);
    let u =
        Window::set_accessibility_contents(Some(warp(4)), content(Some("help"), Some(frame)))
            .unwrap();
    assert_eq!(u.help, "help");
    assert!(u.set_frame && u.frame == Some(frame));
    assert!(Window::set_accessibility_contents(None, content(None, None)).is_none());
    assert!(Window::set_accessibility_contents(
        Some(NativeWindow::Foreign),
        content(None, None)
    )
    .is_none());
    assert_eq!(warp_get_accessibility_contents(None), "");
    assert_eq!(warp_get_accessibility_contents(Some("text".to_string())), "text");
}

#[test]
fn save_panel_starts_empty_by_default() {
    let r = Window::open_save_file_picker(SaveFilePickerConfiguration {
        default_directory: Some("/tmp".to_string()),
        default_filename: None,
    });
    assert_eq!((r.default_filename.as_str(), r.default_directory.as_str()), ("", "/tmp"));
    let r = Window::open_save_file_picker(SaveFilePickerConfiguration {
        default_directory: None,
        default_filename: Some("notes.txt".to_string()),
    });
    assert_eq!((r.default_filename.as_str(), r.default_directory.as_str()), ("notes.txt", ""));
}

#[test]
fn fullscreen_counts_before_zoom() {
    assert_eq!(Window::fullscreen_state(0x4000, true), FullscreenState::Fullscreen);
    assert_eq!(Window::fullscreen_state(0xc00f, false), FullscreenState::Fullscreen);
    assert_eq!(Window::fullscreen_state(0x800f, true), FullscreenState::Maximized);
    assert_eq!(Window::fullscreen_state(0, false), FullscreenState::Normal);
}

#[test]
fn windows_have_fixed_abilities() {
    assert!(Window::supports_transparency());
    assert!(!Window::uses_native_window_decorations());
    assert_eq!(Window::graphics_backend(), GraphicsBackend::Metal);
    assert_eq!(Window::supported_backends(), vec![GraphicsBackend::Metal]);
    assert_eq!(Window::max_texture_dimension_2d(), Some(8192));
}

#[test]
fn manager_keeps_the_windows_that_were_opened() {
    let mut manager = WindowManager::new();
    assert_eq!(manager.open_window(WindowId(1), opened("one")), Ok(()));
    assert_eq!(
        manager.open_window(WindowId(2), Err(OpenError::NilWindow)),
        Err(OpenError::NilWindow)
    );
    assert_eq!(manager.platform_window(WindowId(1)), Some(&"one"));
    assert_eq!(manager.platform_window(WindowId(2)), None);
    assert_eq!(manager.open_window(WindowId(1), opened("again")), Ok(()));
    assert_eq!(
        manager.open_window(WindowId(1), Err(OpenError::NoMetalDevice)),
        Err(OpenError::NoMetalDevice)
    );
    assert_eq!(manager.platform_window(WindowId(1)), Some(&"again"));
    manager.remove_window(WindowId(1));
    manager.remove_window(WindowId(3));
    assert_eq!(manager.platform_window(WindowId(1)), None);
}

#[test]
fn cancelling_a_drag_concerns_one_window() {
    let mut manager: WindowManager<State> = WindowManager::new();
    let mut tests: IntegrationTestWindowManager<State> = IntegrationTestWindowManager::new();
    let mut drags = Vec::new();
    for id in [1, 2] {
        let mut window = state(id);
        drags.push(window.schedule_synthetic_drag((0., 0.), 0));
        assert_eq!(tests.open_window(WindowId(id), opened(state(id))), Ok(()));
        assert_eq!(manager.open_window(WindowId(id), opened(window)), Ok(()));
    }
    manager.cancel_synthetic_drag(WindowId(3));
    for id in [1, 2] {
        assert_eq!(manager.platform_window(WindowId(id)).unwrap().synthetic_drag_counter(), 1);
    }
    manager.cancel_synthetic_drag(WindowId(1));
    assert_eq!(manager.platform_window(WindowId(1)).unwrap().synthetic_drag_counter(), 2);
    assert_eq!(manager.platform_window(WindowId(2)).unwrap().synthetic_drag_counter(), 1);
    assert!(manager.platform_window(WindowId(3)).is_none());
    tests.cancel_synthetic_drag(WindowId(2));
    assert_eq!(tests.platform_window(WindowId(1)).unwrap().synthetic_drag_counter(), 0);
    assert_eq!(tests.platform_window(WindowId(2)).unwrap().synthetic_drag_counter(), 1);
    let mut cancelled = state(1);
    let drag: SyntheticDrag<(f32, f32), u8> = cancelled.schedule_synthetic_drag((0., 0.), 0);
    assert_eq!(drag, drags[0]);
    assert_eq!(WindowHandle::next_synthetic_drag_id(&mut cancelled), 2);
    let tick: Option<DragTick<(f32, f32), u8, ()>> = cancelled.resume_synthetic_drag(drag);
    assert!(tick.is_none());
}

#[test]
fn manager_reports_the_desktop() {
    let manager: WindowManager<()> = WindowManager::new();
    let d = desktop();
    assert_eq!(manager.active_window_id(&d), Some(WindowId(7)));
    assert!(manager.key_window_is_modal_panel(&d));
    assert!(!manager.app_is_active(&d));
    assert_eq!(manager.activate_app(&d, Some(WindowId(7))), Some(WindowId(4)));
    assert_eq!(manager.display_count(&d), 2);
    assert_eq!(manager.ordered_window_ids(&d), vec![WindowId(7), WindowId(4)]);
    assert_eq!(manager.windowing_system(), Some(System::AppKit));
    assert_eq!(manager.os_window_manager_name(), None);
    assert!(!manager.is_tiling_window_manager());
    let (places, _): (Vec<usize>, WindowCommand<Rect, f32>) =
        manager.set_all_windows_background_blur_radius(&d, 3);
    assert_eq!(places, vec![1, 2, 4]);
    for (behavior, front) in
        [(WindowFocusBehavior::BringToFront, true), (WindowFocusBehavior::RetainOrder, false)]
    {
        let c: Targeted = manager.show_window_and_focus_app(&d, WindowId(4), behavior);
        assert!(matches!(
            c.unwrap().command,
            WindowCommand::ShowAndFocusApp { bring_to_front } if bring_to_front == front
        ));
    }
}

#[test]
fn displays_are_counted_from_the_primary_one() {
    let manager: WindowManager<()> = WindowManager::new();
    let mut d = desktop();
    assert_eq!(manager.bounds_for_display_idx(&d, DisplayIdx::Primary), Some(0));
    assert_eq!(manager.bounds_for_display_idx(&d, DisplayIdx::External(0)), Some(1));
    assert_eq!(manager.bounds_for_display_idx(&d, DisplayIdx::External(1)), None);
    d.screen_count = 0;
    assert_eq!(manager.bounds_for_display_idx(&d, DisplayIdx::Primary), None);
}

#[test]
fn integration_tests_do_not_rely_on_the_desktop() {
    let mut manager = IntegrationTestWindowManager::new();
    let d = desktop();
    assert_eq!(manager.open_window(WindowId(1), opened('w')), Ok(()));
    assert_eq!(manager.platform_window(WindowId(1)), Some(&'w'));
    assert_eq!(manager.active_window_id(&d), Some(WindowId(4)));
    assert!(!manager.key_window_is_modal_panel());
    assert!(manager.app_is_active());
    assert_eq!(manager.activate_app(&d, None), Some(WindowId(4)));
    assert_eq!(manager.display_count(), 1);
    assert_eq!(manager.bounds_for_display_idx(&d, DisplayIdx::External(0)), Some(1));
    assert_eq!(manager.windowing_system(), None);
    assert_eq!(manager.os_window_manager_name(), None);
    assert!(!manager.is_tiling_window_manager());
    assert_eq!(manager.ordered_window_ids(&d), vec![WindowId(7), WindowId(4)]);
    let (places, _): (Vec<usize>, WindowCommand<Rect, f32>) =
        manager.set_all_windows_background_blur_radius(3);
    assert!(places.is_empty());
    let c: Targeted =
        manager.show_window_and_focus_app(&d, WindowId(4), WindowFocusBehavior::RetainOrder);
    assert_eq!(c.unwrap().window, 1);
    manager.remove_window(WindowId(1));
    assert_eq!(manager.platform_window(WindowId(1)), None);
}

#[test]
fn buttons_are_shown_and_hidden_together() {
    let mut buttons =
        WindowButtons { close: Some(false), miniaturize: Some(false), zoom: None };
    assert!(buttons.has_window_buttons());
    buttons.set_window_buttons(false);
    assert_eq!(buttons, WindowButtons { close: Some(true), miniaturize: Some(true), zoom: None });
    assert!(!buttons.has_window_buttons());
    let bare = WindowButtons { close: None, miniaturize: Some(true), zoom: Some(true) };
    assert!(bare.has_window_buttons());
}

#[test]
fn windows_without_a_native_side_have_buttons() {
    let mut native = PlatformWindow {
        native: Some(WindowButtons { close: Some(true), miniaturize: None, zoom: Some(true) }),
        is_headless: false,
        is_test_window: false,
    };
    assert!(!native.has_window_buttons());
    native.set_window_buttons(true);
    assert!(native.has_window_buttons());
    let mut headless = PlatformWindow { native: None, is_headless: true, is_test_window: false };
    assert!(headless.has_window_buttons());
    headless.set_window_buttons(false);
    assert!(headless.has_window_buttons());
    assert_eq!(headless.native, None);
}
