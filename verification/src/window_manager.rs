//! The windows that the application has open, and what it learns about the desktop.

use std::collections::HashMap;

use vstd::prelude::*;

use crate::platform::{DisplayIdx, System, WindowFocusBehavior, WindowId};
#[allow(unused_imports)]
use crate::synthetic_drag::{cancelled_drags_never_go_on, DragLoops, DragOp};
#[allow(unused_imports)]
use crate::window::{id_of, own_ids, own_places, targeted};
use crate::window::{NativeWindow, TargetedCommand, Window, WindowCommand};
use crate::window_state::WindowHandle;
#[allow(unused_imports)]
use crate::window_state::WindowModel;

verus! {

broadcast use vstd::std_specs::hash::group_hash_axioms;

/// What is observed of the desktop.
#[derive(Debug)]
pub struct Desktop {
    pub app_is_active: bool,
    pub key_window: Option<NativeWindow>,
    /// What the key window says of itself, if there is one.
    pub key_window_is_modal: Option<bool>,
    pub frontmost_window: Option<NativeWindow>,
    /// All windows of the application.
    pub windows: Vec<NativeWindow>,
    /// All windows of the application, from front to back.
    pub ordered_windows: Vec<NativeWindow>,
    pub screen_count: usize,
}

/// The place of a display among the screens.
pub open spec fn screen_place(display_idx: DisplayIdx) -> int {
    match display_idx {
        DisplayIdx::Primary => 0,
        DisplayIdx::External(idx) => idx + 1,
    }
}

/// The states of `windows`.
pub open spec fn states<W: WindowHandle>(windows: Map<WindowId, W>) -> Map<
    WindowId,
    WindowModel<W::Device, W::RendererManager, W::Scene, W::CaptureCallback, W::Callbacks>,
> {
    Map::new(|id: WindowId| windows.contains_key(id), |id: WindowId| windows[id].state())
}

/// `windows` after the synthetic drag of one of them was cancelled.
pub open spec fn cancelled<D, M, S, C, B>(
    windows: Map<WindowId, WindowModel<D, M, S, C, B>>,
    window_id: WindowId,
) -> Map<WindowId, WindowModel<D, M, S, C, B>> {
    if windows.contains_key(window_id) {
        windows.insert(window_id, windows[window_id].superseded())
    } else {
        windows
    }
}

/// Manages the open windows. `W` is what the caller holds for each of them.
#[derive(Debug)]
pub struct WindowManager<W> {
    windows: HashMap<u64, W>,
}

impl<W> View for WindowManager<W> {
    type V = Map<WindowId, W>;

    closed spec fn view(&self) -> Map<WindowId, W> {
        Map::new(
            |id: WindowId| self.windows@.contains_key(id.0),
            |id: WindowId| self.windows@[id.0],
        )
    }
}

impl<W> WindowManager<W> {
    /// Returns a manager without windows.
    pub fn new() -> (manager: Self)
        ensures
            manager@ == Map::<WindowId, W>::empty(),
    {
        let manager = Self { windows: HashMap::new() };
        assert(manager@ =~= Map::<WindowId, W>::empty());
        manager
    }

    /// Returns the open window identified by `window_id`.
    pub fn platform_window(&self, window_id: WindowId) -> (window: Option<&W>)
        ensures
            window is Some <==> self@.contains_key(window_id),
            window matches Some(w) ==> *w == self@[window_id],
    {
        self.windows.get(&window_id.0)
    }

    /// Takes over a window that was opened as `window_id`, in place of any earlier one with that
    /// ID. A failure to open it is passed on, and changes nothing.
    pub fn open_window<E>(&mut self, window_id: WindowId, opened: Result<W, E>) -> (r: Result<
        (),
        E,
    >)
        ensures
            match opened {
                Ok(window) => r == Ok::<(), E>(()) && final(self)@ == old(self)@.insert(
                    window_id,
                    window,
                ),
                Err(error) => r == Err::<(), E>(error) && final(self)@ == old(self)@,
            },
    {
        match opened {
            Ok(window) => {
                self.windows.insert(window_id.0, window);
                assert(self@ =~= old(self)@.insert(window_id, window));
                Ok(())
            },
            Err(error) => Err(error),
        }
    }

    /// Forgets the window identified by `window_id`.
    pub fn remove_window(&mut self, window_id: WindowId)
        ensures
            final(self)@ == old(self)@.remove(window_id),
    {
        self.windows.remove(&window_id.0);
        assert(self@ =~= old(self)@.remove(window_id));
    }

    /// Returns the ID of the key window, if that is one of the application's own.
    pub fn active_window_id(&self, desktop: &Desktop) -> (id: Option<WindowId>)
        ensures
            id == id_of(desktop.key_window),
    {
        Window::active_window_id(desktop.key_window)
    }

    /// Returns whether the key window is a modal panel.
    pub fn key_window_is_modal_panel(&self, desktop: &Desktop) -> (r: bool)
        ensures
            r == (desktop.key_window_is_modal == Some(true)),
    {
        Window::key_window_is_modal_panel(desktop.key_window_is_modal)
    }

    /// Returns whether the application is active.
    pub fn app_is_active(&self, desktop: &Desktop) -> (r: bool)
        ensures
            r == desktop.app_is_active,
    {
        desktop.app_is_active
    }

    /// Returns the window that gets the focus when the application was just activated: the
    /// frontmost one, whatever window was active last.
    pub fn activate_app(&self, desktop: &Desktop, _last_active_window: Option<WindowId>) -> (id: Option<
        WindowId,
    >)
        ensures
            id == id_of(desktop.frontmost_window),
    {
        Window::frontmost_window_id(desktop.frontmost_window)
    }

    /// Returns the request to show a window and make the application active.
    pub fn show_window_and_focus_app<R, A>(
        &self,
        desktop: &Desktop,
        window_id: WindowId,
        behavior: WindowFocusBehavior,
    ) -> (r: Option<TargetedCommand<R, A>>)
        ensures
            r == targeted(
                desktop.windows@,
                window_id,
                WindowCommand::<R, A>::ShowAndFocusApp {
                    bring_to_front: behavior is BringToFront,
                },
            ),
    {
        if matches!(behavior, WindowFocusBehavior::BringToFront) {
            Window::show_window_and_focus_app(&desktop.windows, window_id, true)
        } else {
            Window::show_window_and_focus_app(&desktop.windows, window_id, false)
        }
    }

    /// Returns the request to blur the background, and the places of the windows that it is for.
    pub fn set_all_windows_background_blur_radius<R, A>(
        &self,
        desktop: &Desktop,
        blur_radius_pixels: u8,
    ) -> (commands: (Vec<usize>, WindowCommand<R, A>))
        ensures
            commands.0@ == own_places(desktop.windows@),
            commands.1 == WindowCommand::<R, A>::SetBackgroundBlurRadius(blur_radius_pixels),
    {
        Window::set_all_windows_background_blur_radius(&desktop.windows, blur_radius_pixels)
    }

    /// Returns the number of displays.
    pub fn display_count(&self, desktop: &Desktop) -> (count: usize)
        ensures
            count == desktop.screen_count,
    {
        desktop.screen_count
    }

    /// Returns the place of the screen whose bounds are those of the display, if there is one. The
    /// primary display comes first, and the external ones follow.
    pub fn bounds_for_display_idx(&self, desktop: &Desktop, display_idx: DisplayIdx) -> (place: Option<
        usize,
    >)
        requires
            screen_place(display_idx) <= usize::MAX,
        ensures
            place == (if screen_place(display_idx) < desktop.screen_count {
                Some(screen_place(display_idx) as usize)
            } else {
                None
            }),
    {
        let idx: usize = match display_idx {
            DisplayIdx::Primary => 0,
            DisplayIdx::External(idx) => idx + 1,
        };
        if idx >= desktop.screen_count {
            return None;
        }
        Some(idx)
    }

    /// Returns the system that windows live in.
    pub fn windowing_system(&self) -> (system: Option<System>)
        ensures
            system == Some(System::AppKit),
    {
        Some(System::AppKit)
    }

    /// The system has no separate window manager with a name.
    pub fn os_window_manager_name(&self) -> (name: Option<String>)
        ensures
            name is None,
    {
        None
    }

    /// Windows are not tiled.
    pub fn is_tiling_window_manager(&self) -> (r: bool)
        ensures
            !r,
    {
        false
    }

    /// Returns the IDs of the application's own windows, from front to back.
    pub fn ordered_window_ids(&self, desktop: &Desktop) -> (ids: Vec<WindowId>)
        ensures
            ids@ == own_ids(desktop.ordered_windows@),
    {
        Window::window_ids(&desktop.ordered_windows)
    }
}

impl<W: WindowHandle> WindowManager<W> {
    /// Cancels any synthetic drag of the given window: the window gives out another drag ID, so
    /// that a running drag sees a mismatched ID and ends at its next turn.
    ///
    /// While a tab is dragged, a synthetic drag follows the cursor across windows. When the tab is
    /// handed off to another window or the drag is finished, the old drag must not go on driving
    /// the window that it came from.
    pub fn cancel_synthetic_drag(&mut self, window_id: WindowId)
        requires
            old(self)@.contains_key(window_id) ==> old(self)@[window_id].state().drag_counter
                < usize::MAX,
        ensures
            states(final(self)@) == cancelled(states(old(self)@), window_id),
            final(self)@.dom() == old(self)@.dom(),
            forall|id: WindowId|
                id != window_id && old(self)@.contains_key(id) ==> #[trigger] final(self)@[id]
                    == old(self)@[id],
    {
        if let Some(found) = self.windows.remove(&window_id.0) {
            let mut window = found;
            window.next_synthetic_drag_id();
            self.windows.insert(window_id.0, window);
        }
        assert(self@.dom() =~= old(self)@.dom());
        assert(states(self@) =~= cancelled(states(old(self)@), window_id));
    }
}

/// Manages the open windows in integration tests, which do not rely on the real desktop: the
/// application counts as active, and its frontmost window as the key window.
#[derive(Debug)]
pub struct IntegrationTestWindowManager<W> {
    window_manager: WindowManager<W>,
}

impl<W> View for IntegrationTestWindowManager<W> {
    type V = Map<WindowId, W>;

    closed spec fn view(&self) -> Map<WindowId, W> {
        self.window_manager@
    }
}

impl<W> IntegrationTestWindowManager<W> {
    /// Returns a manager without windows.
    pub fn new() -> (manager: Self)
        ensures
            manager@ == Map::<WindowId, W>::empty(),
    {
        Self { window_manager: WindowManager::new() }
    }

    /// Returns the open window identified by `window_id`.
    pub fn platform_window(&self, window_id: WindowId) -> (window: Option<&W>)
        ensures
            window is Some <==> self@.contains_key(window_id),
            window matches Some(w) ==> *w == self@[window_id],
    {
        self.window_manager.platform_window(window_id)
    }

    /// Takes over a window that was opened as `window_id`, in place of any earlier one with that
    /// ID. A failure to open it is passed on, and changes nothing.
    pub fn open_window<E>(&mut self, window_id: WindowId, opened: Result<W, E>) -> (r: Result<
        (),
        E,
    >)
        ensures
            match opened {
                Ok(window) => r == Ok::<(), E>(()) && final(self)@ == old(self)@.insert(
                    window_id,
                    window,
                ),
                Err(error) => r == Err::<(), E>(error) && final(self)@ == old(self)@,
            },
    {
        self.window_manager.open_window(window_id, opened)
    }

    /// Forgets the window identified by `window_id`.
    pub fn remove_window(&mut self, window_id: WindowId)
        ensures
            final(self)@ == old(self)@.remove(window_id),
    {
        self.window_manager.remove_window(window_id)
    }

    /// Returns the ID of the frontmost window, if that is one of the application's own.
    pub fn active_window_id(&self, desktop: &Desktop) -> (id: Option<WindowId>)
        ensures
            id == id_of(desktop.frontmost_window),
    {
        Window::frontmost_window_id(desktop.frontmost_window)
    }

    /// The key window is never a modal panel.
    pub fn key_window_is_modal_panel(&self) -> (r: bool)
        ensures
            !r,
    {
        false
    }

    /// The application is always active.
    pub fn app_is_active(&self) -> (r: bool)
        ensures
            r,
    {
        true
    }

    /// Returns the window that gets the focus when the application was just activated.
    pub fn activate_app(&self, desktop: &Desktop, last_active_window: Option<WindowId>) -> (id: Option<
        WindowId,
    >)
        ensures
            id == id_of(desktop.frontmost_window),
    {
        self.window_manager.activate_app(desktop, last_active_window)
    }

    /// Returns the request to show a window and make the application active.
    pub fn show_window_and_focus_app<R, A>(
        &self,
        desktop: &Desktop,
        window_id: WindowId,
        behavior: WindowFocusBehavior,
    ) -> (r: Option<TargetedCommand<R, A>>)
        ensures
            r == targeted(
                desktop.windows@,
                window_id,
                WindowCommand::<R, A>::ShowAndFocusApp {
                    bring_to_front: behavior is BringToFront,
                },
            ),
    {
        self.window_manager.show_window_and_focus_app(desktop, window_id, behavior)
    }

    /// Returns the request to blur the background, and the places of the windows that it is for:
    /// none.
    pub fn set_all_windows_background_blur_radius<R, A>(&self, blur_radius_pixels: u8) -> (commands: (
        Vec<usize>,
        WindowCommand<R, A>,
    ))
        ensures
            commands.0@ == Seq::<usize>::empty(),
            commands.1 == WindowCommand::<R, A>::SetBackgroundBlurRadius(blur_radius_pixels),
    {
        (Vec::new(), WindowCommand::SetBackgroundBlurRadius(blur_radius_pixels))
    }

    /// There is one display.
    pub fn display_count(&self) -> (count: usize)
        ensures
            count == 1,
    {
        1
    }

    /// Returns the place of the screen whose bounds are those of the display, if there is one.
    pub fn bounds_for_display_idx(&self, desktop: &Desktop, display_idx: DisplayIdx) -> (place: Option<
        usize,
    >)
        requires
            screen_place(display_idx) <= usize::MAX,
        ensures
            place == (if screen_place(display_idx) < desktop.screen_count {
                Some(screen_place(display_idx) as usize)
            } else {
                None
            }),
    {
        self.window_manager.bounds_for_display_idx(desktop, display_idx)
    }

    /// Tests do not rely on the system that windows live in.
    pub fn windowing_system(&self) -> (system: Option<System>)
        ensures
            system is None,
    {
        None
    }

    /// The system has no separate window manager with a name.
    pub fn os_window_manager_name(&self) -> (name: Option<String>)
        ensures
            name is None,
    {
        None
    }

    /// Windows are not tiled.
    pub fn is_tiling_window_manager(&self) -> (r: bool)
        ensures
            !r,
    {
        false
    }

    /// Returns the IDs of the application's own windows, from front to back.
    pub fn ordered_window_ids(&self, desktop: &Desktop) -> (ids: Vec<WindowId>)
        ensures
            ids@ == own_ids(desktop.ordered_windows@),
    {
        self.window_manager.ordered_window_ids(desktop)
    }
}

impl<W: WindowHandle> IntegrationTestWindowManager<W> {
    /// Cancels any synthetic drag of the given window: the window gives out another drag ID.
    pub fn cancel_synthetic_drag(&mut self, window_id: WindowId)
        requires
            old(self)@.contains_key(window_id) ==> old(self)@[window_id].state().drag_counter
                < usize::MAX,
        ensures
            states(final(self)@) == cancelled(states(old(self)@), window_id),
            final(self)@.dom() == old(self)@.dom(),
            forall|id: WindowId|
                id != window_id && old(self)@.contains_key(id) ==> #[trigger] final(self)@[id]
                    == old(self)@[id],
    {
        self.window_manager.cancel_synthetic_drag(window_id)
    }
}

/// Cancelling the drag of a window ends each drag that the window has given an ID to, and leaves
/// the drags of all other windows as they were. Without such a window it changes nothing.
pub proof fn cancelling_ends_the_drags_of_one_window<D, M, S, C, B>(
    windows: Map<WindowId, WindowModel<D, M, S, C, B>>,
    window_id: WindowId,
    other: WindowId,
    drag_id: nat,
)
    requires
        windows.contains_key(other),
        drag_id <= windows[other].drag_counter,
    ensures
        cancelled(windows, window_id).contains_key(other),
        other == window_id ==> !cancelled(windows, window_id)[other].continues(drag_id),
        other != window_id ==> cancelled(windows, window_id)[other] == windows[other],
        !windows.contains_key(window_id) ==> cancelled(windows, window_id) == windows,
{
}

/// On its window, a cancelled drag is one that was superseded: it never goes on again, whatever
/// happens to the window afterwards.
pub proof fn cancelling_is_for_good<D, M, S, C, B>(
    windows: Map<WindowId, WindowModel<D, M, S, C, B>>,
    window_id: WindowId,
    drags: DragLoops<D, M, S, C, B>,
    i: int,
    ops: Seq<DragOp>,
)
    requires
        windows.contains_key(window_id),
        drags.window == windows[window_id],
        drags.well_formed(),
        0 <= i < drags.waiting.len(),
        (DragLoops { window: cancelled(windows, window_id)[window_id], ..drags }).all_enabled(ops),
    ensures
        !(DragLoops { window: cancelled(windows, window_id)[window_id], ..drags }).after_all(
            ops,
        ).window.continues(drags.waiting[i]),
{
    cancelled_drags_never_go_on(drags, i, ops);
}

/// The primary display is the first screen, and each external one comes after those before it.
pub proof fn screens_follow_the_primary(idx: usize)
    ensures
        screen_place(DisplayIdx::Primary) == 0,
        screen_place(DisplayIdx::External(idx)) == idx + 1,
{
}

/// Every registered window has a state, namely its own, and no other does.
pub proof fn states_are_those_of_the_windows<W: WindowHandle>(
    windows: Map<WindowId, W>,
    id: WindowId,
)
    ensures
        states(windows).contains_key(id) <==> windows.contains_key(id),
        windows.contains_key(id) ==> states(windows)[id] == windows[id].state(),
{
}

/// Cancelling the drag of a registered window raises its drag counter by one and changes nothing
/// else about it. No window comes or goes, and no other window changes.
pub proof fn cancelling_gives_out_one_id<D, M, S, C, B>(
    windows: Map<WindowId, WindowModel<D, M, S, C, B>>,
    window_id: WindowId,
    other: WindowId,
)
    ensures
        ({
            let after = cancelled(windows, window_id);
            &&& after.dom() == windows.dom()
            &&& other != window_id && windows.contains_key(other) ==> after[other]
                == windows[other]
            &&& windows.contains_key(window_id) ==> {
                &&& after[window_id].drag_counter == windows[window_id].drag_counter + 1
                &&& after[window_id] == (WindowModel {
                    drag_counter: after[window_id].drag_counter,
                    ..windows[window_id]
                })
            }
        }),
{
    assert(cancelled(windows, window_id).dom() =~= windows.dom());
}

} // verus!
