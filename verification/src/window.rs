//! Decisions about the application's native windows: which of them a request is for, and what
//! exactly is asked of it.

use vstd::prelude::*;

use crate::platform::{
    FullscreenState, GraphicsBackend, TerminationMode, WindowId, WindowOptions,
};
use crate::window_open::{is_test_mode, WindowOpening};

verus! {

/// The bit of a native style mask that marks a full-screen window.
pub const FULL_SCREEN_STYLE_MASK: usize = 0x4000;

/// The largest texture that every supported GPU can handle.
pub const MAX_TEXTURE_DIMENSION_2D: u32 = 8192;

/// One of the application's own windows, as it is observed.
#[derive(Debug, Clone, Copy, PartialEq, Eq, Structural)]
pub struct WarpWindow {
    pub window_id: WindowId,
    pub ime_active: bool,
}

/// A native window, as it is observed: one of the application's own, or one that the toolkit put
/// up by itself.
#[derive(Debug, Clone, Copy, PartialEq, Eq, Structural)]
pub enum NativeWindow {
    Warp(WarpWindow),
    Foreign,
}

impl NativeWindow {
    /// The window's ID, if it is one of the application's own.
    pub open spec fn id(self) -> Option<WindowId> {
        match self {
            NativeWindow::Warp(window) => Some(window.window_id),
            NativeWindow::Foreign => None,
        }
    }

    /// Returns the window's ID, if it is one of the application's own.
    pub fn window_id(&self) -> (id: Option<WindowId>)
        ensures
            id == self.id(),
    {
        match *self {
            NativeWindow::Warp(window) => Some(window.window_id),
            NativeWindow::Foreign => None,
        }
    }
}

/// The ID of `window`, if there is a window and it is one of the application's own.
pub open spec fn id_of(window: Option<NativeWindow>) -> Option<WindowId> {
    match window {
        Some(native_window) => native_window.id(),
        None => None,
    }
}

/// The IDs of the application's own windows among `windows`, in order.
pub open spec fn own_ids(windows: Seq<NativeWindow>) -> Seq<WindowId>
    decreases windows.len(),
{
    if windows.len() == 0 {
        seq![]
    } else {
        match windows.last().id() {
            Some(id) => own_ids(windows.drop_last()).push(id),
            None => own_ids(windows.drop_last()),
        }
    }
}

/// The places of the application's own windows among `windows`, in order.
pub open spec fn own_places(windows: Seq<NativeWindow>) -> Seq<usize>
    decreases windows.len(),
{
    if windows.len() == 0 {
        seq![]
    } else if windows.last() is Warp {
        own_places(windows.drop_last()).push((windows.len() - 1) as usize)
    } else {
        own_places(windows.drop_last())
    }
}

/// The place of the first window with ID `window_id` among `windows`.
pub open spec fn place_of(windows: Seq<NativeWindow>, window_id: WindowId) -> Option<usize>
    decreases windows.len(),
{
    if windows.len() == 0 {
        None
    } else if place_of(windows.drop_last(), window_id) is Some {
        place_of(windows.drop_last(), window_id)
    } else if windows.last().id() == Some(window_id) {
        Some((windows.len() - 1) as usize)
    } else {
        None
    }
}

/// A request to a native window. `R` is a rectangle and `A` an opacity.
#[derive(Debug)]
pub enum WindowCommand<R, A> {
    ShowAndFocusApp { bring_to_front: bool },
    Hide,
    SetAlpha(A),
    Close { force_terminate: bool },
    /// Take these bounds, turned from the flipped into the native coordinate system.
    SetBounds(R),
    SetTitle(String),
    SetBackgroundBlurRadius(u8),
    /// Close the input method editor of the window's content view, if it has one.
    CloseIme,
}

/// A request, and the place of the window that it is for.
#[derive(Debug)]
pub struct TargetedCommand<R, A> {
    pub window: usize,
    pub command: WindowCommand<R, A>,
}

/// `command` for the window with ID `window_id`, if there is one.
pub open spec fn targeted<R, A>(
    windows: Seq<NativeWindow>,
    window_id: WindowId,
    command: WindowCommand<R, A>,
) -> Option<TargetedCommand<R, A>> {
    match place_of(windows, window_id) {
        Some(window) => Some(TargetedCommand { window, command }),
        None => None,
    }
}

/// What assistive technology is to be told.
#[derive(Debug)]
pub struct AccessibilityContent<R> {
    pub value: String,
    pub help: Option<String>,
    pub role: String,
    pub frame: Option<R>,
}

/// What a window is told to present to assistive technology.
#[derive(Debug)]
pub struct AccessibilityUpdate<R> {
    pub value: String,
    /// Empty where there is no help.
    pub help: String,
    pub role: String,
    /// Whether `frame` counts.
    pub set_frame: bool,
    /// The frame, turned from the flipped into the native coordinate system. Without one the
    /// window is given an empty frame.
    pub frame: Option<R>,
}

/// Where a save panel starts.
#[derive(Debug)]
pub struct SaveFilePickerConfiguration {
    pub default_directory: Option<String>,
    pub default_filename: Option<String>,
}

/// What a save panel is opened with.
#[derive(Debug)]
pub struct SaveFilePickerRequest {
    pub default_filename: String,
    pub default_directory: String,
}

/// The text of `source`, or none.
pub open spec fn text_or_empty(source: Option<String>) -> Seq<char> {
    match source {
        Some(string) => string@,
        None => Seq::empty(),
    }
}

/// Returns `source`, or the empty string if there is none.
pub fn string_or_empty(source: Option<String>) -> (string: String)
    ensures
        string@ == text_or_empty(source),
{
    match source {
        Some(string) => string,
        None => String::new(),
    }
}

/// Returns what a view presents to assistive technology: the contents of the focused view, or
/// nothing if none has any.
pub fn warp_get_accessibility_contents(focused_content: Option<String>) -> (contents: String)
    ensures
        contents@ == text_or_empty(focused_content),
{
    string_or_empty(focused_content)
}

/// The place of a window, if there is one, is the first with its ID.
pub proof fn place_is_first(windows: Seq<NativeWindow>, window_id: WindowId)
    requires
        windows.len() <= usize::MAX,
    ensures
        match place_of(windows, window_id) {
            Some(place) => {
                &&& place < windows.len()
                &&& windows[place as int].id() == Some(window_id)
                &&& forall|j: int|
                    0 <= j < place ==> (#[trigger] windows[j]).id() != Some(window_id)
            },
            None => forall|j: int|
                0 <= j < windows.len() ==> (#[trigger] windows[j]).id() != Some(window_id),
        },
    decreases windows.len(),
{
    if windows.len() > 0 {
        let rest = windows.drop_last();
        place_is_first(rest, window_id);
        assert forall|j: int| 0 <= j < rest.len() implies (#[trigger] windows[j]) == rest[j] by {}
    }
}

/// What is true of the first window with an ID determines the place.
proof fn lemma_place(windows: Seq<NativeWindow>, window_id: WindowId, place: int)
    requires
        windows.len() <= usize::MAX,
        0 <= place < windows.len(),
        windows[place].id() == Some(window_id),
        forall|j: int| 0 <= j < place ==> (#[trigger] windows[j]).id() != Some(window_id),
    ensures
        place_of(windows, window_id) == Some(place as usize),
{
    place_is_first(windows, window_id);
    match place_of(windows, window_id) {
        Some(found) => {
            assert(windows[found as int].id() == Some(window_id));
        },
        None => {
            assert(windows[place].id() != Some(window_id));
        },
    }
}

/// A window is found exactly if its ID is among the application's own.
pub proof fn found_iff_own(windows: Seq<NativeWindow>, window_id: WindowId)
    ensures
        place_of(windows, window_id) is Some <==> own_ids(windows).contains(window_id),
    decreases windows.len(),
{
    if windows.len() > 0 {
        found_iff_own(windows.drop_last(), window_id);
        let rest = own_ids(windows.drop_last());
        if let Some(id) = windows.last().id() {
            assert(rest.push(id).last() == id);
            if rest.contains(window_id) {
                let i = choose|i: int| 0 <= i < rest.len() && rest[i] == window_id;
                assert(rest.push(id)[i] == window_id);
            }
        }
    }
}

/// The application's native windows.
#[derive(Debug, Clone, Copy)]
pub struct Window;

impl Window {
    /// Starts to open a window. `integration_tests` says that the application runs under
    /// integration tests, `real_display_requested` that those are to use a real display.
    pub fn open<R: Copy, V: Copy>(
        options: WindowOptions<R, V>,
        integration_tests: bool,
        real_display_requested: bool,
    ) -> (opening: WindowOpening<R, V>)
        ensures
            opening.options() == options,
            opening.test_mode() == (integration_tests && !real_display_requested),
            opening.phase() == crate::window_open::OpenPhase::start(
                options.gpu_power_preference,
                integration_tests && !real_display_requested,
            ),
    {
        WindowOpening::new(options, is_test_mode(integration_tests, real_display_requested))
    }

    /// Returns the ID of the key window, if that is one of the application's own.
    pub fn active_window_id(key_window: Option<NativeWindow>) -> (id: Option<WindowId>)
        ensures
            id == id_of(key_window),
    {
        match key_window {
            Some(native_window) => native_window.window_id(),
            None => None,
        }
    }

    /// Returns the ID of the frontmost window, if that is one of the application's own.
    pub fn frontmost_window_id(frontmost_window: Option<NativeWindow>) -> (id: Option<WindowId>)
        ensures
            id == id_of(frontmost_window),
    {
        match frontmost_window {
            Some(native_window) => native_window.window_id(),
            None => None,
        }
    }

    /// Returns whether the key window is a modal panel. `is_modal` is what the key window says of
    /// itself, or `None` if there is no key window.
    pub fn key_window_is_modal_panel(is_modal: Option<bool>) -> (r: bool)
        ensures
            r == (is_modal == Some(true)),
    {
        match is_modal {
            Some(modal) => modal,
            None => false,
        }
    }

    /// Returns the request to close the input method editor of the key window, if that is one of
    /// the application's own.
    pub fn close_ime_on_active_window<R, A>(key_window: Option<NativeWindow>) -> (command: Option<
        WindowCommand<R, A>,
    >)
        ensures
            command == (if id_of(key_window) is Some {
                Some(WindowCommand::<R, A>::CloseIme)
            } else {
                None
            }),
    {
        match key_window {
            Some(NativeWindow::Warp(_)) => Some(WindowCommand::CloseIme),
            _ => None,
        }
    }

    /// Returns whether the key window is one of the application's own and composes text in an
    /// input method editor.
    pub fn is_ime_open(key_window: Option<NativeWindow>) -> (r: bool)
        ensures
            r == (key_window matches Some(NativeWindow::Warp(window)) && window.ime_active),
    {
        match key_window {
            Some(NativeWindow::Warp(window)) => window.ime_active,
            _ => false,
        }
    }

    /// Returns what the key window is to present to assistive technology, if it is one of the
    /// application's own.
    pub fn set_accessibility_contents<R>(
        key_window: Option<NativeWindow>,
        content: AccessibilityContent<R>,
    ) -> (update: Option<AccessibilityUpdate<R>>)
        ensures
            update is Some <==> id_of(key_window) is Some,
            update matches Some(u) ==> {
                &&& u.value == content.value
                &&& u.help@ == text_or_empty(content.help)
                &&& u.role == content.role
                &&& u.set_frame == content.frame is Some
                &&& u.frame == content.frame
            },
    {
        match key_window {
            Some(NativeWindow::Warp(_)) => Some(
                AccessibilityUpdate {
                    value: content.value,
                    help: string_or_empty(content.help),
                    role: content.role,
                    set_frame: content.frame.is_some(),
                    frame: content.frame,
                },
            ),
            _ => None,
        }
    }

    /// Returns what a save panel is opened with.
    pub fn open_save_file_picker(config: SaveFilePickerConfiguration) -> (request:
        SaveFilePickerRequest)
        ensures
            request.default_filename@ == text_or_empty(config.default_filename),
            request.default_directory@ == text_or_empty(config.default_directory),
    {
        SaveFilePickerRequest {
            default_directory: string_or_empty(config.default_directory),
            default_filename: string_or_empty(config.default_filename),
        }
    }

    /// Returns the IDs of the application's own windows among `windows`, in the same order.
    pub fn window_ids(windows: &Vec<NativeWindow>) -> (ids: Vec<WindowId>)
        ensures
            ids@ == own_ids(windows@),
    {
        let mut ids: Vec<WindowId> = Vec::new();
        let mut i: usize = 0;
        while i < windows.len()
            invariant
                i <= windows.len(),
                ids@ == own_ids(windows@.take(i as int)),
            decreases windows.len() - i,
        {
            assert(windows@.take(i + 1).drop_last() =~= windows@.take(i as int));
            if let Some(id) = windows[i].window_id() {
                ids.push(id);
            }
            i += 1;
        }
        assert(windows@.take(i as int) =~= windows@);
        ids
    }

    /// Returns the request to blur the background by `blur_radius_pixels`, and the places of the
    /// windows that it is for: all of the application's own.
    pub fn set_all_windows_background_blur_radius<R, A>(
        windows: &Vec<NativeWindow>,
        blur_radius_pixels: u8,
    ) -> (commands: (Vec<usize>, WindowCommand<R, A>))
        ensures
            commands.0@ == own_places(windows@),
            commands.1 == WindowCommand::<R, A>::SetBackgroundBlurRadius(blur_radius_pixels),
    {
        let mut places: Vec<usize> = Vec::new();
        let mut i: usize = 0;
        while i < windows.len()
            invariant
                i <= windows.len(),
                places@ == own_places(windows@.take(i as int)),
            decreases windows.len() - i,
        {
            assert(windows@.take(i + 1).drop_last() =~= windows@.take(i as int));
            if matches!(windows[i], NativeWindow::Warp(_)) {
                places.push(i);
            }
            i += 1;
        }
        assert(windows@.take(i as int) =~= windows@);
        (places, WindowCommand::SetBackgroundBlurRadius(blur_radius_pixels))
    }

    /// Returns the place of the window identified by `window_id`, if any.
    pub fn find_window_with_id(windows: &Vec<NativeWindow>, window_id: WindowId) -> (place: Option<
        usize,
    >)
        ensures
            place == place_of(windows@, window_id),
    {
        let mut i: usize = 0;
        while i < windows.len()
            invariant
                i <= windows.len(),
                forall|j: int| 0 <= j < i ==> (#[trigger] windows@[j]).id() != Some(window_id),
            decreases windows.len() - i,
        {
            if let Some(id) = windows[i].window_id() {
                if id == window_id {
                    proof {
                        lemma_place(windows@, window_id, i as int);
                    }
                    return Some(i);
                }
            }
            i += 1;
        }
        proof {
            place_is_first(windows@, window_id);
        }
        None
    }

    /// Returns `command` for the window identified by `window_id`, if any.
    fn command_for<R, A>(
        windows: &Vec<NativeWindow>,
        window_id: WindowId,
        command: WindowCommand<R, A>,
    ) -> (r: Option<TargetedCommand<R, A>>)
        ensures
            r == targeted(windows@, window_id, command),
    {
        match Self::find_window_with_id(windows, window_id) {
            Some(window) => Some(TargetedCommand { window, command }),
            None => None,
        }
    }

    /// Returns the request to close the input method editor of a window.
    pub fn close_ime_async<R, A>(windows: &Vec<NativeWindow>, window_id: WindowId) -> (r: Option<
        TargetedCommand<R, A>,
    >)
        ensures
            r == targeted(windows@, window_id, WindowCommand::<R, A>::CloseIme),
    {
        Self::command_for(windows, window_id, WindowCommand::CloseIme)
    }

    /// Returns the request to show a window and make the application active.
    pub fn show_window_and_focus_app<R, A>(
        windows: &Vec<NativeWindow>,
        window_id: WindowId,
        bring_to_front: bool,
    ) -> (r: Option<TargetedCommand<R, A>>)
        ensures
            r == targeted(
                windows@,
                window_id,
                WindowCommand::<R, A>::ShowAndFocusApp { bring_to_front },
            ),
    {
        Self::command_for(windows, window_id, WindowCommand::ShowAndFocusApp { bring_to_front })
    }

    /// Returns the request to hide a window.
    pub fn hide_window<R, A>(windows: &Vec<NativeWindow>, window_id: WindowId) -> (r: Option<
        TargetedCommand<R, A>,
    >)
        ensures
            r == targeted(windows@, window_id, WindowCommand::<R, A>::Hide),
    {
        Self::command_for(windows, window_id, WindowCommand::Hide)
    }

    /// Returns the request to change a window's opacity.
    pub fn set_window_alpha<R, A>(
        windows: &Vec<NativeWindow>,
        window_id: WindowId,
        alpha: A,
    ) -> (r: Option<TargetedCommand<R, A>>)
        ensures
            r == targeted(windows@, window_id, WindowCommand::<R, A>::SetAlpha(alpha)),
    {
        Self::command_for(windows, window_id, WindowCommand::SetAlpha(alpha))
    }

    /// Returns the request to close a window. Only a cancellable termination leaves the window a
    /// say in it.
    pub fn close_window_async<R, A>(
        windows: &Vec<NativeWindow>,
        window_id: WindowId,
        termination_mode: TerminationMode,
    ) -> (r: Option<TargetedCommand<R, A>>)
        ensures
            r == targeted(
                windows@,
                window_id,
                WindowCommand::<R, A>::Close {
                    force_terminate: !(termination_mode is Cancellable),
                },
            ),
    {
        let force_terminate = match termination_mode {
            TerminationMode::Cancellable => false,
            TerminationMode::ForceTerminate | TerminationMode::ContentTransferred => true,
        };
        Self::command_for(windows, window_id, WindowCommand::Close { force_terminate })
    }

    /// Returns the request to move and resize a window.
    pub fn set_window_bounds<R, A>(
        windows: &Vec<NativeWindow>,
        window_id: WindowId,
        bound: R,
    ) -> (r: Option<TargetedCommand<R, A>>)
        ensures
            r == targeted(windows@, window_id, WindowCommand::<R, A>::SetBounds(bound)),
    {
        Self::command_for(windows, window_id, WindowCommand::SetBounds(bound))
    }

    /// Returns the request to retitle a window.
    pub fn set_window_title<R, A>(
        windows: &Vec<NativeWindow>,
        window_id: WindowId,
        title: String,
    ) -> (r: Option<TargetedCommand<R, A>>)
        ensures
            r == targeted(windows@, window_id, WindowCommand::<R, A>::SetTitle(title)),
    {
        Self::command_for(windows, window_id, WindowCommand::SetTitle(title))
    }

    /// Returns whether a window fills its screen, from its native style mask and from whether it is
    /// zoomed. A full-screen window counts as such even if it is zoomed.
    pub fn fullscreen_state(style_mask: usize, zoomed: bool) -> (state: FullscreenState)
        ensures
            state == (if style_mask & FULL_SCREEN_STYLE_MASK == FULL_SCREEN_STYLE_MASK {
                FullscreenState::Fullscreen
            } else if zoomed {
                FullscreenState::Maximized
            } else {
                FullscreenState::Normal
            }),
            state is Fullscreen <==> style_mask & 0x4000 != 0,
            state is Maximized <==> style_mask & 0x4000 == 0 && zoomed,
    {
        assert(style_mask & 0x4000 == 0x4000 || style_mask & 0x4000 == 0) by (bit_vector);
        if style_mask & FULL_SCREEN_STYLE_MASK == FULL_SCREEN_STYLE_MASK {
            FullscreenState::Fullscreen
        } else if zoomed {
            FullscreenState::Maximized
        } else {
            FullscreenState::Normal
        }
    }

    /// Windows can be transparent.
    pub fn supports_transparency() -> (r: bool)
        ensures
            r,
    {
        true
    }

    /// Returns what windows are rendered with.
    pub fn graphics_backend() -> (backend: GraphicsBackend)
        ensures
            backend == GraphicsBackend::Metal,
    {
        GraphicsBackend::Metal
    }

    /// Returns what windows can be rendered with.
    pub fn supported_backends() -> (backends: Vec<GraphicsBackend>)
        ensures
            backends@ == seq![GraphicsBackend::Metal],
    {
        vec![GraphicsBackend::Metal]
    }

    /// The native window frame is never used.
    pub fn uses_native_window_decorations() -> (r: bool)
        ensures
            !r,
    {
        false
    }

    /// Returns the largest supported extent of a texture.
    pub fn max_texture_dimension_2d() -> (dimension: Option<u32>)
        ensures
            dimension == Some(8192u32),
    {
        Some(MAX_TEXTURE_DIMENSION_2D)
    }
}

/// One of the application's own windows is known by its ID, and any other window by none.
pub proof fn own_windows_have_ids(window: WarpWindow)
    ensures
        NativeWindow::Warp(window).id() == Some(window.window_id),
        NativeWindow::Foreign.id() is None,
        id_of(Some(NativeWindow::Warp(window))) == Some(window.window_id),
        id_of(Some(NativeWindow::Foreign)) is None,
        id_of(None) is None,
{
}

/// A string stands for itself, and a missing one for no text.
pub proof fn missing_strings_are_empty(string: String)
    ensures
        text_or_empty(Some(string)) == string@,
        text_or_empty(None).len() == 0,
{
}

/// A request for an ID goes, unchanged, to the first of the application's own windows with that ID.
/// It is dropped exactly if there is no such window.
pub proof fn commands_reach_their_window<R, A>(
    windows: Seq<NativeWindow>,
    window_id: WindowId,
    command: WindowCommand<R, A>,
)
    requires
        windows.len() <= usize::MAX,
    ensures
        match targeted(windows, window_id, command) {
            Some(request) => {
                &&& request.command == command
                &&& request.window < windows.len()
                &&& windows[request.window as int] matches NativeWindow::Warp(own) && own.window_id
                    == window_id
                &&& forall|j: int|
                    0 <= j < request.window ==> ((#[trigger] windows[j]) matches NativeWindow::Warp(
                        own,
                    ) ==> own.window_id != window_id)
            },
            None => forall|j: int|
                0 <= j < windows.len() ==> ((#[trigger] windows[j]) matches NativeWindow::Warp(own)
                    ==> own.window_id != window_id),
        },
{
    place_is_first(windows, window_id);
}

/// The places of the application's own windows are in range and rise, and hold each such window and
/// no other. The IDs are those of the windows at these places, in the same order.
pub proof fn own_windows_are_listed_in_order(windows: Seq<NativeWindow>)
    requires
        windows.len() <= usize::MAX,
    ensures
        ({
            let places = own_places(windows);
            let ids = own_ids(windows);
            &&& ids.len() == places.len()
            &&& forall|k: int|
                0 <= k < places.len() ==> {
                    &&& (#[trigger] places[k]) < windows.len()
                    &&& windows[places[k] as int] matches NativeWindow::Warp(own) && own.window_id
                        == ids[k]
                }
            &&& forall|k: int, l: int|
                0 <= k < l < places.len() ==> #[trigger] places[k] < #[trigger] places[l]
            &&& forall|i: int|
                0 <= i < windows.len() && (#[trigger] windows[i]) is Warp ==> places.contains(
                    i as usize,
                )
        }),
    decreases windows.len(),
{
    if windows.len() > 0 {
        let rest = windows.drop_last();
        own_windows_are_listed_in_order(rest);
        let places = own_places(windows);
        let earlier = own_places(rest);
        assert forall|k: int| 0 <= k < earlier.len() implies (#[trigger] earlier[k]) < rest.len()
            && windows[earlier[k] as int] == rest[earlier[k] as int] by {}
        assert forall|i: int| 0 <= i < windows.len() && (#[trigger] windows[i]) is Warp implies
            places.contains(i as usize) by {
            if i < rest.len() {
                assert(rest[i] is Warp);
                let k = choose|k: int| 0 <= k < earlier.len() && earlier[k] == i as usize;
                assert(places[k] == i as usize);
            } else {
                assert(places.last() == i as usize);
            }
        }
    }
}

} // verus!
