//! Opening a window: which GPU it renders with, what it is created from, and what is done to it
//! before it is shown; and what is undone when it goes away.
//!
//! Opening alternates between decisions and native work. [`WindowOpening`] makes the decisions: it
//! says which [`OpenAction`] comes next, and takes the [`OpenEvent`] that answers it.

use vstd::prelude::*;

use crate::platform::{
    FullscreenState, GPUPowerPreference, WindowBounds, WindowId, WindowOptions, WindowStyle,
};
#[allow(unused_imports)]
use crate::window_state::WindowModel;
use crate::window_state::WindowState;

verus! {

/// The width of a window without given bounds.
pub const INITIAL_WINDOW_WIDTH: u32 = 1280;

/// The height of a window without given bounds.
pub const INITIAL_WINDOW_HEIGHT: u32 = 800;

/// The blur radius of a window that asks for none.
pub const DEFAULT_WINDOW_BACKGROUND_BLUR_RADIUS: u8 = 1;

/// The GPU that a window renders with.
#[derive(Debug, Clone, Copy, PartialEq, Eq, Structural)]
pub enum DeviceChoice {
    /// None: the window has no real display.
    NoDevice,
    /// The one with this index among all devices.
    Scanned(usize),
    /// The system's default device.
    SystemDefault,
}

/// Why a window could not be opened.
#[derive(Debug, Clone, Copy, PartialEq, Eq, Structural)]
pub enum OpenError {
    NoMetalDevice,
    NilWindow,
}

impl OpenError {
    /// Returns a description of the error.
    pub fn message(&self) -> (text: &'static str)
        ensures
            text@ == (match *self {
                OpenError::NoMetalDevice => "could not obtain metal device"@,
                OpenError::NilWindow => "WarpWindow returned nil from initializer"@,
            }),
    {
        match *self {
            OpenError::NoMetalDevice => "could not obtain metal device",
            OpenError::NilWindow => "WarpWindow returned nil from initializer",
        }
    }
}

/// The frame that a native window is created with.
#[derive(Debug, Clone, Copy, PartialEq, Eq)]
pub enum FrameRequest<R, V> {
    /// These bounds, turned from the flipped into the native coordinate system.
    FlippedBounds(R),
    /// This size, at the origin.
    SizedAtZero(V),
    /// This size, at the origin.
    DefaultAtZero { width: u32, height: u32 },
}

/// The native class of a window.
#[derive(Debug, Clone, Copy, PartialEq, Eq, Structural)]
pub enum NativeKind {
    Window,
    /// A panel, which is moved to its pinned position as soon as it is created.
    PinnedPanel,
}

/// What a native window is created from.
#[derive(Debug, Clone, Copy, PartialEq, Eq)]
pub struct CreateWindow<R, V> {
    pub kind: NativeKind,
    pub frame: FrameRequest<R, V>,
    pub device: DeviceChoice,
    pub hide_title_bar: bool,
    pub background_blur_radius_pixels: u8,
    pub test_mode: bool,
}

/// Native work that opening a window waits for, or its end.
#[derive(Debug, Clone, Copy, PartialEq, Eq)]
pub enum OpenAction<R, V> {
    /// List all devices, and find out which are integrated.
    ScanDevices,
    /// Ask for the system's default device.
    CreateDefaultDevice,
    /// Create the native window.
    CreateWindow(CreateWindow<R, V>),
    /// Carry out the completion steps: the window is open.
    Finish,
    /// The window cannot be opened.
    Fail(OpenError),
}

/// What came of an [`OpenAction`].
#[derive(Debug)]
pub enum OpenEvent {
    /// Of each device, in order, whether it is integrated.
    DevicesScanned(Vec<bool>),
    /// Whether there is a default device.
    DefaultDevice(bool),
    /// Whether the native window was created.
    WindowCreated(bool),
}

/// How far the opening of a window has come.
#[derive(Debug, Clone, Copy, PartialEq, Eq, Structural)]
pub enum OpenPhase {
    ScanningDevices,
    CreatingDefaultDevice,
    CreatingWindow(DeviceChoice),
    Opened(DeviceChoice),
    Failed(OpenError),
}

/// An object on the native side that holds a reference to a window's state.
#[derive(Debug, Clone, Copy, PartialEq, Eq, Structural)]
pub enum StateHolder {
    NativeWindow,
    ContentView,
    Delegate,
}

/// A step that completes the opening of a window.
#[derive(Debug, Clone, Copy, PartialEq, Eq, Structural)]
pub enum OpenStep {
    EnqueueFullscreenTransition,
    /// Set up rendering with the chosen device.
    CreateRenderingDevice(DeviceChoice),
    /// Build the state of the window; see [`WindowOpening::build_state`].
    BuildState,
    /// Let the holder hold a reference to the state.
    StoreState(StateHolder),
    /// Take over the backing scale for the first time. This reads the state that the content view
    /// holds.
    BackingPropertiesChanged { async_callback: bool },
    /// Move the window to the origin of its frame.
    PositionAtFrameOrigin,
    /// Center the window or cascade it from the previous one, and bring it to the front.
    PositionAndOrderFront,
    /// Bring the window to the front at the origin of its frame, without the focus.
    OrderFrontWithoutFocusAtFrameOrigin,
}

/// A step of releasing a native window.
#[derive(Debug, Clone, Copy, PartialEq, Eq, Structural)]
pub enum DeallocStep {
    /// Clear the holder's reference to the state.
    TakeState(StateHolder),
    /// Drop the last of the references that were taken.
    DropState,
}

/// The index of the first integrated device.
pub open spec fn first_integrated(integrated: Seq<bool>) -> Option<usize> {
    if exists|i: int| 0 <= i < integrated.len() && #[trigger] integrated[i] {
        Some(
            (choose|i: int|
                0 <= i < integrated.len() && #[trigger] integrated[i] && forall|j: int|
                    0 <= j < i ==> !#[trigger] integrated[j]) as usize,
        )
    } else {
        None
    }
}

/// The frame for `bounds`.
pub open spec fn frame_for<R, V>(bounds: WindowBounds<R, V>) -> FrameRequest<R, V> {
    match bounds {
        WindowBounds::ExactPosition(rect) => FrameRequest::FlippedBounds(rect),
        WindowBounds::ExactSize(size) => FrameRequest::SizedAtZero(size),
        WindowBounds::Default => FrameRequest::DefaultAtZero {
            width: INITIAL_WINDOW_WIDTH,
            height: INITIAL_WINDOW_HEIGHT,
        },
    }
}

/// What the window is created from.
pub open spec fn creation<R, V>(
    options: WindowOptions<R, V>,
    test_mode: bool,
    device: DeviceChoice,
) -> CreateWindow<R, V> {
    CreateWindow {
        kind: if options.style is Pin {
            NativeKind::PinnedPanel
        } else {
            NativeKind::Window
        },
        frame: frame_for(options.bounds),
        device,
        hide_title_bar: options.hide_title_bar,
        background_blur_radius_pixels: match options.background_blur_radius_pixels {
            Some(radius) => radius,
            None => DEFAULT_WINDOW_BACKGROUND_BLUR_RADIUS,
        },
        test_mode,
    }
}

/// How the window is placed once it is set up.
pub open spec fn placement<R, V>(options: WindowOptions<R, V>) -> Seq<OpenStep> {
    match options.style {
        WindowStyle::Normal | WindowStyle::Pin => if options.bounds is ExactPosition {
            seq![OpenStep::PositionAtFrameOrigin]
        } else {
            seq![OpenStep::PositionAndOrderFront]
        },
        WindowStyle::Cascade => seq![OpenStep::PositionAndOrderFront],
        WindowStyle::NotStealFocus => seq![],
        WindowStyle::PositionedNoFocus => seq![OpenStep::OrderFrontWithoutFocusAtFrameOrigin],
    }
}

/// The steps that complete the opening, in order.
pub open spec fn completion<R, V>(
    options: WindowOptions<R, V>,
    device: DeviceChoice,
) -> Seq<OpenStep> {
    let fullscreen = if options.fullscreen_state is Fullscreen {
        seq![OpenStep::EnqueueFullscreenTransition]
    } else {
        seq![]
    };
    let rendering = if device is NoDevice {
        seq![]
    } else {
        seq![OpenStep::CreateRenderingDevice(device)]
    };
    fullscreen + rendering + seq![
        OpenStep::BuildState,
        OpenStep::StoreState(StateHolder::NativeWindow),
        OpenStep::StoreState(StateHolder::ContentView),
        OpenStep::StoreState(StateHolder::Delegate),
        OpenStep::BackingPropertiesChanged { async_callback: true },
    ] + placement(options)
}

/// The steps that release a native window, in order.
pub open spec fn deallocation() -> Seq<DeallocStep> {
    seq![
        DeallocStep::TakeState(StateHolder::ContentView),
        DeallocStep::TakeState(StateHolder::Delegate),
        DeallocStep::TakeState(StateHolder::NativeWindow),
        DeallocStep::DropState,
    ]
}

impl OpenPhase {
    /// Where opening starts.
    pub open spec fn start(preference: GPUPowerPreference, test_mode: bool) -> OpenPhase {
        if test_mode {
            OpenPhase::CreatingWindow(DeviceChoice::NoDevice)
        } else if preference is LowPower {
            OpenPhase::ScanningDevices
        } else {
            OpenPhase::CreatingDefaultDevice
        }
    }

    /// `event` answers what this phase waits for.
    pub open spec fn awaits(self, event: OpenEvent) -> bool {
        match event {
            OpenEvent::DevicesScanned(_) => self is ScanningDevices,
            OpenEvent::DefaultDevice(_) => self is CreatingDefaultDevice,
            OpenEvent::WindowCreated(_) => self is CreatingWindow,
        }
    }

    /// Where `event` leads from here.
    pub open spec fn after(self, event: OpenEvent) -> OpenPhase
        recommends
            self.awaits(event),
    {
        match event {
            OpenEvent::DevicesScanned(integrated) => match first_integrated(integrated@) {
                Some(i) => OpenPhase::CreatingWindow(DeviceChoice::Scanned(i)),
                None => OpenPhase::CreatingDefaultDevice,
            },
            OpenEvent::DefaultDevice(true) => OpenPhase::CreatingWindow(
                DeviceChoice::SystemDefault,
            ),
            OpenEvent::DefaultDevice(false) => OpenPhase::Failed(OpenError::NoMetalDevice),
            OpenEvent::WindowCreated(true) => OpenPhase::Opened(self->CreatingWindow_0),
            OpenEvent::WindowCreated(false) => OpenPhase::Failed(OpenError::NilWindow),
        }
    }

    /// This phase can come up in the given mode: a window has no device exactly in test mode, where
    /// none is looked for.
    pub open spec fn suits(self, test_mode: bool) -> bool {
        match self {
            OpenPhase::ScanningDevices => !test_mode,
            OpenPhase::CreatingDefaultDevice => !test_mode,
            OpenPhase::CreatingWindow(device) => device is NoDevice <==> test_mode,
            OpenPhase::Opened(device) => device is NoDevice <==> test_mode,
            OpenPhase::Failed(error) => error is NoMetalDevice ==> !test_mode,
        }
    }

    /// What this phase has the caller do.
    pub open spec fn action<R, V>(
        self,
        options: WindowOptions<R, V>,
        test_mode: bool,
    ) -> OpenAction<R, V> {
        match self {
            OpenPhase::ScanningDevices => OpenAction::ScanDevices,
            OpenPhase::CreatingDefaultDevice => OpenAction::CreateDefaultDevice,
            OpenPhase::CreatingWindow(device) => OpenAction::CreateWindow(
                creation(options, test_mode, device),
            ),
            OpenPhase::Opened(device) => OpenAction::Finish,
            OpenPhase::Failed(error) => OpenAction::Fail(error),
        }
    }
}

/// Returns whether windows are opened without a display: in integration tests, unless a real
/// display was asked for.
pub fn is_test_mode(integration_tests: bool, real_display_requested: bool) -> (test_mode: bool)
    ensures
        test_mode == (integration_tests && !real_display_requested),
{
    integration_tests && !real_display_requested
}

/// Returns the index of the first integrated device.
pub fn find_integrated(integrated: &Vec<bool>) -> (found: Option<usize>)
    ensures
        found == first_integrated(integrated@),
        match found {
            Some(i) => {
                &&& i < integrated.len()
                &&& integrated@[i as int]
                &&& forall|j: int| 0 <= j < i ==> !#[trigger] integrated@[j]
            },
            None => forall|j: int| 0 <= j < integrated.len() ==> !#[trigger] integrated@[j],
        },
{
    let mut i: usize = 0;
    while i < integrated.len()
        invariant
            i <= integrated.len(),
            forall|j: int| 0 <= j < i ==> !#[trigger] integrated@[j],
        decreases integrated.len() - i,
    {
        if integrated[i] {
            proof {
                first_integrated_is_first(integrated@, i);
            }
            return Some(i);
        }
        i += 1;
    }
    None
}

/// The opening of a window.
#[derive(Debug)]
pub struct WindowOpening<R, V> {
    options: WindowOptions<R, V>,
    test_mode: bool,
    phase: OpenPhase,
}

impl<R, V> WindowOpening<R, V> {
    /// A window is opened without a device exactly in test mode.
    #[verifier::type_invariant]
    spec fn well_formed(self) -> bool {
        self.phase.suits(self.test_mode)
    }
}

impl<R: Copy, V: Copy> WindowOpening<R, V> {
    /// What the window is to be like.
    pub closed spec fn options(&self) -> WindowOptions<R, V> {
        self.options
    }

    /// The window has no real display.
    pub closed spec fn test_mode(&self) -> bool {
        self.test_mode
    }

    /// How far the opening has come.
    pub closed spec fn phase(&self) -> OpenPhase {
        self.phase
    }

    /// Starts to open a window. No device is looked for in test mode.
    pub fn new(options: WindowOptions<R, V>, test_mode: bool) -> (opening: Self)
        ensures
            opening.options() == options,
            opening.test_mode() == test_mode,
            opening.phase() == OpenPhase::start(options.gpu_power_preference, test_mode),
    {
        let phase = if test_mode {
            OpenPhase::CreatingWindow(DeviceChoice::NoDevice)
        } else {
            match options.gpu_power_preference {
                GPUPowerPreference::LowPower => OpenPhase::ScanningDevices,
                _ => OpenPhase::CreatingDefaultDevice,
            }
        };
        Self { options, test_mode, phase }
    }

    /// Returns how far the opening has come.
    pub fn current_phase(&self) -> (phase: OpenPhase)
        ensures
            phase == self.phase(),
            phase.suits(self.test_mode()),
    {
        proof {
            use_type_invariant(self);
        }
        self.phase
    }

    /// Returns what is to be done next.
    pub fn action(&self) -> (action: OpenAction<R, V>)
        ensures
            action == self.phase().action(self.options(), self.test_mode()),
    {
        match self.phase {
            OpenPhase::ScanningDevices => OpenAction::ScanDevices,
            OpenPhase::CreatingDefaultDevice => OpenAction::CreateDefaultDevice,
            OpenPhase::CreatingWindow(device) => OpenAction::CreateWindow(self.creation(device)),
            OpenPhase::Opened(_) => OpenAction::Finish,
            OpenPhase::Failed(error) => OpenAction::Fail(error),
        }
    }

    /// Returns what the native window is created from when it renders with `device`.
    fn creation(&self, device: DeviceChoice) -> (request: CreateWindow<R, V>)
        ensures
            request == creation(self.options(), self.test_mode(), device),
    {
        let options = self.options;
        CreateWindow {
            kind: match options.style {
                WindowStyle::Pin => NativeKind::PinnedPanel,
                _ => NativeKind::Window,
            },
            frame: match options.bounds {
                WindowBounds::ExactPosition(rect) => FrameRequest::FlippedBounds(rect),
                WindowBounds::ExactSize(size) => FrameRequest::SizedAtZero(size),
                WindowBounds::Default => FrameRequest::DefaultAtZero {
                    width: INITIAL_WINDOW_WIDTH,
                    height: INITIAL_WINDOW_HEIGHT,
                },
            },
            device,
            hide_title_bar: options.hide_title_bar,
            background_blur_radius_pixels: options.background_blur_radius_pixels.unwrap_or(
                DEFAULT_WINDOW_BACKGROUND_BLUR_RADIUS,
            ),
            test_mode: self.test_mode,
        }
    }

    /// Goes on with what came of the last action.
    pub fn advance(&mut self, event: OpenEvent)
        requires
            old(self).phase().awaits(event),
        ensures
            final(self).options() == old(self).options(),
            final(self).test_mode() == old(self).test_mode(),
            final(self).phase() == old(self).phase().after(event),
    {
        proof {
            use_type_invariant(&*self);
        }
        self.phase = match (self.phase, &event) {
            (_, OpenEvent::DevicesScanned(integrated)) => match find_integrated(integrated) {
                Some(i) => OpenPhase::CreatingWindow(DeviceChoice::Scanned(i)),
                None => OpenPhase::CreatingDefaultDevice,
            },
            (_, OpenEvent::DefaultDevice(true)) => OpenPhase::CreatingWindow(
                DeviceChoice::SystemDefault,
            ),
            (_, OpenEvent::DefaultDevice(false)) => OpenPhase::Failed(OpenError::NoMetalDevice),
            (OpenPhase::CreatingWindow(device), OpenEvent::WindowCreated(true)) => {
                OpenPhase::Opened(device)
            },
            (_, OpenEvent::WindowCreated(_)) => OpenPhase::Failed(OpenError::NilWindow),
        };
    }

    /// Returns the steps that complete the opening of a window that was created.
    pub fn completion_steps(&self) -> (steps: Vec<OpenStep>)
        requires
            self.phase() is Opened,
        ensures
            steps@ == completion(self.options(), self.phase()->Opened_0),
    {
        let device = match self.phase {
            OpenPhase::Opened(device) => device,
            _ => DeviceChoice::NoDevice,
        };
        let mut steps: Vec<OpenStep> = Vec::new();
        if matches!(self.options.fullscreen_state, FullscreenState::Fullscreen) {
            steps.push(OpenStep::EnqueueFullscreenTransition);
        }
        if !matches!(device, DeviceChoice::NoDevice) {
            steps.push(OpenStep::CreateRenderingDevice(device));
        }
        steps.push(OpenStep::BuildState);
        steps.push(OpenStep::StoreState(StateHolder::NativeWindow));
        steps.push(OpenStep::StoreState(StateHolder::ContentView));
        steps.push(OpenStep::StoreState(StateHolder::Delegate));
        steps.push(OpenStep::BackingPropertiesChanged { async_callback: true });
        match self.options.style {
            WindowStyle::Normal | WindowStyle::Pin => {
                if matches!(self.options.bounds, WindowBounds::ExactPosition(_)) {
                    steps.push(OpenStep::PositionAtFrameOrigin);
                } else {
                    steps.push(OpenStep::PositionAndOrderFront);
                }
            },
            WindowStyle::Cascade => steps.push(OpenStep::PositionAndOrderFront),
            WindowStyle::NotStealFocus => {},
            WindowStyle::PositionedNoFocus => {
                steps.push(OpenStep::OrderFrontWithoutFocusAtFrameOrigin);
            },
        }
        assert(steps@ =~= completion(self.options(), device));
        steps
    }

    /// Returns the state of the window that was opened as `window_id`. `device` is what it renders
    /// with, if it was created with a device. It was exactly outside test mode.
    pub fn build_state<D, M, S, C, B>(
        &self,
        window_id: WindowId,
        callbacks: B,
        device: Option<D>,
        renderer_manager: M,
    ) -> (state: WindowState<D, M, S, C, B>)
        requires
            self.phase() is Opened,
            device is Some <==> !(self.phase()->Opened_0 is NoDevice),
        ensures
            state@ == (WindowModel::<D, M, S, C, B> {
                id: window_id,
                callbacks,
                device,
                renderer_manager: Some(renderer_manager),
                next_scene: None,
                capture_callback: None,
                drag_counter: 0,
                ime_active: false,
            }),
            state@.device is None <==> self.test_mode(),
    {
        proof {
            use_type_invariant(self);
        }
        WindowState::new(window_id, callbacks, device, Some(renderer_manager))
    }
}

/// Returns the steps that release a native window.
pub fn dealloc_steps() -> (steps: Vec<DeallocStep>)
    ensures
        steps@ == deallocation(),
{
    vec![
        DeallocStep::TakeState(StateHolder::ContentView),
        DeallocStep::TakeState(StateHolder::Delegate),
        DeallocStep::TakeState(StateHolder::NativeWindow),
        DeallocStep::DropState,
    ]
}

/// What the native side has to offer while a window is opened.
pub struct Surroundings {
    /// Of each device, in order, whether it is integrated.
    pub integrated: Vec<bool>,
    /// There is a default device.
    pub default_device: bool,
    /// The native window can be created.
    pub creatable: bool,
}

/// How `surroundings` answer what `phase` waits for.
pub open spec fn answer(phase: OpenPhase, surroundings: Surroundings) -> OpenEvent {
    match phase {
        OpenPhase::ScanningDevices => OpenEvent::DevicesScanned(surroundings.integrated),
        OpenPhase::CreatingDefaultDevice => OpenEvent::DefaultDevice(surroundings.default_device),
        _ => OpenEvent::WindowCreated(surroundings.creatable),
    }
}

/// The phase that is reached from `phase` by at most `rounds` answers.
pub open spec fn reached(phase: OpenPhase, surroundings: Surroundings, rounds: nat) -> OpenPhase
    decreases rounds,
{
    if rounds == 0 || phase is Opened || phase is Failed {
        phase
    } else {
        reached(phase.after(answer(phase, surroundings)), surroundings, (rounds - 1) as nat)
    }
}

/// The device to render with: none in test mode; where low power is preferred, the first
/// integrated one; and otherwise, or if none is integrated, the default. `None` if there is none.
pub open spec fn device_for(
    preference: GPUPowerPreference,
    test_mode: bool,
    surroundings: Surroundings,
) -> Option<DeviceChoice> {
    if test_mode {
        Some(DeviceChoice::NoDevice)
    } else if preference is LowPower && first_integrated(surroundings.integrated@) is Some {
        Some(DeviceChoice::Scanned(first_integrated(surroundings.integrated@)->0))
    } else if surroundings.default_device {
        Some(DeviceChoice::SystemDefault)
    } else {
        None
    }
}

/// Of the integrated devices the first one is found.
pub proof fn first_integrated_is_first(integrated: Seq<bool>, i: usize)
    requires
        i < integrated.len(),
        integrated[i as int],
        forall|j: int| 0 <= j < i ==> !#[trigger] integrated[j],
    ensures
        first_integrated(integrated) == Some(i),
{
    let k = choose|k: int|
        0 <= k < integrated.len() && #[trigger] integrated[k] && forall|j: int|
            0 <= j < k ==> !#[trigger] integrated[j];
    assert(integrated[k]);
    assert(k == i);
}

/// Where an integrated device is there, there is a first one.
proof fn lemma_some_is_first(integrated: Seq<bool>, n: int)
    requires
        0 <= n < integrated.len(),
        integrated[n],
    ensures
        exists|i: int|
            0 <= i < integrated.len() && #[trigger] integrated[i] && forall|j: int|
                0 <= j < i ==> !#[trigger] integrated[j],
    decreases n,
{
    if exists|m: int| 0 <= m < n && #[trigger] integrated[m] {
        let m = choose|m: int| 0 <= m < n && #[trigger] integrated[m];
        lemma_some_is_first(integrated, m);
    }
}

/// A device that is found is there, is integrated and is the first such; if none is found, none is
/// integrated.
pub proof fn found_devices_are_integrated(integrated: Seq<bool>)
    requires
        integrated.len() <= usize::MAX,
    ensures
        match first_integrated(integrated) {
            Some(i) => {
                &&& i < integrated.len()
                &&& integrated[i as int]
                &&& forall|j: int| 0 <= j < i ==> !#[trigger] integrated[j]
            },
            None => forall|j: int| 0 <= j < integrated.len() ==> !#[trigger] integrated[j],
        },
{
    if exists|n: int| 0 <= n < integrated.len() && #[trigger] integrated[n] {
        let n = choose|n: int| 0 <= n < integrated.len() && #[trigger] integrated[n];
        lemma_some_is_first(integrated, n);
    }
}

/// Opening ends after at most three answers. It fails exactly if there is no device to render with
/// or, for want of anything else, if the native window cannot be created.
pub proof fn opening_ends(
    preference: GPUPowerPreference,
    test_mode: bool,
    surroundings: Surroundings,
)
    ensures
        reached(OpenPhase::start(preference, test_mode), surroundings, 3) == (match device_for(
            preference,
            test_mode,
            surroundings,
        ) {
            None => OpenPhase::Failed(OpenError::NoMetalDevice),
            Some(device) => if surroundings.creatable {
                OpenPhase::Opened(device)
            } else {
                OpenPhase::Failed(OpenError::NilWindow)
            },
        }),
{
    reveal_with_fuel(reached, 4);
}

/// What is asked for is what the surroundings can answer, up to the end.
pub proof fn answers_are_awaited(phase: OpenPhase, surroundings: Surroundings)
    requires
        !(phase is Opened),
        !(phase is Failed),
    ensures
        phase.awaits(answer(phase, surroundings)),
{
}

/// A window lacks a device exactly in test mode: opening starts so, and every answer that is waited
/// for keeps it so.
pub proof fn devices_follow_the_mode(
    preference: GPUPowerPreference,
    test_mode: bool,
    phase: OpenPhase,
    event: OpenEvent,
)
    ensures
        OpenPhase::start(preference, test_mode).suits(test_mode),
        phase.suits(test_mode) && phase.awaits(event) ==> phase.after(event).suits(test_mode),
{
}

/// Every holder that is given the state on opening gives it up on release, once each; there is no
/// other.
pub proof fn stored_references_are_taken_once<R, V>(
    options: WindowOptions<R, V>,
    device: DeviceChoice,
    holder: StateHolder,
)
    ensures
        completion(options, device).to_multiset().count(OpenStep::StoreState(holder)) == 1,
        deallocation().to_multiset().count(DeallocStep::TakeState(holder)) == 1,
{
    let steps = completion(options, device);
    let k: int = (if options.fullscreen_state is Fullscreen { 1int } else { 0 }) + (
    if device is NoDevice { 0int } else { 1 });
    let offset: int = match holder {
        StateHolder::NativeWindow => 1,
        StateHolder::ContentView => 2,
        StateHolder::Delegate => 3,
    };
    assert(steps[k + offset] == OpenStep::StoreState(holder));
    lemma_counted_once(steps, k + offset);
    let taken: int = match holder {
        StateHolder::ContentView => 0,
        StateHolder::Delegate => 1,
        StateHolder::NativeWindow => 2,
    };
    assert(deallocation()[taken] == DeallocStep::TakeState(holder));
    lemma_counted_once(deallocation(), taken);
}

/// How many references to the state `holder` still holds, after the window was opened and, if
/// `released`, its native side was released.
pub open spec fn references_of<R, V>(
    options: WindowOptions<R, V>,
    device: DeviceChoice,
    released: bool,
    holder: StateHolder,
) -> int {
    completion(options, device).to_multiset().count(OpenStep::StoreState(holder)) - (if released {
        deallocation().to_multiset().count(DeallocStep::TakeState(holder)) as int
    } else {
        0
    })
}

/// How many references to the state are left, where `registered` says that the application still
/// holds one.
pub open spec fn references<R, V>(
    options: WindowOptions<R, V>,
    device: DeviceChoice,
    registered: bool,
    released: bool,
) -> int {
    references_of(options, device, released, StateHolder::NativeWindow) + references_of(
        options,
        device,
        released,
        StateHolder::ContentView,
    ) + references_of(options, device, released, StateHolder::Delegate) + (if registered {
        1int
    } else {
        0
    })
}

/// The application and the native side may let go of a window in either order: its state stays
/// while one of them holds it, and is gone when both have let go.
pub proof fn either_side_may_let_go_first<R, V>(
    options: WindowOptions<R, V>,
    device: DeviceChoice,
    registered: bool,
    released: bool,
)
    ensures
        references(options, device, registered, released) > 0 <==> registered || !released,
        references(options, device, false, true) == 0,
{
    stored_references_are_taken_once(options, device, StateHolder::NativeWindow);
    stored_references_are_taken_once(options, device, StateHolder::ContentView);
    stored_references_are_taken_once(options, device, StateHolder::Delegate);
}

/// An element that occurs at one place only is counted once.
proof fn lemma_counted_once<A>(s: Seq<A>, at: int)
    requires
        0 <= at < s.len(),
        forall|i: int| 0 <= i < s.len() && i != at ==> #[trigger] s[i] != s[at],
    ensures
        s.to_multiset().count(s[at]) == 1,
{
    broadcast use vstd::seq_lib::group_to_multiset_ensures;

    let before = s.take(at);
    let after = s.skip(at + 1);
    assert(s =~= before + seq![s[at]] + after);
    assert(!before.contains(s[at]));
    assert(!after.contains(s[at]));
    vstd::seq_lib::lemma_multiset_commutative(before + seq![s[at]], after);
    vstd::seq_lib::lemma_multiset_commutative(before, seq![s[at]]);
    assert(seq![s[at]] =~= Seq::<A>::empty().push(s[at]));
}

/// The backing scale is taken over only once the content view holds the state that this reads.
pub proof fn state_is_stored_before_it_is_read<R, V>(
    options: WindowOptions<R, V>,
    device: DeviceChoice,
    i: int,
)
    requires
        0 <= i < completion(options, device).len(),
        completion(options, device)[i] is BackingPropertiesChanged,
    ensures
        exists|j: int|
            0 <= j < i && #[trigger] completion(options, device)[j] == OpenStep::StoreState(
                StateHolder::ContentView,
            ),
{
    assert(completion(options, device)[i - 2] == OpenStep::StoreState(StateHolder::ContentView));
}

/// A window is set up for rendering exactly if it was created with a device, namely with that one.
pub proof fn rendering_follows_the_device<R, V>(
    options: WindowOptions<R, V>,
    test_mode: bool,
    device: DeviceChoice,
    rendered: DeviceChoice,
)
    ensures
        completion(options, device).contains(OpenStep::CreateRenderingDevice(rendered)) <==> (
        rendered == creation(options, test_mode, device).device && !(device is NoDevice)),
{
    let steps = completion(options, device);
    if !(device is NoDevice) {
        let k: int = if options.fullscreen_state is Fullscreen { 1 } else { 0 };
        assert(steps[k] == OpenStep::CreateRenderingDevice(device));
    }
}

/// A window that is to be full-screen starts its transition once, before anything else is done to
/// it, whatever it renders with. No other window does.
pub proof fn fullscreen_windows_enter_full_screen<R, V>(
    options: WindowOptions<R, V>,
    device: DeviceChoice,
)
    ensures
        ({
            let steps = completion(options, device);
            &&& steps.contains(OpenStep::EnqueueFullscreenTransition)
                <==> options.fullscreen_state is Fullscreen
            &&& forall|i: int|
                0 <= i < steps.len() && (#[trigger] steps[i]) is EnqueueFullscreenTransition ==> i
                    == 0
        }),
{
    if options.fullscreen_state is Fullscreen {
        assert(completion(options, device)[0] is EnqueueFullscreenTransition);
    }
}

/// Every step that completes an opening has its place. The transition into full screen comes first,
/// if the window is to be full-screen; then rendering is set up, if there is a device; then the
/// state is built, and stored with the window, its content view and its delegate; then the backing
/// scale is taken over, with the callback put off; and last the window is placed.
pub proof fn openings_complete_in_order<R, V>(options: WindowOptions<R, V>, device: DeviceChoice)
    ensures
        ({
            let steps = completion(options, device);
            let fullscreen: int = if options.fullscreen_state is Fullscreen { 1 } else { 0 };
            let built: int = fullscreen + if device is NoDevice { 0int } else { 1 };
            let placed: int = if options.style is NotStealFocus { 0 } else { 1 };
            &&& steps.len() == built + 5 + placed
            &&& forall|i: int|
                0 <= i < steps.len() ==> {
                    &&& (#[trigger] steps[i]) is EnqueueFullscreenTransition <==> i < fullscreen
                    &&& steps[i] is CreateRenderingDevice <==> fullscreen <= i < built
                    &&& steps[i] matches OpenStep::CreateRenderingDevice(used) ==> used == device
                    &&& steps[i] is BuildState <==> i == built
                    &&& steps[i] == OpenStep::StoreState(StateHolder::NativeWindow) <==> i == built
                        + 1
                    &&& steps[i] == OpenStep::StoreState(StateHolder::ContentView) <==> i == built
                        + 2
                    &&& steps[i] == OpenStep::StoreState(StateHolder::Delegate) <==> i == built + 3
                    &&& steps[i] is BackingPropertiesChanged <==> i == built + 4
                    &&& steps[i] matches OpenStep::BackingPropertiesChanged { async_callback }
                        ==> async_callback
                }
        }),
{
}

/// A window is placed by its last step. A normal or pinned window with an exact position goes
/// there; without one, it is centered or cascaded, as a cascading window always is; one that is to
/// appear without the focus does so where its frame is; and one that must not steal the focus is
/// not placed at all.
pub proof fn windows_are_placed_by_their_style<R, V>(
    options: WindowOptions<R, V>,
    device: DeviceChoice,
)
    ensures
        ({
            let last = completion(options, device).last();
            let positioned = options.style is Normal || options.style is Pin;
            &&& last is PositionAtFrameOrigin <==> positioned && options.bounds is ExactPosition
            &&& last is PositionAndOrderFront <==> options.style is Cascade || positioned
                && !(options.bounds is ExactPosition)
            &&& last is OrderFrontWithoutFocusAtFrameOrigin <==> options.style is PositionedNoFocus
            &&& last is BackingPropertiesChanged <==> options.style is NotStealFocus
        }),
{
}

/// On release the content view, the delegate and the window give up the state in this order, and
/// only then is the last reference dropped.
pub proof fn releases_run_in_order()
    ensures
        deallocation().len() == 4,
        forall|i: int|
            0 <= i < 4 ==> {
                &&& (#[trigger] deallocation()[i]) == DeallocStep::TakeState(
                    StateHolder::ContentView,
                ) <==> i == 0
                &&& deallocation()[i] == DeallocStep::TakeState(StateHolder::Delegate) <==> i == 1
                &&& deallocation()[i] == DeallocStep::TakeState(StateHolder::NativeWindow) <==> i
                    == 2
                &&& deallocation()[i] is DropState <==> i == 3
            },
{
}

/// Exact bounds are taken over as they are, an exact size at the origin, and a window without
/// either is 1280 wide and 800 high.
pub proof fn frames_follow_the_bounds<R, V>(rect: R, size: V)
    ensures
        frame_for(WindowBounds::<R, V>::ExactPosition(rect)) == FrameRequest::<
            R,
            V,
        >::FlippedBounds(rect),
        frame_for(WindowBounds::<R, V>::ExactSize(size)) == FrameRequest::<R, V>::SizedAtZero(size),
        frame_for(WindowBounds::<R, V>::Default) == (FrameRequest::<R, V>::DefaultAtZero {
            width: 1280,
            height: 800,
        }),
{
}

/// A window is created as its options say: a panel exactly if it is pinned, with the frame for its
/// bounds, with or without a title bar, and blurred by its radius, or by one pixel if it names
/// none. The device and the mode are those of the opening.
pub proof fn windows_are_created_as_asked<R, V>(
    options: WindowOptions<R, V>,
    test_mode: bool,
    device: DeviceChoice,
)
    ensures
        ({
            let request = creation(options, test_mode, device);
            &&& request.kind is PinnedPanel <==> options.style is Pin
            &&& match options.bounds {
                WindowBounds::ExactPosition(rect) => request.frame matches FrameRequest::FlippedBounds(
                    frame,
                ) && frame == rect,
                WindowBounds::ExactSize(size) => request.frame matches FrameRequest::SizedAtZero(
                    frame,
                ) && frame == size,
                WindowBounds::Default => request.frame matches FrameRequest::DefaultAtZero {
                    width,
                    height,
                } && width == 1280 && height == 800,
            }
            &&& request.device == device
            &&& request.hide_title_bar == options.hide_title_bar
            &&& options.background_blur_radius_pixels matches Some(radius)
                ==> request.background_blur_radius_pixels == radius
            &&& options.background_blur_radius_pixels is None
                ==> request.background_blur_radius_pixels == 1
            &&& request.test_mode == test_mode
        }),
{
}

/// In test mode the window is created at once, without a device. Otherwise all devices are looked
/// at where low power is preferred, and only the default one where it is not.
pub proof fn openings_look_for_a_device_first(preference: GPUPowerPreference, test_mode: bool)
    ensures
        ({
            let start = OpenPhase::start(preference, test_mode);
            &&& start == OpenPhase::CreatingWindow(DeviceChoice::NoDevice) <==> test_mode
            &&& start is ScanningDevices <==> !test_mode && preference is LowPower
            &&& start is CreatingDefaultDevice <==> !test_mode && !(preference is LowPower)
        }),
{
}

/// After the devices were looked at, the window is created with the first integrated one, and if
/// there is none, the default device is asked for.
pub proof fn integrated_devices_come_first(phase: OpenPhase, integrated: Vec<bool>)
    ensures
        match phase.after(OpenEvent::DevicesScanned(integrated)) {
            OpenPhase::CreatingWindow(DeviceChoice::Scanned(i)) => {
                &&& i < integrated@.len()
                &&& integrated@[i as int]
                &&& forall|j: int| 0 <= j < i ==> !#[trigger] integrated@[j]
            },
            OpenPhase::CreatingDefaultDevice => forall|j: int|
                0 <= j < integrated@.len() ==> !#[trigger] integrated@[j],
            _ => false,
        },
{
    assert(integrated@.len() == integrated.len());
    found_devices_are_integrated(integrated@);
}

/// A window is created with the default device if there is one, and opening fails if not. Once the
/// native window was created, the window is open with the device that it was created with; if it
/// could not be created, opening fails.
pub proof fn answers_decide_the_opening(phase: OpenPhase, device: DeviceChoice)
    ensures
        phase.after(OpenEvent::DefaultDevice(true)) == OpenPhase::CreatingWindow(
            DeviceChoice::SystemDefault,
        ),
        phase.after(OpenEvent::DefaultDevice(false)) == OpenPhase::Failed(OpenError::NoMetalDevice),
        OpenPhase::CreatingWindow(device).after(OpenEvent::WindowCreated(true))
            == OpenPhase::Opened(device),
        OpenPhase::CreatingWindow(device).after(OpenEvent::WindowCreated(false))
            == OpenPhase::Failed(OpenError::NilWindow),
{
}

/// Every phase waits for the answer to what it asks for, and for no other. An opening that has
/// ended waits for none.
pub proof fn phases_wait_for_their_answer(
    device: DeviceChoice,
    error: OpenError,
    event: OpenEvent,
)
    ensures
        OpenPhase::ScanningDevices.awaits(event) <==> event is DevicesScanned,
        OpenPhase::CreatingDefaultDevice.awaits(event) <==> event is DefaultDevice,
        OpenPhase::CreatingWindow(device).awaits(event) <==> event is WindowCreated,
        !OpenPhase::Opened(device).awaits(event),
        !OpenPhase::Failed(error).awaits(event),
{
}

/// Every phase asks for what it waits for; the window is asked for as its options say, with the
/// chosen device; and the end of an opening is told, with the error if it failed.
pub proof fn phases_ask_for_what_comes_next<R, V>(
    options: WindowOptions<R, V>,
    test_mode: bool,
    device: DeviceChoice,
    error: OpenError,
)
    ensures
        OpenPhase::ScanningDevices.action(options, test_mode) is ScanDevices,
        OpenPhase::CreatingDefaultDevice.action(options, test_mode) is CreateDefaultDevice,
        OpenPhase::CreatingWindow(device).action(options, test_mode) == OpenAction::CreateWindow(
            creation(options, test_mode, device),
        ),
        OpenPhase::Opened(device).action(options, test_mode) is Finish,
        OpenPhase::Failed(error).action(options, test_mode) == OpenAction::<R, V>::Fail(error),
{
}

/// A window that is created or open has no device exactly in test mode, and no device is looked for
/// or missed there.
pub proof fn devices_suit_the_mode(device: DeviceChoice, test_mode: bool)
    ensures
        OpenPhase::CreatingWindow(device).suits(test_mode) <==> (device is NoDevice <==> test_mode),
        OpenPhase::Opened(device).suits(test_mode) <==> (device is NoDevice <==> test_mode),
        OpenPhase::ScanningDevices.suits(test_mode) <==> !test_mode,
        OpenPhase::CreatingDefaultDevice.suits(test_mode) <==> !test_mode,
        OpenPhase::Failed(OpenError::NoMetalDevice).suits(test_mode) <==> !test_mode,
        OpenPhase::Failed(OpenError::NilWindow).suits(test_mode),
{
}

} // verus!
