//! The vocabulary of windows and displays.

use vstd::prelude::*;

verus! {

/// Identifies a window of the application.
#[derive(Debug, Clone, Copy, PartialEq, Eq, Structural, Hash)]
pub struct WindowId(pub u64);

/// Where a new window goes. `R` is a rectangle and `V` a size.
#[derive(Debug, Clone, Copy, PartialEq, Eq)]
pub enum WindowBounds<R, V> {
    /// The window takes these bounds.
    ExactPosition(R),
    /// The window takes this size.
    ExactSize(V),
    /// The window takes the default size.
    Default,
}

/// How a new window appears.
#[derive(Debug, Clone, Copy, PartialEq, Eq, Structural)]
pub enum WindowStyle {
    Normal,
    /// A panel that stays pinned to its place.
    Pin,
    /// Cascades from the previous window.
    Cascade,
    /// Appears without being ordered to the front.
    NotStealFocus,
    /// Appears in front at its position, without the focus.
    PositionedNoFocus,
}

/// Whether a window fills its screen.
#[derive(Debug, Clone, Copy, PartialEq, Eq, Structural)]
pub enum FullscreenState {
    Normal,
    Maximized,
    Fullscreen,
}

/// Which GPU to render with.
#[derive(Debug, Clone, Copy, PartialEq, Eq, Structural)]
pub enum GPUPowerPreference {
    LowPower,
    HighPerformance,
}

/// Whether closing a window may still be called off.
#[derive(Debug, Clone, Copy, PartialEq, Eq, Structural)]
pub enum TerminationMode {
    Cancellable,
    ForceTerminate,
    /// The window's contents live on in another window.
    ContentTransferred,
}

/// What showing a window does to the order of windows.
#[derive(Debug, Clone, Copy, PartialEq, Eq, Structural)]
pub enum WindowFocusBehavior {
    BringToFront,
    RetainOrder,
}

/// A display, counted from the primary one.
#[derive(Debug, Clone, Copy, PartialEq, Eq, Structural)]
pub enum DisplayIdx {
    Primary,
    External(usize),
}

/// What windows are rendered with.
#[derive(Debug, Clone, Copy, PartialEq, Eq, Structural)]
pub enum GraphicsBackend {
    Metal,
}

/// The system that windows live in.
#[derive(Debug, Clone, Copy, PartialEq, Eq, Structural)]
pub enum System {
    AppKit,
}

/// What a new window is to be like.
#[derive(Debug, Clone, Copy, PartialEq, Eq)]
pub struct WindowOptions<R, V> {
    pub bounds: WindowBounds<R, V>,
    pub style: WindowStyle,
    pub fullscreen_state: FullscreenState,
    pub gpu_power_preference: GPUPowerPreference,
    pub hide_title_bar: bool,
    /// `None` for the default radius.
    pub background_blur_radius_pixels: Option<u8>,
}

} // verus!
