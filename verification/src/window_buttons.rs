//! The standard buttons of a native window.

use vstd::prelude::*;

verus! {

/// The standard buttons of a native window. Of each button that the window has, this tells whether
/// it is hidden.
#[derive(Debug, Clone, Copy, PartialEq, Eq)]
pub struct WindowButtons {
    pub close: Option<bool>,
    pub miniaturize: Option<bool>,
    pub zoom: Option<bool>,
}

/// `button` after it was hidden or shown, if it exists.
pub open spec fn with_hidden(button: Option<bool>, hidden: bool) -> Option<bool> {
    match button {
        Some(_) => Some(hidden),
        None => None,
    }
}

/// Returns `button` after it was hidden or shown, if it exists.
fn set_hidden(button: Option<bool>, hidden: bool) -> (r: Option<bool>)
    ensures
        r == with_hidden(button, hidden),
{
    match button {
        Some(_) => Some(hidden),
        None => None,
    }
}

impl WindowButtons {
    /// The buttons count as visible. The close button stands for all of them, since they are
    /// always changed together.
    pub open spec fn visible(self) -> bool {
        self.close != Some(true)
    }

    /// The buttons after all of them were shown or hidden.
    pub open spec fn shown(self, show: bool) -> WindowButtons {
        WindowButtons {
            close: with_hidden(self.close, !show),
            miniaturize: with_hidden(self.miniaturize, !show),
            zoom: with_hidden(self.zoom, !show),
        }
    }

    /// Returns whether the buttons are visible.
    pub fn has_window_buttons(&self) -> (r: bool)
        ensures
            r == self.visible(),
    {
        match self.close {
            Some(hidden) => !hidden,
            None => true,
        }
    }

    /// Shows or hides all buttons.
    pub fn set_window_buttons(&mut self, show_window_buttons: bool)
        ensures
            *final(self) == old(self).shown(show_window_buttons),
    {
        let hide_buttons = !show_window_buttons;
        self.close = set_hidden(self.close, hide_buttons);
        self.miniaturize = set_hidden(self.miniaturize, hide_buttons);
        self.zoom = set_hidden(self.zoom, hide_buttons);
    }
}

/// An extension trait defining additional window-management options for native windows.
pub trait WindowExt {
    /// The buttons of the native window, if there is one.
    spec fn buttons(&self) -> Option<WindowButtons>;

    /// The window is native, or of a kind that is known to have no native window.
    spec fn recognized(&self) -> bool;

    /// Returns whether or not the native window buttons are visible.
    fn has_window_buttons(&self) -> (r: bool)
        requires
            self.recognized(),
        ensures
            r == (match self.buttons() {
                Some(buttons) => buttons.visible(),
                None => true,
            }),
    ;

    /// Sets whether or not to show the native window buttons (traffic lights).
    fn set_window_buttons(&mut self, window_buttons: bool)
        requires
            old(self).recognized(),
        ensures
            final(self).recognized(),
            final(self).buttons() == (match old(self).buttons() {
                Some(buttons) => Some(buttons.shown(window_buttons)),
                None => None,
            }),
    ;
}

/// A window of the platform, as it is observed. The native window is always available if the
/// application is running, but neither without a display nor in unit tests.
#[derive(Debug, Clone, Copy, PartialEq, Eq)]
pub struct PlatformWindow {
    /// The buttons of the native window.
    pub native: Option<WindowButtons>,
    pub is_headless: bool,
    pub is_test_window: bool,
}

impl WindowExt for PlatformWindow {
    open spec fn buttons(&self) -> Option<WindowButtons> {
        self.native
    }

    open spec fn recognized(&self) -> bool {
        self.native is Some || self.is_headless || self.is_test_window
    }

    fn has_window_buttons(&self) -> (r: bool) {
        match self.native {
            Some(buttons) => buttons.has_window_buttons(),
            None => true,
        }
    }

    fn set_window_buttons(&mut self, window_buttons: bool)
        ensures
            *final(self) == (PlatformWindow {
                native: final(self).buttons(),
                ..*old(self)
            }),
    {
        if let Some(native) = self.native {
            let mut buttons = native;
            buttons.set_window_buttons(window_buttons);
            self.native = Some(buttons);
        }
    }
}

/// Buttons that were shown or hidden are reported so. Only a window without a close button reports
/// visible buttons regardless.
pub proof fn set_buttons_are_reported(buttons: WindowButtons, show: bool)
    ensures
        buttons.close is Some ==> buttons.shown(show).visible() == show,
        buttons.close is None ==> buttons.shown(show).visible(),
{
}

/// What was last set counts, and no button comes or goes.
pub proof fn last_setting_counts(buttons: WindowButtons, first: bool, second: bool)
    ensures
        buttons.shown(first).shown(second) == buttons.shown(second),
        buttons.shown(first).close is Some == buttons.close is Some,
        buttons.shown(first).miniaturize is Some == buttons.miniaturize is Some,
        buttons.shown(first).zoom is Some == buttons.zoom is Some,
{
}

/// Each button that the window has is hidden exactly if the buttons were not to be shown, and each
/// that it lacks stays absent.
pub proof fn every_button_is_set(buttons: WindowButtons, show: bool)
    ensures
        buttons.shown(show).close is Some <==> buttons.close is Some,
        buttons.shown(show).miniaturize is Some <==> buttons.miniaturize is Some,
        buttons.shown(show).zoom is Some <==> buttons.zoom is Some,
        buttons.shown(show).close matches Some(hidden) ==> hidden != show,
        buttons.shown(show).miniaturize matches Some(hidden) ==> hidden != show,
        buttons.shown(show).zoom matches Some(hidden) ==> hidden != show,
{
}

/// The buttons count as hidden exactly if there is a close button and it is hidden, whatever the
/// other buttons are.
pub proof fn the_close_button_tells(buttons: WindowButtons)
    ensures
        buttons.close matches Some(hidden) ==> buttons.visible() != hidden,
        buttons.close is None ==> buttons.visible(),
{
}

/// The buttons of a window of the platform are those of its native window, even without a display
/// or in a unit test; and a window is recognized if it is native, or of one of these two kinds.
pub proof fn native_windows_have_the_buttons(window: PlatformWindow)
    ensures
        window.buttons() == window.native,
        window.recognized() <==> !(window.native is None && !window.is_headless
            && !window.is_test_window),
{
}

} // verus!
