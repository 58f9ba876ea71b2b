//! Events that windows dispatch to the application.

use vstd::prelude::*;

verus! {

/// An event for the application. `P` is a position, `M` the state of the modifier keys, and `X`
/// what the application knows of an event beyond what is decided here.
#[derive(Debug)]
pub enum Event<P, M, X> {
    LeftMouseDragged { position: P, modifiers: M },
    LeftMouseUp(X),
    KeyDown {
        /// Whether the key press is part of composing text in an input method editor.
        is_composing: bool,
        details: X,
    },
    TypedCharacters { chars: String },
    DragAndDropFiles { paths: Vec<String>, location: P },
    DragFiles { location: P },
    DragFileExit,
    SetMarkedText { marked_text: String, selected_range: std::ops::Range<usize> },
    ClearMarkedText,
    Other(X),
}

/// A range that is given by where it starts and how long it is.
#[derive(Debug, Clone, Copy, PartialEq, Eq, Structural)]
pub struct NSRange {
    pub location: usize,
    pub length: usize,
}

/// Converts a range with a length into one with an end.
pub fn nsrange_to_rust_range(ns_range: NSRange) -> (range: std::ops::Range<usize>)
    requires
        ns_range.location + ns_range.length <= usize::MAX,
    ensures
        range.start == ns_range.location,
        range.end == ns_range.location + ns_range.length,
{
    let start = ns_range.location;
    let end: usize = start + ns_range.length;
    start..end
}

/// Returns the event for text that was inserted into a view.
pub fn insert_text<P, M, X>(characters: String) -> (event: Event<P, M, X>)
    ensures
        event == (Event::<P, M, X>::TypedCharacters { chars: characters }),
{
    Event::TypedCharacters { chars: characters }
}

/// Returns the event for files that were dropped onto a view.
pub fn drag_and_drop<P, M, X>(paths: Vec<String>, location: P) -> (event: Event<P, M, X>)
    ensures
        event == (Event::<P, M, X>::DragAndDropFiles { paths, location }),
{
    Event::DragAndDropFiles { paths, location }
}

/// Returns the event for files that are dragged over a view.
pub fn file_drag<P, M, X>(location: P) -> (event: Event<P, M, X>)
    ensures
        event == (Event::<P, M, X>::DragFiles { location }),
{
    Event::DragFiles { location }
}

/// Returns the event for dragged files that leave a view.
pub fn file_drag_exit<P, M, X>() -> (event: Event<P, M, X>)
    ensures
        event == Event::<P, M, X>::DragFileExit,
{
    Event::DragFileExit
}

/// Returns the event for a change of the text that is being composed.
pub fn marked_text_updated<P, M, X>(marked_text: String, selected_range: NSRange) -> (event: Event<
    P,
    M,
    X,
>)
    requires
        selected_range.location + selected_range.length <= usize::MAX,
    ensures
        event matches Event::SetMarkedText { marked_text: text, selected_range: range } && text
            == marked_text && range.start == selected_range.location && range.end
            == selected_range.location + selected_range.length,
{
    Event::SetMarkedText { marked_text, selected_range: nsrange_to_rust_range(selected_range) }
}

/// Returns the event for the end of composing text.
pub fn marked_text_cleared<P, M, X>() -> (event: Event<P, M, X>)
    ensures
        event == Event::<P, M, X>::ClearMarkedText,
{
    Event::ClearMarkedText
}

} // verus!
