//! The focus of a pane group: which pane has it, which terminal session is active, and which
//! keyboard input source each pane was left with.

use std::collections::HashMap;

use vstd::prelude::*;

use crate::pane::{PaneId, PaneState, SplitPaneState, TerminalPaneId};

verus! {

broadcast use vstd::std_specs::hash::group_hash_axioms;

/// The keyboard input source that each pane was last used with.
///
/// Entries are kept by the pane's number, in one table for each kind of pane.
#[derive(Debug)]
pub struct PaneInputSourceState {
    by_terminal: HashMap<u64, String>,
    by_other: HashMap<u64, String>,
}

impl View for PaneInputSourceState {
    type V = Map<PaneId, Seq<char>>;

    closed spec fn view(&self) -> Map<PaneId, Seq<char>> {
        Map::new(
            |pane_id: PaneId|
                match pane_id {
                    PaneId::Terminal(id) => self.by_terminal@.contains_key(id.0),
                    PaneId::Other(number) => self.by_other@.contains_key(number),
                },
            |pane_id: PaneId|
                match pane_id {
                    PaneId::Terminal(id) => self.by_terminal@[id.0]@,
                    PaneId::Other(number) => self.by_other@[number]@,
                },
        )
    }
}

impl Default for PaneInputSourceState {
    /// Returns a state in which no pane has a source.
    fn default() -> (state: Self)
        ensures
            state@ == Map::<PaneId, Seq<char>>::empty(),
    {
        let state = Self { by_terminal: HashMap::new(), by_other: HashMap::new() };
        assert(state@ =~= Map::<PaneId, Seq<char>>::empty());
        state
    }
}

/// `sources` after `source`, if there is one, was recorded for `pane_id`.
pub open spec fn with_source(
    sources: Map<PaneId, Seq<char>>,
    pane_id: PaneId,
    source: Option<Seq<char>>,
) -> Map<PaneId, Seq<char>> {
    match source {
        Some(source_id) => sources.insert(pane_id, source_id),
        None => sources,
    }
}

/// The source that `sources` holds for `pane_id`.
pub open spec fn source_of(sources: Map<PaneId, Seq<char>>, pane_id: PaneId) -> Option<Seq<char>> {
    if sources.contains_key(pane_id) {
        Some(sources[pane_id])
    } else {
        None
    }
}

/// The text of an optional string.
pub open spec fn text(source: Option<String>) -> Option<Seq<char>> {
    match source {
        Some(source_id) => Some(source_id@),
        None => None,
    }
}

impl PaneInputSourceState {
    /// Returns a state that holds `source_id`, if there is one, for `pane_id`, and nothing else.
    pub fn with_initial_source(pane_id: PaneId, source_id: Option<String>) -> (state: Self)
        ensures
            state@ == with_source(Map::empty(), pane_id, text(source_id)),
    {
        let mut state = Self::default();
        if let Some(source_id) = source_id {
            state.set(pane_id, source_id);
        }
        state
    }

    /// Returns the source that is held for `pane_id`.
    pub fn get(&self, pane_id: PaneId) -> (source_id: Option<&str>)
        ensures
            source_id is Some <==> self@.contains_key(pane_id),
            source_id matches Some(s) ==> s@ == self@[pane_id],
    {
        let found = match pane_id {
            PaneId::Terminal(id) => self.by_terminal.get(&id.0),
            PaneId::Other(number) => self.by_other.get(&number),
        };
        match found {
            Some(source_id) => Some(source_id.as_str()),
            None => None,
        }
    }

    /// Holds `source_id` for `pane_id`, in place of what was held for it before.
    pub fn set(&mut self, pane_id: PaneId, source_id: String)
        ensures
            final(self)@ == old(self)@.insert(pane_id, source_id@),
    {
        match pane_id {
            PaneId::Terminal(id) => {
                self.by_terminal.insert(id.0, source_id);
            },
            PaneId::Other(number) => {
                self.by_other.insert(number, source_id);
            },
        }
        assert(self@ =~= old(self)@.insert(pane_id, source_id@));
    }

    /// Drops what is held for `pane_id`. Returns whether anything was.
    pub fn remove(&mut self, pane_id: PaneId) -> (removed: bool)
        ensures
            final(self)@ == old(self)@.remove(pane_id),
            removed == old(self)@.contains_key(pane_id),
    {
        let removed = match pane_id {
            PaneId::Terminal(id) => self.by_terminal.remove(&id.0),
            PaneId::Other(number) => self.by_other.remove(&number),
        };
        assert(self@ =~= old(self)@.remove(pane_id));
        removed.is_some()
    }
}

/// Something about a pane group's focus changed.
#[derive(Debug, Clone, Copy, PartialEq, Eq)]
pub enum PaneGroupFocusEvent {
    FocusChanged { old_focused: PaneId, new_focused: PaneId },
    ActiveSessionChanged {
        old_active: Option<TerminalPaneId>,
        new_active: Option<TerminalPaneId>,
    },
    InSplitPaneChanged,
    FocusedPaneMaximizedChanged,
}

impl PaneGroupFocusEvent {
    /// The event can change what `pane_id` shows: `pane_id` gains or loses the focus, its session
    /// becomes or stops being the active one, or the event concerns every pane.
    pub open spec fn affects(self, pane_id: PaneId) -> bool {
        match self {
            PaneGroupFocusEvent::FocusChanged { old_focused, new_focused } => {
                pane_id == old_focused || pane_id == new_focused
            },
            PaneGroupFocusEvent::ActiveSessionChanged { old_active, new_active } => {
                pane_id.terminal() is Some && (pane_id.terminal() == old_active
                    || pane_id.terminal() == new_active)
            },
            PaneGroupFocusEvent::InSplitPaneChanged => true,
            PaneGroupFocusEvent::FocusedPaneMaximizedChanged => true,
        }
    }
}

/// The focus of a pane group, as a value.
pub struct FocusModel {
    pub focused: PaneId,
    pub active: Option<TerminalPaneId>,
    pub in_split: bool,
    pub maximized: bool,
    /// The input source that each pane was left with.
    pub sources: Map<PaneId, Seq<char>>,
}

/// An operation on a pane group's focus.
pub enum FocusOp {
    /// Move the focus to `pane_id`, where `current` is the system's input source, if known.
    Focus { pane_id: PaneId, current: Option<Seq<char>> },
    SetActive(Option<TerminalPaneId>),
    SetInSplit(bool),
    SetMaximized(bool),
    ToggleMaximized,
    RemoveSource(PaneId),
}

impl FocusModel {
    /// How `pane_id` takes part in the group's split.
    pub open spec fn split_state(self, pane_id: PaneId) -> SplitPaneState {
        if !self.in_split {
            SplitPaneState::NotInSplitPane
        } else if pane_id != self.focused {
            SplitPaneState::InSplitPane(PaneState::Unfocused)
        } else if self.maximized {
            SplitPaneState::InSplitPane(PaneState::Maximized)
        } else {
            SplitPaneState::InSplitPane(PaneState::Focused)
        }
    }

    /// `pane_id` hosts the active terminal session.
    pub open spec fn is_active(self, pane_id: PaneId) -> bool {
        pane_id.terminal() is Some && pane_id.terminal() == self.active
    }

    /// The group after `op`.
    pub open spec fn after(self, op: FocusOp) -> FocusModel {
        match op {
            FocusOp::Focus { pane_id, current } => if pane_id == self.focused {
                self
            } else {
                FocusModel {
                    focused: pane_id,
                    maximized: false,
                    sources: with_source(self.sources, self.focused, current),
                    ..self
                }
            },
            FocusOp::SetActive(session_id) => FocusModel { active: session_id, ..self },
            FocusOp::SetInSplit(in_split) => FocusModel { in_split, ..self },
            FocusOp::SetMaximized(maximized) => FocusModel { maximized, ..self },
            FocusOp::ToggleMaximized => FocusModel { maximized: !self.maximized, ..self },
            FocusOp::RemoveSource(pane_id) => FocusModel {
                sources: self.sources.remove(pane_id),
                ..self
            },
        }
    }

    /// The event that `op` emits.
    pub open spec fn event(self, op: FocusOp) -> Option<PaneGroupFocusEvent> {
        match op {
            FocusOp::Focus { pane_id, current } => if pane_id == self.focused {
                None
            } else {
                Some(
                    PaneGroupFocusEvent::FocusChanged {
                        old_focused: self.focused,
                        new_focused: pane_id,
                    },
                )
            },
            FocusOp::SetActive(session_id) => if session_id == self.active {
                None
            } else {
                Some(
                    PaneGroupFocusEvent::ActiveSessionChanged {
                        old_active: self.active,
                        new_active: session_id,
                    },
                )
            },
            FocusOp::SetInSplit(in_split) => if in_split == self.in_split {
                None
            } else {
                Some(PaneGroupFocusEvent::InSplitPaneChanged)
            },
            FocusOp::SetMaximized(maximized) => if maximized == self.maximized {
                None
            } else {
                Some(PaneGroupFocusEvent::FocusedPaneMaximizedChanged)
            },
            FocusOp::ToggleMaximized => Some(PaneGroupFocusEvent::FocusedPaneMaximizedChanged),
            FocusOp::RemoveSource(pane_id) => None,
        }
    }

    /// The input source that `op` has the system switch to.
    pub open spec fn selects(self, op: FocusOp) -> Option<Seq<char>> {
        match op {
            FocusOp::Focus { pane_id, current } => if pane_id == self.focused {
                None
            } else {
                source_of(self.sources, pane_id)
            },
            _ => None,
        }
    }
}

/// What a move of the focus asks of the caller.
#[derive(Debug)]
pub struct FocusChange {
    /// The input source to switch the system to, if the newly focused pane was left with one.
    /// Otherwise the pane inherits the current source.
    pub input_source: Option<String>,
    /// The event to emit.
    pub event: PaneGroupFocusEvent,
}

/// Centralized focus state for a pane group.
///
/// Tracks which pane is focused, which session is active, and whether panes are split. Individual
/// panes follow the events that its operations return to keep their split pane state up to date.
#[derive(Debug)]
pub struct PaneGroupFocusState {
    focused_pane_id: PaneId,
    active_session_id: Option<TerminalPaneId>,
    in_split_pane: bool,
    is_focused_pane_maximized: bool,
    pane_input_sources: PaneInputSourceState,
}

impl View for PaneGroupFocusState {
    type V = FocusModel;

    closed spec fn view(&self) -> FocusModel {
        FocusModel {
            focused: self.focused_pane_id,
            active: self.active_session_id,
            in_split: self.in_split_pane,
            maximized: self.is_focused_pane_maximized,
            sources: self.pane_input_sources@,
        }
    }
}

impl PaneGroupFocusState {
    /// Returns the state of a group whose focused pane is not maximized.
    ///
    /// `initial_input_source` is the system's input source, or `None` where it is not known; the
    /// focused pane is recorded with it.
    pub fn new(
        focused_pane_id: PaneId,
        active_session_id: Option<TerminalPaneId>,
        in_split_pane: bool,
        initial_input_source: Option<String>,
    ) -> (state: Self)
        ensures
            state@ == (FocusModel {
                focused: focused_pane_id,
                active: active_session_id,
                in_split: in_split_pane,
                maximized: false,
                sources: with_source(Map::empty(), focused_pane_id, text(initial_input_source)),
            }),
    {
        Self {
            focused_pane_id,
            active_session_id,
            in_split_pane,
            is_focused_pane_maximized: false,
            pane_input_sources: PaneInputSourceState::with_initial_source(
                focused_pane_id,
                initial_input_source,
            ),
        }
    }

    /// Returns the currently focused pane ID.
    pub fn focused_pane_id(&self) -> (pane_id: PaneId)
        ensures
            pane_id == self@.focused,
    {
        self.focused_pane_id
    }

    /// Returns the active terminal session ID, if any.
    pub fn active_session_id(&self) -> (session_id: Option<TerminalPaneId>)
        ensures
            session_id == self@.active,
    {
        self.active_session_id
    }

    /// Returns true if the given pane is the focused pane.
    pub fn is_pane_focused(&self, pane_id: PaneId) -> (r: bool)
        ensures
            r == (pane_id == self@.focused),
    {
        self.focused_pane_id == pane_id
    }

    /// Returns true if there is more than one visible pane (i.e., panes are split).
    pub fn is_in_split_pane(&self) -> (r: bool)
        ensures
            r == self@.in_split,
    {
        self.in_split_pane
    }

    /// Returns true if the focused pane is maximized.
    pub fn is_focused_pane_maximized(&self) -> (r: bool)
        ensures
            r == self@.maximized,
    {
        self.is_focused_pane_maximized
    }

    /// Computes the split pane state for a given pane based on current focus state.
    pub fn split_pane_state_for(&self, pane_id: PaneId) -> (state: SplitPaneState)
        ensures
            state == self@.split_state(pane_id),
    {
        if !self.in_split_pane {
            return SplitPaneState::NotInSplitPane;
        }
        let is_focused = self.focused_pane_id == pane_id;
        if is_focused && self.is_focused_pane_maximized {
            SplitPaneState::InSplitPane(PaneState::Maximized)
        } else if is_focused {
            SplitPaneState::InSplitPane(PaneState::Focused)
        } else {
            SplitPaneState::InSplitPane(PaneState::Unfocused)
        }
    }

    /// Moves the focus to `pane_id`, and clears the maximized state along with it.
    ///
    /// `current_source` is the system's input source, or `None` where it is not known; the pane
    /// that loses the focus is recorded with it. Returns what is left to do, or `None` if
    /// `pane_id` had the focus already.
    pub fn set_focused_pane(&mut self, pane_id: PaneId, current_source: Option<String>) -> (change:
        Option<FocusChange>)
        ensures
            ({
                let op = FocusOp::Focus { pane_id, current: text(current_source) };
                &&& final(self)@ == old(self)@.after(op)
                &&& change is Some <==> old(self)@.event(op) is Some
                &&& change matches Some(c) ==> {
                    &&& Some(c.event) == old(self)@.event(op)
                    &&& text(c.input_source) == old(self)@.selects(op)
                }
            }),
    {
        let old_focused = self.focused_pane_id;
        if old_focused == pane_id {
            return None;
        }
        self.save_input_source_for_pane(old_focused, current_source);
        let input_source = match self.restore_input_source_for_pane(pane_id) {
            Some(source_id) => Some(source_id.to_owned()),
            None => None,
        };
        self.focused_pane_id = pane_id;
        self.is_focused_pane_maximized = false;
        Some(
            FocusChange {
                input_source,
                event: PaneGroupFocusEvent::FocusChanged { old_focused, new_focused: pane_id },
            },
        )
    }

    /// Records the system's input source for the given pane. Does nothing if it is not known.
    pub fn save_input_source_for_pane(&mut self, pane_id: PaneId, current_source: Option<String>)
        ensures
            final(self)@ == (FocusModel {
                sources: with_source(old(self)@.sources, pane_id, text(current_source)),
                ..old(self)@
            }),
    {
        if let Some(source_id) = current_source {
            self.pane_input_sources.set(pane_id, source_id);
        }
    }

    /// Returns the input source to switch to when the given pane gets the focus. There is none for
    /// a pane without a recorded source.
    pub fn restore_input_source_for_pane(&self, pane_id: PaneId) -> (source_id: Option<&str>)
        ensures
            source_id is Some <==> source_of(self@.sources, pane_id) is Some,
            source_id matches Some(s) ==> Some(s@) == source_of(self@.sources, pane_id),
    {
        self.pane_input_sources.get(pane_id)
    }

    /// Drops the recorded input source of a pane that no longer exists.
    pub fn remove_pane_input_source(&mut self, pane_id: PaneId)
        ensures
            final(self)@ == old(self)@.after(FocusOp::RemoveSource(pane_id)),
    {
        self.pane_input_sources.remove(pane_id);
    }

    /// Sets the active terminal session. Returns the event to emit, if the session is another one.
    pub fn set_active_session(&mut self, session_id: Option<TerminalPaneId>) -> (event: Option<
        PaneGroupFocusEvent,
    >)
        ensures
            final(self)@ == old(self)@.after(FocusOp::SetActive(session_id)),
            event == old(self)@.event(FocusOp::SetActive(session_id)),
    {
        let old_active = self.active_session_id;
        let unchanged = match (old_active, session_id) {
            (Some(old_id), Some(new_id)) => old_id == new_id,
            (None, None) => true,
            _ => false,
        };
        if unchanged {
            return None;
        }
        self.active_session_id = session_id;
        Some(PaneGroupFocusEvent::ActiveSessionChanged { old_active, new_active: session_id })
    }

    /// Sets whether or not the pane group has multiple split panes. Returns the event to emit, if
    /// that is a change.
    pub fn set_in_split_pane(&mut self, in_split_pane: bool) -> (event: Option<PaneGroupFocusEvent>)
        ensures
            final(self)@ == old(self)@.after(FocusOp::SetInSplit(in_split_pane)),
            event == old(self)@.event(FocusOp::SetInSplit(in_split_pane)),
    {
        if self.in_split_pane == in_split_pane {
            return None;
        }
        self.in_split_pane = in_split_pane;
        Some(PaneGroupFocusEvent::InSplitPaneChanged)
    }

    /// Sets whether the focused pane is maximized. Returns the event to emit, if that is a change.
    pub fn set_focused_pane_maximized(&mut self, maximized: bool) -> (event: Option<
        PaneGroupFocusEvent,
    >)
        ensures
            final(self)@ == old(self)@.after(FocusOp::SetMaximized(maximized)),
            event == old(self)@.event(FocusOp::SetMaximized(maximized)),
    {
        if self.is_focused_pane_maximized == maximized {
            return None;
        }
        self.is_focused_pane_maximized = maximized;
        Some(PaneGroupFocusEvent::FocusedPaneMaximizedChanged)
    }

    /// Toggles whether the focused pane is maximized. Returns the event to emit.
    pub fn toggle_focused_pane_maximized(&mut self) -> (event: PaneGroupFocusEvent)
        ensures
            final(self)@ == old(self)@.after(FocusOp::ToggleMaximized),
            Some(event) == old(self)@.event(FocusOp::ToggleMaximized),
    {
        self.is_focused_pane_maximized = !self.is_focused_pane_maximized;
        PaneGroupFocusEvent::FocusedPaneMaximizedChanged
    }

    /// Sets the in-split state from a test.
    pub fn set_in_split_pane_for_test(&mut self, in_split_pane: bool) -> (event: Option<
        PaneGroupFocusEvent,
    >)
        ensures
            final(self)@ == old(self)@.after(FocusOp::SetInSplit(in_split_pane)),
            event == old(self)@.event(FocusOp::SetInSplit(in_split_pane)),
    {
        self.set_in_split_pane(in_split_pane)
    }
}

/// One pane's access to the focus state of its group.
///
/// `H` is whatever the caller reaches the shared state by. The queries are answered from the state
/// that the handle leads to.
#[derive(Debug)]
pub struct PaneFocusHandle<H> {
    focus_state: H,
    pane_id: PaneId,
}

impl<H: Clone> Clone for PaneFocusHandle<H> {
    /// Returns a handle of the same pane, on a clone of what leads to the shared state.
    fn clone(&self) -> (handle: Self)
        ensures
            handle.pane() == self.pane(),
            cloned::<H>(self.handle(), handle.handle()),
    {
        Self { focus_state: self.focus_state.clone(), pane_id: self.pane_id }
    }
}

impl<H> PaneFocusHandle<H> {
    /// The pane that the handle is for.
    pub closed spec fn pane(&self) -> PaneId {
        self.pane_id
    }

    /// What leads to the shared state.
    pub closed spec fn handle(&self) -> H {
        self.focus_state
    }

    /// Returns the handle of `pane_id` on the state behind `focus_state`.
    pub fn new(pane_id: PaneId, focus_state: H) -> (handle: Self)
        ensures
            handle.pane() == pane_id,
            handle.handle() == focus_state,
    {
        Self { focus_state, pane_id }
    }

    /// The current split-pane state of this pane.
    pub fn split_pane_state(&self, focus_state: &PaneGroupFocusState) -> (state: SplitPaneState)
        ensures
            state == focus_state@.split_state(self.pane()),
    {
        focus_state.split_pane_state_for(self.pane_id)
    }

    /// True if this pane is currently maximized.
    pub fn is_maximized(&self, focus_state: &PaneGroupFocusState) -> (r: bool)
        ensures
            r == focus_state@.split_state(self.pane()).maximized(),
    {
        self.split_pane_state(focus_state).is_maximized()
    }

    /// True if this pane is part of a split.
    pub fn is_in_split_pane(&self, focus_state: &PaneGroupFocusState) -> (r: bool)
        ensures
            r == focus_state@.split_state(self.pane()).in_split(),
    {
        self.split_pane_state(focus_state).is_in_split_pane()
    }

    /// True if this pane is focused.
    pub fn is_focused(&self, focus_state: &PaneGroupFocusState) -> (r: bool)
        ensures
            r == focus_state@.split_state(self.pane()).focused(),
    {
        self.split_pane_state(focus_state).is_focused()
    }

    /// True if this pane is the active terminal session.
    pub fn is_active_session(&self, focus_state: &PaneGroupFocusState) -> (r: bool)
        ensures
            r == focus_state@.is_active(self.pane()),
    {
        match self.pane_id.as_terminal_pane_id() {
            Some(terminal_id) => is_session(focus_state.active_session_id(), terminal_id),
            None => false,
        }
    }

    /// Returns a reference to what leads to the shared state, for following its events.
    pub fn focus_state_handle(&self) -> (handle: &H)
        ensures
            *handle == self.handle(),
    {
        &self.focus_state
    }

    /// Returns the pane ID associated with this focus handle.
    pub fn pane_id(&self) -> (pane_id: PaneId)
        ensures
            pane_id == self.pane(),
    {
        self.pane_id
    }

    /// Whether or not a focus-change event affects the pane associated with this handle.
    ///
    /// The implementation prioritizes correctness over efficiency:
    /// * Changes in focus affect this pane if it gains or loses focus.
    /// * Changes in the active session affect this pane if it was or became active.
    /// * Changes to maximization and whether or not there are split panes *always* affect this pane.
    pub fn is_affected(&self, event: &PaneGroupFocusEvent) -> (r: bool)
        ensures
            r == event.affects(self.pane()),
    {
        match *event {
            PaneGroupFocusEvent::FocusChanged { old_focused, new_focused } => {
                old_focused == self.pane_id || new_focused == self.pane_id
            },
            PaneGroupFocusEvent::ActiveSessionChanged { old_active, new_active } => {
                match self.pane_id.as_terminal_pane_id() {
                    Some(id) => is_session(old_active, id) || is_session(new_active, id),
                    None => false,
                }
            },
            PaneGroupFocusEvent::InSplitPaneChanged => true,
            PaneGroupFocusEvent::FocusedPaneMaximizedChanged => true,
        }
    }
}

/// True if `active` is the session `id`.
fn is_session(active: Option<TerminalPaneId>, id: TerminalPaneId) -> (r: bool)
    ensures
        r == (active == Some(id)),
{
    match active {
        Some(active_id) => active_id == id,
        None => false,
    }
}

} // verus!
