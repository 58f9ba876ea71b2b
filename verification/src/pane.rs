//! Identifiers of panes, and how a pane takes part in a split.

use vstd::prelude::*;

verus! {

/// Identifies a pane that hosts a terminal session.
#[derive(Debug, Clone, Copy, PartialEq, Eq, Structural, Hash)]
pub struct TerminalPaneId(pub u64);

/// Identifies a pane. Terminal panes and panes with other contents are numbered separately.
#[derive(Debug, Clone, Copy, PartialEq, Eq, Structural, Hash)]
pub enum PaneId {
    Terminal(TerminalPaneId),
    Other(u64),
}

/// What a pane shows of its place in a split.
#[derive(Debug, Clone, Copy, PartialEq, Eq, Structural)]
pub enum PaneState {
    Focused,
    Unfocused,
    Maximized,
}

/// Whether a pane shares its group with other visible panes, and in which state it is if so.
#[derive(Debug, Clone, Copy, PartialEq, Eq, Structural)]
pub enum SplitPaneState {
    NotInSplitPane,
    InSplitPane(PaneState),
}

impl PaneId {
    /// The terminal session that `self` hosts, if it is a terminal pane.
    pub open spec fn terminal(self) -> Option<TerminalPaneId> {
        match self {
            PaneId::Terminal(id) => Some(id),
            PaneId::Other(_) => None,
        }
    }

    /// Returns the terminal session that this pane hosts, or `None` for any other pane.
    pub fn as_terminal_pane_id(&self) -> (id: Option<TerminalPaneId>)
        ensures
            id == self.terminal(),
    {
        match *self {
            PaneId::Terminal(id) => Some(id),
            PaneId::Other(_) => None,
        }
    }
}

impl SplitPaneState {
    /// The pane takes part in a split.
    pub open spec fn in_split(self) -> bool {
        self is InSplitPane
    }

    /// The pane covers its whole group.
    pub open spec fn maximized(self) -> bool {
        self == SplitPaneState::InSplitPane(PaneState::Maximized)
    }

    /// The pane has the focus. The only visible pane of a group always has it, and so does a
    /// maximized one.
    pub open spec fn focused(self) -> bool {
        self != SplitPaneState::InSplitPane(PaneState::Unfocused)
    }

    /// True if the pane takes part in a split.
    pub fn is_in_split_pane(&self) -> (r: bool)
        ensures
            r == self.in_split(),
    {
        matches!(self, SplitPaneState::InSplitPane(_))
    }

    /// True if the pane covers its whole group.
    pub fn is_maximized(&self) -> (r: bool)
        ensures
            r == self.maximized(),
    {
        matches!(self, SplitPaneState::InSplitPane(PaneState::Maximized))
    }

    /// True if the pane has the focus.
    pub fn is_focused(&self) -> (r: bool)
        ensures
            r == self.focused(),
    {
        !matches!(self, SplitPaneState::InSplitPane(PaneState::Unfocused))
    }
}

/// A terminal pane hosts the session that it is named after, and no other pane hosts one.
pub proof fn terminal_panes_host_their_session(id: TerminalPaneId, number: u64)
    ensures
        PaneId::Terminal(id).terminal() == Some(id),
        PaneId::Other(number).terminal() is None,
{
}

/// A pane outside a split has the focus and is not maximized. In a split a maximized pane has the
/// focus as well, and only an unfocused one has not.
pub proof fn pane_states_are_told_apart(state: PaneState)
    ensures
        !SplitPaneState::NotInSplitPane.in_split(),
        !SplitPaneState::NotInSplitPane.maximized(),
        SplitPaneState::NotInSplitPane.focused(),
        SplitPaneState::InSplitPane(state).in_split(),
        SplitPaneState::InSplitPane(state).maximized() <==> state is Maximized,
        SplitPaneState::InSplitPane(state).focused() <==> state is Focused || state is Maximized,
{
}

} // verus!
