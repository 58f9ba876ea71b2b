//! What holds of a pane group's focus over its operations.

use vstd::prelude::*;

#[allow(unused_imports)]
use crate::focus_state::{source_of, text, with_source, FocusModel, FocusOp, PaneGroupFocusEvent};
#[allow(unused_imports)]
use crate::pane::{PaneId, PaneState, SplitPaneState, TerminalPaneId};

verus! {

/// The group after all of `ops`, in order.
pub open spec fn after_all(group: FocusModel, ops: Seq<FocusOp>) -> FocusModel
    decreases ops.len(),
{
    if ops.len() == 0 {
        group
    } else {
        after_all(group, ops.drop_last()).after(ops.last())
    }
}

/// `op` neither moves the focus to `pane_id` nor drops its recorded input source.
pub open spec fn leaves_alone(op: FocusOp, pane_id: PaneId) -> bool {
    match op {
        FocusOp::Focus { pane_id: target, current } => target != pane_id,
        FocusOp::RemoveSource(target) => target != pane_id,
        _ => true,
    }
}

/// `op` reports no input source.
pub open spec fn reports_no_source(op: FocusOp) -> bool {
    op matches FocusOp::Focus { pane_id, current } ==> current is None
}

/// Every pane whose split pane state or active session changes is told: the operation emits an
/// event, and the event affects that pane.
pub proof fn changed_panes_are_affected(group: FocusModel, op: FocusOp, pane_id: PaneId)
    ensures
        group.after(op).split_state(pane_id) != group.split_state(pane_id) || group.after(
            op,
        ).is_active(pane_id) != group.is_active(pane_id) ==> {
            &&& group.event(op) is Some
            &&& group.event(op)->0.affects(pane_id)
        },
{
}

/// An operation that emits no event changes nothing but recorded input sources, and those only if
/// it drops one.
pub proof fn silent_operations_change_nothing_visible(group: FocusModel, op: FocusOp)
    requires
        group.event(op) is None,
    ensures
        group.after(op) == (FocusModel { sources: group.after(op).sources, ..group }),
        !(op is RemoveSource) ==> group.after(op) == group,
{
}

/// An operation that emits an event does change the group.
pub proof fn events_are_not_spurious(group: FocusModel, op: FocusOp)
    requires
        group.event(op) is Some,
    ensures
        group.after(op) != group,
{
}

/// Of the panes of a split exactly the focused one has the focus, and only it can be maximized.
pub proof fn one_pane_has_the_focus(group: FocusModel, pane_id: PaneId)
    requires
        group.in_split,
    ensures
        group.split_state(pane_id).focused() <==> pane_id == group.focused,
        group.split_state(pane_id).maximized() <==> pane_id == group.focused && group.maximized,
{
}

/// Outside a split every pane reads the same, whatever has the focus.
pub proof fn lone_panes_are_not_split(group: FocusModel, pane_id: PaneId)
    requires
        !group.in_split,
    ensures
        !group.split_state(pane_id).in_split(),
        !group.split_state(pane_id).maximized(),
        group.split_state(pane_id).focused(),
{
}

/// A pane that is given the focus has it, and if it did not have it before, no pane is maximized
/// any more.
pub proof fn focusing_clears_maximized(
    group: FocusModel,
    pane_id: PaneId,
    current: Option<Seq<char>>,
    other: PaneId,
)
    ensures
        group.after(FocusOp::Focus { pane_id, current }).focused == pane_id,
        pane_id != group.focused ==> !group.after(
            FocusOp::Focus { pane_id, current },
        ).split_state(other).maximized(),
{
}

/// Toggling the maximized state twice restores the group.
pub proof fn toggling_twice_restores(group: FocusModel)
    ensures
        group.after(FocusOp::ToggleMaximized).after(FocusOp::ToggleMaximized) == group,
{
}

/// What is recorded for a pane without the focus stays, whatever is done to the rest of the group.
pub proof fn sources_of_unfocused_panes_stay(group: FocusModel, ops: Seq<FocusOp>, pane_id: PaneId)
    requires
        pane_id != group.focused,
        forall|i: int| 0 <= i < ops.len() ==> leaves_alone(#[trigger] ops[i], pane_id),
    ensures
        source_of(after_all(group, ops).sources, pane_id) == source_of(group.sources, pane_id),
        after_all(group, ops).focused != pane_id,
    decreases ops.len(),
{
    if ops.len() > 0 {
        assert forall|i: int| 0 <= i < ops.drop_last().len() implies leaves_alone(
            #[trigger] ops.drop_last()[i],
            pane_id,
        ) by {
            assert(ops.drop_last()[i] == ops[i]);
        }
        sources_of_unfocused_panes_stay(group, ops.drop_last(), pane_id);
        assert(leaves_alone(ops[ops.len() - 1], pane_id));
    }
}

/// A pane gets back the input source that it was left with: when the focus leaves it while the
/// system uses `source`, and returns after any other operations, `source` is selected again.
pub proof fn returning_restores_the_source(
    group: FocusModel,
    away_to: PaneId,
    source: Seq<char>,
    ops: Seq<FocusOp>,
    current: Option<Seq<char>>,
)
    requires
        away_to != group.focused,
        forall|i: int| 0 <= i < ops.len() ==> leaves_alone(#[trigger] ops[i], group.focused),
    ensures
        after_all(
            group.after(FocusOp::Focus { pane_id: away_to, current: Some(source) }),
            ops,
        ).selects(FocusOp::Focus { pane_id: group.focused, current }) == Some(source),
{
    sources_of_unfocused_panes_stay(
        group.after(FocusOp::Focus { pane_id: away_to, current: Some(source) }),
        ops,
        group.focused,
    );
}

/// A pane without a recorded source keeps the system's current one when it gets the focus.
pub proof fn new_panes_inherit_the_source(
    group: FocusModel,
    pane_id: PaneId,
    current: Option<Seq<char>>,
)
    requires
        source_of(group.sources, pane_id) is None,
    ensures
        group.selects(FocusOp::Focus { pane_id, current }) is None,
{
}

/// A pane whose source was dropped while it did not have the focus has none to get back.
pub proof fn removed_panes_have_no_source(
    group: FocusModel,
    pane_id: PaneId,
    ops: Seq<FocusOp>,
    current: Option<Seq<char>>,
)
    requires
        pane_id != group.focused,
        forall|i: int| 0 <= i < ops.len() ==> leaves_alone(#[trigger] ops[i], pane_id),
    ensures
        after_all(group.after(FocusOp::RemoveSource(pane_id)), ops).selects(
            FocusOp::Focus { pane_id, current },
        ) is None,
{
    sources_of_unfocused_panes_stay(
        group.after(FocusOp::RemoveSource(pane_id)),
        ops,
        pane_id,
    );
}

/// Where the system's input source is never known, none is ever recorded or selected.
pub proof fn unknown_sources_are_never_selected(
    group: FocusModel,
    ops: Seq<FocusOp>,
    next: FocusOp,
)
    requires
        group.sources == Map::<PaneId, Seq<char>>::empty(),
        forall|i: int| 0 <= i < ops.len() ==> reports_no_source(#[trigger] ops[i]),
    ensures
        after_all(group, ops).sources == Map::<PaneId, Seq<char>>::empty(),
        after_all(group, ops).selects(next) is None,
    decreases ops.len(),
{
    if ops.len() > 0 {
        assert forall|i: int| 0 <= i < ops.drop_last().len() implies reports_no_source(
            #[trigger] ops.drop_last()[i],
        ) by {
            assert(ops.drop_last()[i] == ops[i]);
        }
        unknown_sources_are_never_selected(group, ops.drop_last(), next);
        assert(reports_no_source(ops[ops.len() - 1]));
        assert(after_all(group, ops).sources =~= Map::<PaneId, Seq<char>>::empty());
    }
}

/// What a pane shows follows from three things: whether the group is split, whether the pane has
/// the focus, and whether the focused pane is maximized.
pub proof fn panes_show_their_part(group: FocusModel, pane_id: PaneId)
    ensures
        group.split_state(pane_id) is NotInSplitPane <==> !group.in_split,
        group.split_state(pane_id) == SplitPaneState::InSplitPane(PaneState::Unfocused)
            <==> group.in_split && pane_id != group.focused,
        group.split_state(pane_id) == SplitPaneState::InSplitPane(PaneState::Maximized)
            <==> group.in_split && pane_id == group.focused && group.maximized,
        group.split_state(pane_id) == SplitPaneState::InSplitPane(PaneState::Focused)
            <==> group.in_split && pane_id == group.focused && !group.maximized,
{
}

/// A terminal pane is active exactly if its session is the active one; no other pane ever is.
pub proof fn active_panes_host_the_session(group: FocusModel, id: TerminalPaneId, number: u64)
    ensures
        group.is_active(PaneId::Terminal(id)) <==> group.active == Some(id),
        !group.is_active(PaneId::Other(number)),
{
}

/// After the group was set to be split or not, it is so, and nothing else has changed. The change
/// is told exactly if there is one.
pub proof fn splits_are_recorded(group: FocusModel, in_split: bool)
    ensures
        ({
            let op = FocusOp::SetInSplit(in_split);
            let after = group.after(op);
            &&& after.in_split == in_split
            &&& after.focused == group.focused
            &&& after.active == group.active
            &&& after.maximized == group.maximized
            &&& after.sources == group.sources
            &&& group.event(op) is None <==> in_split == group.in_split
            &&& group.event(op) matches Some(event) ==> event is InSplitPaneChanged
            &&& group.selects(op) is None
            &&& after.event(op) is None
        }),
{
}

/// After the focused pane was set to be maximized or not, it is so, and nothing else has changed.
/// The change is told exactly if there is one.
pub proof fn maximizing_is_recorded(group: FocusModel, maximized: bool)
    ensures
        ({
            let op = FocusOp::SetMaximized(maximized);
            let after = group.after(op);
            &&& after.maximized == maximized
            &&& after.focused == group.focused
            &&& after.active == group.active
            &&& after.in_split == group.in_split
            &&& after.sources == group.sources
            &&& group.event(op) is None <==> maximized == group.maximized
            &&& group.event(op) matches Some(event) ==> event is FocusedPaneMaximizedChanged
            &&& group.selects(op) is None
            &&& after.event(op) is None
        }),
{
}

/// Toggling turns the maximized state round, changes nothing else, and is always told.
pub proof fn toggling_is_recorded(group: FocusModel)
    ensures
        ({
            let op = FocusOp::ToggleMaximized;
            let after = group.after(op);
            &&& after.maximized != group.maximized
            &&& after.focused == group.focused
            &&& after.active == group.active
            &&& after.in_split == group.in_split
            &&& after.sources == group.sources
            &&& group.event(op) matches Some(event) && event is FocusedPaneMaximizedChanged
            &&& group.selects(op) is None
        }),
{
}

/// After a session was made the active one, it is, and nothing else has changed. The change is told
/// exactly if there is one, with the session before and the session after it.
pub proof fn sessions_are_recorded(group: FocusModel, session_id: Option<TerminalPaneId>)
    ensures
        ({
            let op = FocusOp::SetActive(session_id);
            let after = group.after(op);
            &&& after.active == session_id
            &&& after.focused == group.focused
            &&& after.in_split == group.in_split
            &&& after.maximized == group.maximized
            &&& after.sources == group.sources
            &&& group.event(op) is None <==> session_id == group.active
            &&& group.event(op) matches Some(event) ==> {
                event matches PaneGroupFocusEvent::ActiveSessionChanged { old_active, new_active }
                    && old_active == group.active && new_active == after.active
            }
            &&& group.selects(op) is None
            &&& after.event(op) is None
        }),
{
}

/// A pane that is given the focus has it. If it did not have it before, the focused pane is no
/// longer maximized, the pane that lost the focus is recorded with the system's input source, and
/// the move is told with both panes; nothing else has changed.
pub proof fn focus_moves_are_recorded(
    group: FocusModel,
    pane_id: PaneId,
    current: Option<Seq<char>>,
    other: PaneId,
)
    ensures
        ({
            let op = FocusOp::Focus { pane_id, current };
            let after = group.after(op);
            &&& after.focused == pane_id
            &&& after.active == group.active
            &&& after.in_split == group.in_split
            &&& pane_id == group.focused ==> after == group
            &&& pane_id != group.focused ==> !after.maximized
            &&& group.event(op) is None <==> pane_id == group.focused
            &&& group.event(op) matches Some(event) ==> {
                event matches PaneGroupFocusEvent::FocusChanged { old_focused, new_focused }
                    && old_focused == group.focused && new_focused == after.focused
            }
            &&& other != group.focused ==> {
                &&& after.sources.contains_key(other) == group.sources.contains_key(other)
                &&& group.sources.contains_key(other) ==> after.sources[other]
                    == group.sources[other]
            }
            &&& current is None ==> after.sources == group.sources
            &&& pane_id != group.focused && current is Some ==> {
                &&& after.sources.contains_key(group.focused)
                &&& Some(after.sources[group.focused]) == current
            }
            &&& after.event(op) is None
        }),
{
}

/// When the focus moves, the system is switched to what the newly focused pane was left with, and
/// to nothing if that pane has no recorded source. Nothing is switched if the focus stays.
pub proof fn focus_moves_select_the_recorded_source(
    group: FocusModel,
    pane_id: PaneId,
    current: Option<Seq<char>>,
)
    ensures
        ({
            let selected = group.selects(FocusOp::Focus { pane_id, current });
            &&& selected is Some <==> pane_id != group.focused && group.sources.contains_key(
                pane_id,
            )
            &&& selected matches Some(source) ==> source == group.sources[pane_id]
        }),
{
}

/// After a pane's source was dropped there is none. The other panes keep theirs, and nothing else
/// has changed or is told.
pub proof fn dropped_sources_are_gone(group: FocusModel, pane_id: PaneId, other: PaneId)
    ensures
        ({
            let op = FocusOp::RemoveSource(pane_id);
            let after = group.after(op);
            &&& !after.sources.contains_key(pane_id)
            &&& other != pane_id ==> {
                &&& after.sources.contains_key(other) == group.sources.contains_key(other)
                &&& group.sources.contains_key(other) ==> after.sources[other]
                    == group.sources[other]
            }
            &&& after.focused == group.focused
            &&& after.active == group.active
            &&& after.in_split == group.in_split
            &&& after.maximized == group.maximized
            &&& group.event(op) is None
            &&& group.selects(op) is None
        }),
{
}

/// A recorded source is the one that is found for its pane, and no other pane's source changes. If
/// there is no source to record, nothing changes.
pub proof fn recorded_sources_are_found(
    sources: Map<PaneId, Seq<char>>,
    pane_id: PaneId,
    source: Seq<char>,
    other: PaneId,
)
    ensures
        source_of(with_source(sources, pane_id, Some(source)), pane_id) == Some(source),
        other != pane_id ==> source_of(with_source(sources, pane_id, Some(source)), other)
            == source_of(sources, other),
        with_source(sources, pane_id, None) == sources,
        with_source(sources, pane_id, Some(source)).contains_key(pane_id),
        with_source(sources, pane_id, Some(source))[pane_id] == source,
        other != pane_id ==> with_source(sources, pane_id, Some(source)).contains_key(other)
            == sources.contains_key(other),
        source_of(sources, other) is Some <==> sources.contains_key(other),
        sources.contains_key(other) ==> source_of(sources, other) == Some(sources[other]),
{
}

/// A string is known by its characters, even if there are none; only a missing one is not.
pub proof fn strings_are_known_by_their_text(source: String)
    ensures
        text(Some(source)) == Some(source@),
        text(None) is None,
{
}

/// A move of the focus concerns the two panes that lose and gain it, a change of the active session
/// the panes of the two sessions, and any other event every pane.
pub proof fn events_affect_whom_they_concern(
    pane_id: PaneId,
    old_focused: PaneId,
    new_focused: PaneId,
    id: TerminalPaneId,
    number: u64,
    old_active: Option<TerminalPaneId>,
    new_active: Option<TerminalPaneId>,
)
    ensures
        (PaneGroupFocusEvent::FocusChanged { old_focused, new_focused }).affects(pane_id)
            <==> pane_id == old_focused || pane_id == new_focused,
        (PaneGroupFocusEvent::ActiveSessionChanged { old_active, new_active }).affects(
            PaneId::Terminal(id),
        ) <==> old_active == Some(id) || new_active == Some(id),
        !(PaneGroupFocusEvent::ActiveSessionChanged { old_active, new_active }).affects(
            PaneId::Other(number),
        ),
        PaneGroupFocusEvent::InSplitPaneChanged.affects(pane_id),
        PaneGroupFocusEvent::FocusedPaneMaximizedChanged.affects(pane_id),
{
}

} // verus!
