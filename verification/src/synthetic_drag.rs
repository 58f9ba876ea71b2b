//! Synthetic drags: while the mouse is held in a drag, the last drag event is repeated at short
//! intervals, so that a view keeps scrolling although the mouse rests.
//!
//! Every drag has an ID, and it goes on only while its ID is the last one that its window gave out.
//! To stop a drag it is enough to give out another ID.

use vstd::prelude::*;

use crate::events::Event;
#[allow(unused_imports)]
use crate::window_state::WindowModel;

verus! {

/// How long a synthetic drag waits for its next turn.
pub const SYNTHETIC_DRAG_INTERVAL_MILLIS: u64 = 16;

/// A synthetic drag that waits for its turn.
#[derive(Debug, Clone, Copy, PartialEq, Eq)]
pub struct SyntheticDrag<P, M> {
    pub drag_id: usize,
    /// How long to wait.
    pub delay_millis: u64,
    pub position: P,
    pub modifiers: M,
}

/// What a synthetic drag does in its turn.
#[derive(Debug)]
pub struct DragTick<P, M, X> {
    /// The drag to schedule in its place.
    pub next: SyntheticDrag<P, M>,
    /// The event to dispatch.
    pub event: Event<P, M, X>,
}

/// A window, and the IDs of the synthetic drags that wait for a turn on it.
pub struct DragLoops<D, M, S, C, B> {
    pub window: WindowModel<D, M, S, C, B>,
    pub waiting: Seq<nat>,
}

/// Something that happens to the synthetic drags of a window.
pub enum DragOp {
    /// The mouse is dragged: a synthetic drag is scheduled.
    Start,
    /// The mouse is released, or the drag is cancelled: an ID is given out to no drag.
    Supersede,
    /// The drag at this place among the waiting ones has its turn.
    Turn(int),
}

impl<D, M, S, C, B> DragLoops<D, M, S, C, B> {
    /// `op` can happen now.
    pub open spec fn enabled(self, op: DragOp) -> bool {
        op matches DragOp::Turn(i) ==> 0 <= i < self.waiting.len()
    }

    /// What is there after `op`.
    pub open spec fn after(self, op: DragOp) -> Self {
        match op {
            DragOp::Start => DragLoops {
                window: self.window.superseded(),
                waiting: self.waiting.push(self.window.superseded().drag_counter),
            },
            DragOp::Supersede => DragLoops { window: self.window.superseded(), ..self },
            DragOp::Turn(i) => if self.window.continues(self.waiting[i]) {
                DragLoops {
                    window: self.window.superseded(),
                    waiting: self.waiting.remove(i).push(self.window.superseded().drag_counter),
                }
            } else {
                DragLoops { waiting: self.waiting.remove(i), ..self }
            },
        }
    }

    /// All of `ops` can happen, one after the other.
    pub open spec fn all_enabled(self, ops: Seq<DragOp>) -> bool
        decreases ops.len(),
    {
        ops.len() > 0 ==> self.all_enabled(ops.drop_last()) && self.after_all(
            ops.drop_last(),
        ).enabled(ops.last())
    }

    /// What is there after all of `ops`.
    pub open spec fn after_all(self, ops: Seq<DragOp>) -> Self
        decreases ops.len(),
    {
        if ops.len() == 0 {
            self
        } else {
            self.after_all(ops.drop_last()).after(ops.last())
        }
    }

    /// Every waiting drag has an ID of its own, which the window gave out.
    pub open spec fn well_formed(self) -> bool {
        &&& forall|i: int|
            0 <= i < self.waiting.len() ==> #[trigger] self.waiting[i] <= self.window.drag_counter
        &&& self.waiting.no_duplicates()
    }
}

/// No two drags ever wait under the same ID.
pub proof fn drags_stay_distinct<D, M, S, C, B>(drags: DragLoops<D, M, S, C, B>, ops: Seq<DragOp>)
    requires
        drags.well_formed(),
        drags.all_enabled(ops),
    ensures
        drags.after_all(ops).well_formed(),
    decreases ops.len(),
{
    if ops.len() > 0 {
        drags_stay_distinct(drags, ops.drop_last());
        let before = drags.after_all(ops.drop_last());
        let after = before.after(ops.last());
        if let DragOp::Turn(i) = ops.last() {
            let rest = before.waiting.remove(i);
            assert forall|j: int| 0 <= j < rest.len() implies #[trigger] rest[j]
                <= before.window.drag_counter by {
                assert(rest[j] == before.waiting[if j < i { j } else { j + 1 }]);
            }
            assert(rest.no_duplicates()) by {
                assert forall|j: int, k: int|
                    0 <= j < rest.len() && 0 <= k < rest.len() && j != k implies rest[j]
                    != rest[k] by {
                    assert(rest[j] == before.waiting[if j < i { j } else { j + 1 }]);
                    assert(rest[k] == before.waiting[if k < i { k } else { k + 1 }]);
                }
            }
        }
        assert(after.well_formed());
    }
}

/// At most one of the waiting drags goes on.
pub proof fn one_drag_goes_on<D, M, S, C, B>(drags: DragLoops<D, M, S, C, B>, i: int, j: int)
    requires
        drags.well_formed(),
        0 <= i < drags.waiting.len(),
        0 <= j < drags.waiting.len(),
        drags.window.continues(drags.waiting[i]),
        drags.window.continues(drags.waiting[j]),
    ensures
        i == j,
{
}

/// A drag that was just started is the one that goes on; all that waited before end.
pub proof fn new_drags_supersede<D, M, S, C, B>(drags: DragLoops<D, M, S, C, B>, i: int)
    requires
        drags.well_formed(),
        0 <= i < drags.after(DragOp::Start).waiting.len(),
    ensures
        drags.after(DragOp::Start).window.continues(drags.after(DragOp::Start).waiting[i]) <==> i
            == drags.waiting.len(),
{
    if i < drags.waiting.len() {
        assert(drags.after(DragOp::Start).waiting[i] == drags.waiting[i]);
    }
}

/// Once the mouse is released or the drag is cancelled, no waiting drag goes on.
pub proof fn cancelled_drags_end<D, M, S, C, B>(drags: DragLoops<D, M, S, C, B>, i: int)
    requires
        drags.well_formed(),
        0 <= i < drags.waiting.len(),
    ensures
        !drags.after(DragOp::Supersede).window.continues(
            drags.after(DragOp::Supersede).waiting[i],
        ),
{
    assert(drags.waiting[i] <= drags.window.drag_counter);
}

/// A drag that was superseded never goes on again, and its ID is not given out anew.
pub proof fn superseded_drags_stay_superseded<D, M, S, C, B>(
    drags: DragLoops<D, M, S, C, B>,
    ops: Seq<DragOp>,
    drag_id: nat,
)
    requires
        drag_id < drags.window.drag_counter,
        drags.all_enabled(ops),
    ensures
        drag_id < drags.after_all(ops).window.drag_counter,
        !drags.after_all(ops).window.continues(drag_id),
        drags.after_all(ops).waiting.contains(drag_id) ==> drags.waiting.contains(drag_id),
    decreases ops.len(),
{
    if ops.len() > 0 {
        superseded_drags_stay_superseded(drags, ops.drop_last(), drag_id);
        let before = drags.after_all(ops.drop_last());
        let after = before.after(ops.last());
        if after.waiting.contains(drag_id) {
            let k = choose|k: int| 0 <= k < after.waiting.len() && after.waiting[k] == drag_id;
            match ops.last() {
                DragOp::Start => {
                    assert(before.waiting[k] == drag_id);
                },
                DragOp::Supersede => {},
                DragOp::Turn(i) => {
                    assert(before.waiting[if k < i { k } else { k + 1 }] == drag_id);
                },
            }
            assert(before.waiting.contains(drag_id));
        }
    }
}

/// A drag that waited when the mouse was released or the drag was cancelled never goes on again,
/// whatever happens to the window afterwards.
pub proof fn cancelled_drags_never_go_on<D, M, S, C, B>(
    drags: DragLoops<D, M, S, C, B>,
    i: int,
    ops: Seq<DragOp>,
)
    requires
        drags.well_formed(),
        0 <= i < drags.waiting.len(),
        drags.after(DragOp::Supersede).all_enabled(ops),
    ensures
        !drags.after(DragOp::Supersede).after_all(ops).window.continues(drags.waiting[i]),
{
    assert(drags.waiting[i] <= drags.window.drag_counter);
    superseded_drags_stay_superseded(drags.after(DragOp::Supersede), ops, drags.waiting[i]);
}

/// A drag that goes on is replaced by one that goes on at its next turn, unless something
/// supersedes it in between.
pub proof fn drags_keep_going<D, M, S, C, B>(drags: DragLoops<D, M, S, C, B>, i: int)
    requires
        0 <= i < drags.waiting.len(),
        drags.window.continues(drags.waiting[i]),
    ensures
        ({
            let after = drags.after(DragOp::Turn(i));
            &&& after.waiting.len() == drags.waiting.len()
            &&& after.window.continues(after.waiting.last())
        }),
{
}

} // verus!
