//! What happens when a window's view changes its size or its backing scale, or when a window
//! moves.
//!
//! The application must not be called back while it is busy: a callback that arrives in the middle
//! of something else is deferred until that is over.

use vstd::prelude::*;

verus! {

/// A step of taking over a new size or scale.
#[derive(Debug, Clone, Copy, PartialEq, Eq, Structural)]
pub enum ResizeStep {
    /// Hand the window's backing scale to the view's layer.
    SetContentsScale,
    /// Give the layer's drawable the view's size, times the backing scale.
    SetDrawableSize,
    /// Resize the renderer, if there is one.
    ResizeRenderer,
    /// Tell the application; see [`dispatch_window_resized`].
    DispatchWindowResized { force_async: bool },
}

/// What the application is told about a window. `R` is a rectangle.
#[derive(Debug, Clone, Copy, PartialEq, Eq)]
pub enum WindowCallback<R> {
    Resized,
    /// The window has these bounds now.
    Moved(R),
}

/// When the application is told.
#[derive(Debug, Clone, Copy, PartialEq, Eq)]
pub enum Dispatch<R> {
    Now(WindowCallback<R>),
    /// Once the application is done with what it does now.
    Deferred(WindowCallback<R>),
}

impl<R> Dispatch<R> {
    /// The callback runs while its caller still waits.
    pub open spec fn is_immediate(self) -> bool {
        self is Now
    }

    /// What the application is told when the time has come, where `window_alive` says that the
    /// window still exists then. A callback that ran at once is not repeated.
    pub open spec fn later(self, window_alive: bool) -> Option<WindowCallback<R>> {
        match self {
            Dispatch::Deferred(callback) if window_alive => Some(callback),
            _ => None,
        }
    }

    /// Returns what the application is told when the time of a deferred callback has come:
    /// nothing, if the window is gone by then.
    pub fn resume(self, window_alive: bool) -> (callback: Option<WindowCallback<R>>)
        ensures
            callback == self.later(window_alive),
    {
        match self {
            Dispatch::Deferred(callback) => if window_alive {
                Some(callback)
            } else {
                None
            },
            Dispatch::Now(_) => None,
        }
    }
}

/// When the application is told of a new size.
pub open spec fn resize_dispatch<R>(force_async: bool, app_is_available: bool) -> Dispatch<R> {
    if force_async || !app_is_available {
        Dispatch::Deferred(WindowCallback::Resized)
    } else {
        Dispatch::Now(WindowCallback::Resized)
    }
}

/// Returns when to tell the application that a window was resized: later, if the caller wants it
/// so or if the application is busy, and otherwise at once.
pub fn dispatch_window_resized<R>(force_async: bool, app_is_available: bool) -> (dispatch: Dispatch<
    R,
>)
    ensures
        dispatch == resize_dispatch::<R>(force_async, app_is_available),
{
    if force_async || !app_is_available {
        Dispatch::Deferred(WindowCallback::Resized)
    } else {
        Dispatch::Now(WindowCallback::Resized)
    }
}

/// Returns when to tell the application that a window has moved to `rect`: always later.
pub fn warp_app_window_moved<R>(rect: R) -> (dispatch: Dispatch<R>)
    ensures
        dispatch == Dispatch::Deferred(WindowCallback::Moved(rect)),
{
    Dispatch::Deferred(WindowCallback::Moved(rect))
}

/// What a new backing scale has done, in order.
pub open spec fn backing_change(size_is_zero: bool, async_callback: bool) -> Seq<ResizeStep> {
    seq![ResizeStep::SetContentsScale] + (if size_is_zero {
        seq![]
    } else {
        seq![ResizeStep::SetDrawableSize]
    }) + seq![
        ResizeStep::ResizeRenderer,
        ResizeStep::DispatchWindowResized { force_async: async_callback },
    ]
}

/// What a new frame size has done, in order.
pub open spec fn frame_size_change(async_callback: bool) -> Seq<ResizeStep> {
    seq![
        ResizeStep::SetDrawableSize,
        ResizeStep::ResizeRenderer,
        ResizeStep::DispatchWindowResized { force_async: async_callback },
    ]
}

/// Returns what to do when the backing properties of a view have changed. A view without any
/// extent keeps its drawable.
pub fn view_did_change_backing_properties(size_is_zero: bool, async_callback: bool) -> (steps: Vec<
    ResizeStep,
>)
    ensures
        steps@ == backing_change(size_is_zero, async_callback),
{
    let mut steps: Vec<ResizeStep> = vec![ResizeStep::SetContentsScale];
    if !size_is_zero {
        steps.push(ResizeStep::SetDrawableSize);
    }
    steps.push(ResizeStep::ResizeRenderer);
    steps.push(ResizeStep::DispatchWindowResized { force_async: async_callback });
    assert(steps@ =~= backing_change(size_is_zero, async_callback));
    steps
}

/// Returns what to do when the frame size of a view is set.
pub fn view_set_frame_size(async_callback: bool) -> (steps: Vec<ResizeStep>)
    ensures
        steps@ == frame_size_change(async_callback),
{
    vec![
        ResizeStep::SetDrawableSize,
        ResizeStep::ResizeRenderer,
        ResizeStep::DispatchWindowResized { force_async: async_callback },
    ]
}

/// A busy application is never called back at once, whatever the caller wants.
pub proof fn busy_applications_are_not_called_back<R>(force_async: bool)
    ensures
        !resize_dispatch::<R>(force_async, false).is_immediate(),
{
}

/// As long as the window lives, the application is told of a new size exactly once: either at
/// once or later.
pub proof fn resizes_are_told_once<R>(force_async: bool, app_is_available: bool)
    ensures
        resize_dispatch::<R>(force_async, app_is_available).is_immediate() <==> resize_dispatch::<R>(
            force_async,
            app_is_available,
        ).later(true) is None,
        resize_dispatch::<R>(force_async, app_is_available).later(false) is None,
{
}

/// The drawable and the renderer have their new size before the application is told.
pub proof fn drawables_are_resized_first(size_is_zero: bool, async_callback: bool)
    ensures
        backing_change(size_is_zero, async_callback).last() == (ResizeStep::DispatchWindowResized {
            force_async: async_callback,
        }),
        frame_size_change(async_callback).last() == (ResizeStep::DispatchWindowResized {
            force_async: async_callback,
        }),
        backing_change(size_is_zero, async_callback).drop_last().contains(
            ResizeStep::ResizeRenderer,
        ),
        frame_size_change(async_callback).drop_last().contains(ResizeStep::ResizeRenderer),
        frame_size_change(async_callback).drop_last().contains(ResizeStep::SetDrawableSize),
        backing_change(size_is_zero, async_callback).contains(ResizeStep::SetDrawableSize)
            <==> !size_is_zero,
{
    let backing = backing_change(size_is_zero, async_callback);
    assert(backing.drop_last()[backing.len() - 2] == ResizeStep::ResizeRenderer);
    assert(frame_size_change(async_callback).drop_last()[0] == ResizeStep::SetDrawableSize);
    assert(frame_size_change(async_callback).drop_last()[1] == ResizeStep::ResizeRenderer);
    if !size_is_zero {
        assert(backing[1] == ResizeStep::SetDrawableSize);
    }
}

/// A change of the backing properties first hands the scale to the layer, once; then gives the
/// drawable its size, unless the view has no extent; then resizes the renderer; and last tells the
/// application, in the way that the caller wants.
pub proof fn backing_changes_run_in_order(size_is_zero: bool, async_callback: bool)
    ensures
        ({
            let steps = backing_change(size_is_zero, async_callback);
            &&& steps.len() == (if size_is_zero { 3int } else { 4 })
            &&& forall|i: int|
                0 <= i < steps.len() ==> {
                    &&& (#[trigger] steps[i]) is SetContentsScale <==> i == 0
                    &&& steps[i] is SetDrawableSize <==> !size_is_zero && i == 1
                    &&& steps[i] is ResizeRenderer <==> i == steps.len() - 2
                    &&& steps[i] is DispatchWindowResized <==> i == steps.len() - 1
                    &&& steps[i] matches ResizeStep::DispatchWindowResized { force_async }
                        ==> force_async == async_callback
                }
        }),
{
}

/// A new frame size first gives the drawable its size, then resizes the renderer, and last tells
/// the application, in the way that the caller wants. The scale stays.
pub proof fn frame_size_changes_run_in_order(async_callback: bool)
    ensures
        ({
            let steps = frame_size_change(async_callback);
            &&& steps.len() == 3
            &&& forall|i: int|
                0 <= i < steps.len() ==> {
                    &&& !((#[trigger] steps[i]) is SetContentsScale)
                    &&& steps[i] is SetDrawableSize <==> i == 0
                    &&& steps[i] is ResizeRenderer <==> i == 1
                    &&& steps[i] is DispatchWindowResized <==> i == 2
                    &&& steps[i] matches ResizeStep::DispatchWindowResized { force_async }
                        ==> force_async == async_callback
                }
        }),
{
}

/// The application is told of a new size at once exactly if it is available and the caller does not
/// want it later. Either way it is told of a new size, and of nothing else.
pub proof fn resizes_are_told_in_time<R>(force_async: bool, app_is_available: bool)
    ensures
        ({
            let dispatch = resize_dispatch::<R>(force_async, app_is_available);
            &&& dispatch is Now <==> app_is_available && !force_async
            &&& dispatch matches Dispatch::Now(callback) ==> callback is Resized
            &&& dispatch matches Dispatch::Deferred(callback) ==> callback is Resized
        }),
{
}

/// A deferred callback comes as it was put off, if the window still lives, and otherwise not at
/// all. A callback that ran at once does not come again.
pub proof fn deferred_callbacks_come_unless_the_window_is_gone<R>(
    callback: WindowCallback<R>,
    window_alive: bool,
)
    ensures
        Dispatch::Deferred(callback).later(true) == Some(callback),
        Dispatch::Deferred(callback).later(false) is None,
        Dispatch::Now(callback).later(window_alive) is None,
        Dispatch::Now(callback).is_immediate(),
        !Dispatch::Deferred(callback).is_immediate(),
{
}

} // verus!
