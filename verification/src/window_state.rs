//! The state of one window: what it shows next, whether it composes text, and which synthetic
//! drag it last started.

use vstd::prelude::*;

use crate::events::Event;
use crate::platform::WindowId;
use crate::synthetic_drag::{DragTick, SyntheticDrag, SYNTHETIC_DRAG_INTERVAL_MILLIS};

verus! {

/// The state of a window, as a value.
pub struct WindowModel<D, M, S, C, B> {
    pub id: WindowId,
    /// What the window calls back.
    pub callbacks: B,
    /// What the window renders with, unless it has no real display.
    pub device: Option<D>,
    pub renderer_manager: Option<M>,
    /// The scene to draw next. Without one, drawing builds a new scene first.
    pub next_scene: Option<S>,
    /// Who waits for a copy of the next frame.
    pub capture_callback: Option<C>,
    /// The ID of the last synthetic drag; each one is higher than all before.
    pub drag_counter: nat,
    pub ime_active: bool,
}

impl<D, M, S, C, B> WindowModel<D, M, S, C, B> {
    /// The window after it gave out one more drag ID.
    pub open spec fn superseded(self) -> Self {
        WindowModel { drag_counter: self.drag_counter + 1, ..self }
    }

    /// The drag with this ID goes on when its turn comes.
    pub open spec fn continues(self, drag_id: nat) -> bool {
        drag_id == self.drag_counter
    }

    /// What an update of the layer does, in order.
    pub open spec fn layer_update(self, app_is_available: bool) -> Seq<LayerStep> {
        if !app_is_available {
            seq![]
        } else if self.next_scene is None {
            seq![LayerStep::BuildScene, LayerStep::Render, LayerStep::FrameDrawn]
        } else {
            seq![LayerStep::Render, LayerStep::FrameDrawn]
        }
    }

    /// The window after all of `steps`, where `built` is the scene that is built if one is.
    pub open spec fn after_steps(self, steps: Seq<LayerStep>, built: S) -> Self
        decreases steps.len(),
    {
        if steps.len() == 0 {
            self
        } else if steps.last() is BuildScene {
            self.after_steps(steps.drop_last(), built).with_scene(Some(built))
        } else {
            self.after_steps(steps.drop_last(), built)
        }
    }

    /// The scenes that `steps` render, in order, where `built` is the scene that is built if one
    /// is.
    pub open spec fn rendered(self, steps: Seq<LayerStep>, built: S) -> Seq<S>
        decreases steps.len(),
    {
        if steps.len() == 0 {
            seq![]
        } else {
            let earlier = self.rendered(steps.drop_last(), built);
            match self.after_steps(steps.drop_last(), built).next_scene {
                Some(scene) if steps.last() is Render => earlier.push(scene),
                _ => earlier,
            }
        }
    }

    /// The window with `scene` to draw next.
    pub open spec fn with_scene(self, scene: Option<S>) -> Self {
        WindowModel { next_scene: scene, ..self }
    }
}

/// The state of a window. `D` is a rendering device, `M` a renderer manager, `S` a scene, `C` a
/// callback for captured frames and `B` what the window calls back.
#[derive(Debug)]
pub struct WindowState<D, M, S, C, B> {
    window_id: WindowId,
    callbacks: B,
    next_scene: Option<S>,
    device: Option<D>,
    renderer_manager: Option<M>,
    synthetic_drag_counter: usize,
    ime_active: bool,
    capture_callback: Option<C>,
}

impl<D, M, S, C, B> View for WindowState<D, M, S, C, B> {
    type V = WindowModel<D, M, S, C, B>;

    closed spec fn view(&self) -> WindowModel<D, M, S, C, B> {
        WindowModel {
            id: self.window_id,
            callbacks: self.callbacks,
            device: self.device,
            renderer_manager: self.renderer_manager,
            next_scene: self.next_scene,
            capture_callback: self.capture_callback,
            drag_counter: self.synthetic_drag_counter as nat,
            ime_active: self.ime_active,
        }
    }
}

/// A step of updating a window's layer.
#[derive(Debug, Clone, Copy, PartialEq, Eq, Structural)]
pub enum LayerStep {
    /// Build a scene, and hand it to [`WindowState::scene_built`].
    BuildScene,
    /// Render the scene that is there; see [`WindowState::frame`].
    Render,
    /// Tell the application that a frame was drawn.
    FrameDrawn,
}

/// What a frame is drawn from.
#[derive(Debug)]
pub struct Frame<'a, D, M, S> {
    pub scene: &'a S,
    pub device: &'a D,
    pub renderer_manager: &'a M,
}

/// What to do about a native event on the window's view.
#[derive(Debug)]
pub struct ViewEventOutcome<P, M, X> {
    /// The synthetic drag to schedule.
    pub synthetic_drag: Option<SyntheticDrag<P, M>>,
    /// The event to dispatch.
    pub dispatch: Option<Event<P, M, X>>,
}

/// `event` supersedes the window's last synthetic drag.
pub open spec fn moves_on<P, K, X>(event: Option<Event<P, K, X>>) -> bool {
    match event {
        Some(Event::LeftMouseDragged { .. }) => true,
        Some(Event::LeftMouseUp(_)) => true,
        _ => false,
    }
}

/// Returns whether a native event was handled. `reply` is what came of dispatching the event that it
/// stands for, or `None` if it stands for none; such an event was not handled.
pub fn handled(reply: Option<bool>) -> (r: bool)
    ensures
        r == (reply == Some(true)),
{
    match reply {
        Some(reply) => reply,
        None => false,
    }
}

impl<D, M, S, C, B> WindowState<D, M, S, C, B> {
    /// Returns the state of a newly opened window.
    pub fn new(
        window_id: WindowId,
        callbacks: B,
        device: Option<D>,
        renderer_manager: Option<M>,
    ) -> (state: Self)
        ensures
            state@ == (WindowModel::<D, M, S, C, B> {
                id: window_id,
                callbacks,
                device,
                renderer_manager,
                next_scene: None,
                capture_callback: None,
                drag_counter: 0,
                ime_active: false,
            }),
    {
        Self {
            window_id,
            callbacks,
            next_scene: None,
            device,
            renderer_manager,
            synthetic_drag_counter: 0,
            ime_active: false,
            capture_callback: None,
        }
    }

    /// Returns the window's ID.
    pub fn id(&self) -> (id: WindowId)
        ensures
            id == self@.id,
    {
        self.window_id
    }

    /// Returns what the window calls back.
    pub fn callbacks(&self) -> (callbacks: &B)
        ensures
            *callbacks == self@.callbacks,
    {
        &self.callbacks
    }

    /// Returns the current device for rendering. `None` if the window was configured with no
    /// display.
    pub fn device(&self) -> (device: Option<&D>)
        ensures
            device is Some <==> self@.device is Some,
            device matches Some(d) ==> Some(*d) == self@.device,
    {
        self.device.as_ref()
    }

    /// Returns whether the window composes text in an input method editor.
    pub fn ime_active(&self) -> (r: bool)
        ensures
            r == self@.ime_active,
    {
        self.ime_active
    }

    /// Sets whether the window composes text in an input method editor.
    pub fn update_ime_state(&mut self, ime_active: bool)
        ensures
            final(self)@ == (WindowModel { ime_active, ..old(self)@ }),
    {
        self.ime_active = ime_active;
    }

    /// Returns what to resize the renderer with. There is nothing to resize without a device or a
    /// renderer manager.
    pub fn resize_renderer(&self) -> (target: Option<(&M, &D)>)
        ensures
            target is Some <==> self@.renderer_manager is Some && self@.device is Some,
            target matches Some((m, d)) ==> {
                &&& Some(*m) == self@.renderer_manager
                &&& Some(*d) == self@.device
            },
    {
        match (self.renderer_manager.as_ref(), self.device.as_ref()) {
            (Some(renderer_manager), Some(device)) => Some((renderer_manager, device)),
            _ => None,
        }
    }

    /// Has `scene` drawn next. The caller asks for a display of the window.
    pub fn render_scene(&mut self, scene: S)
        ensures
            final(self)@ == old(self)@.with_scene(Some(scene)),
    {
        self.next_scene = Some(scene);
    }

    /// Has a new scene built before the next frame. The caller asks for a display of the window.
    pub fn request_redraw(&mut self)
        ensures
            final(self)@ == old(self)@.with_scene(None),
    {
        self.next_scene = None;
    }

    /// Has `callback` called with the next frame, in place of any callback that waits already. The
    /// caller asks for a display of the window.
    pub fn request_frame_capture(&mut self, callback: C)
        ensures
            final(self)@ == (WindowModel { capture_callback: Some(callback), ..old(self)@ }),
    {
        self.capture_callback = Some(callback);
    }

    /// Takes the callback that waits for the next frame.
    pub fn take_capture_callback(&mut self) -> (callback: Option<C>)
        ensures
            callback == old(self)@.capture_callback,
            final(self)@ == (WindowModel { capture_callback: None, ..old(self)@ }),
    {
        self.capture_callback.take()
    }

    /// Returns what an update of the window's layer does, where `app_is_available` says that the
    /// application is not in the middle of something else. Otherwise the update is dropped.
    pub fn update_layer(&self, app_is_available: bool) -> (steps: Vec<LayerStep>)
        ensures
            steps@ == self@.layer_update(app_is_available),
    {
        let mut steps: Vec<LayerStep> = Vec::new();
        if app_is_available {
            if self.next_scene.is_none() {
                steps.push(LayerStep::BuildScene);
            }
            steps.push(LayerStep::Render);
            steps.push(LayerStep::FrameDrawn);
        }
        steps
    }

    /// Takes over a newly built scene, even if another redraw was requested while it was built.
    pub fn scene_built(&mut self, scene: S)
        ensures
            final(self)@ == old(self)@.with_scene(Some(scene)),
    {
        self.next_scene = Some(scene);
    }

    /// Returns what the current frame is drawn from, or `None` while there is no scene.
    ///
    /// A window that draws has a real display and thus a device, and is not being drawn already.
    pub fn frame(&self) -> (frame: Option<Frame<'_, D, M, S>>)
        requires
            self@.next_scene is Some ==> self@.device is Some && self@.renderer_manager is Some,
        ensures
            frame is Some <==> self@.next_scene is Some,
            frame matches Some(f) ==> {
                &&& Some(*f.scene) == self@.next_scene
                &&& Some(*f.device) == self@.device
                &&& Some(*f.renderer_manager) == self@.renderer_manager
            },
    {
        match self.next_scene.as_ref() {
            Some(scene) => Some(
                Frame {
                    scene,
                    device: self.device.as_ref().unwrap(),
                    renderer_manager: self.renderer_manager.as_ref().unwrap(),
                },
            ),
            None => None,
        }
    }

    /// Returns the ID of the last synthetic drag.
    pub fn synthetic_drag_counter(&self) -> (counter: usize)
        ensures
            counter == self@.drag_counter,
    {
        self.synthetic_drag_counter
    }

    /// Returns an ID for a new synthetic drag. Drags with an earlier ID end at their next turn.
    pub fn next_synthetic_drag_id(&mut self) -> (next_id: usize)
        requires
            old(self)@.drag_counter < usize::MAX,
        ensures
            next_id == old(self)@.drag_counter + 1,
            final(self)@ == old(self)@.superseded(),
    {
        let next_id: usize = self.synthetic_drag_counter + 1;
        self.synthetic_drag_counter = next_id;
        next_id
    }

    /// Starts a synthetic drag at `position`, which takes its first turn after an interval.
    pub fn schedule_synthetic_drag<P, K>(&mut self, position: P, modifiers: K) -> (drag:
        SyntheticDrag<P, K>)
        requires
            old(self)@.drag_counter < usize::MAX,
        ensures
            drag == (SyntheticDrag {
                drag_id: (old(self)@.drag_counter + 1) as usize,
                delay_millis: SYNTHETIC_DRAG_INTERVAL_MILLIS,
                position,
                modifiers,
            }),
            drag.delay_millis == 16,
            final(self)@ == old(self)@.superseded(),
    {
        let drag_id = self.next_synthetic_drag_id();
        SyntheticDrag { drag_id, delay_millis: SYNTHETIC_DRAG_INTERVAL_MILLIS, position, modifiers }
    }

    /// Gives a synthetic drag its turn. If it is still the last one of this window, it is scheduled
    /// anew, and a drag event is dispatched for it; otherwise it ends.
    pub fn resume_synthetic_drag<P: Copy, K: Copy, X>(&mut self, drag: SyntheticDrag<P, K>) -> (tick:
        Option<DragTick<P, K, X>>)
        requires
            old(self)@.continues(drag.drag_id as nat) ==> old(self)@.drag_counter < usize::MAX,
        ensures
            tick == (if old(self)@.continues(drag.drag_id as nat) {
                Some(
                    DragTick::<P, K, X> {
                        next: SyntheticDrag {
                            drag_id: (drag.drag_id + 1) as usize,
                            delay_millis: SYNTHETIC_DRAG_INTERVAL_MILLIS,
                            ..drag
                        },
                        event: Event::LeftMouseDragged {
                            position: drag.position,
                            modifiers: drag.modifiers,
                        },
                    },
                )
            } else {
                None
            }),
            final(self)@ == (if old(self)@.continues(drag.drag_id as nat) {
                old(self)@.superseded()
            } else {
                old(self)@
            }),
    {
        if self.synthetic_drag_counter != drag.drag_id {
            return None;
        }
        let next = self.schedule_synthetic_drag(drag.position, drag.modifiers);
        Some(
            DragTick {
                next,
                event: Event::LeftMouseDragged {
                    position: drag.position,
                    modifiers: drag.modifiers,
                },
            },
        )
    }

    /// Handles an event on the window's view. `event` is what the native event stands for, if
    /// anything.
    ///
    /// A mouse drag starts a synthetic drag that repeats it, the release of the mouse ends it, and
    /// a key press learns whether text is being composed. Everything is dispatched.
    pub fn handle_view_event<P: Copy, K: Copy, X>(
        &mut self,
        event: Option<Event<P, K, X>>,
        composing_state: bool,
    ) -> (outcome: ViewEventOutcome<P, K, X>)
        requires
            moves_on(event) ==> old(self)@.drag_counter < usize::MAX,
        ensures
            final(self)@ == (if moves_on(event) {
                old(self)@.superseded()
            } else {
                old(self)@
            }),
            outcome.synthetic_drag == (match event {
                Some(Event::LeftMouseDragged { position, modifiers }) => Some(
                    SyntheticDrag {
                        drag_id: (old(self)@.drag_counter + 1) as usize,
                        delay_millis: SYNTHETIC_DRAG_INTERVAL_MILLIS,
                        position,
                        modifiers,
                    },
                ),
                _ => None,
            }),
            outcome.dispatch == (match event {
                Some(Event::KeyDown { is_composing, details }) => Some(
                    Event::KeyDown { is_composing: composing_state, details },
                ),
                _ => event,
            }),
            outcome.dispatch is Some <==> event is Some,
            outcome.synthetic_drag is Some <==> event is Some && event->0 is LeftMouseDragged,
            outcome.synthetic_drag matches Some(drag) ==> {
                &&& drag.drag_id == final(self)@.drag_counter
                &&& drag.delay_millis == 16
            },
    {
        let mut synthetic_drag = None;
        let dispatch = match event {
            Some(Event::LeftMouseDragged { position, modifiers }) => {
                synthetic_drag = Some(self.schedule_synthetic_drag(position, modifiers));
                Some(Event::LeftMouseDragged { position, modifiers })
            },
            Some(Event::LeftMouseUp(details)) => {
                self.next_synthetic_drag_id();
                Some(Event::LeftMouseUp(details))
            },
            Some(Event::KeyDown { is_composing: _, details }) => Some(
                Event::KeyDown { is_composing: composing_state, details },
            ),
            other => other,
        };
        ViewEventOutcome { synthetic_drag, dispatch }
    }

    /// Handles the mouse event that makes an unfocused window gain the focus. It is dispatched as
    /// it is.
    pub fn handle_first_mouse_event<P, K, X>(&self, event: Option<Event<P, K, X>>) -> (outcome:
        ViewEventOutcome<P, K, X>)
        ensures
            outcome.synthetic_drag is None,
            outcome.dispatch == event,
    {
        ViewEventOutcome { synthetic_drag: None, dispatch: event }
    }
}

/// What a window manager holds for a window. It leads to the window's state.
pub trait WindowHandle: Sized {
    type Device;

    type RendererManager;

    type Scene;

    type CaptureCallback;

    type Callbacks;

    /// The state of the window. It is left open where an implementation gives none.
    closed spec fn state(&self) -> WindowModel<
        Self::Device,
        Self::RendererManager,
        Self::Scene,
        Self::CaptureCallback,
        Self::Callbacks,
    > {
        arbitrary()
    }

    /// Returns an ID for a new synthetic drag. Drags with an earlier ID end at their next turn.
    fn next_synthetic_drag_id(&mut self) -> (next_id: usize)
        requires
            old(self).state().drag_counter < usize::MAX,
        ensures
            next_id == old(self).state().drag_counter + 1,
            final(self).state() == old(self).state().superseded(),
    ;
}

impl<D, M, S, C, B> WindowHandle for WindowState<D, M, S, C, B> {
    type Device = D;

    type RendererManager = M;

    type Scene = S;

    type CaptureCallback = C;

    type Callbacks = B;

    open spec fn state(&self) -> WindowModel<D, M, S, C, B> {
        self@
    }

    fn next_synthetic_drag_id(&mut self) -> (next_id: usize) {
        WindowState::next_synthetic_drag_id(self)
    }
}

/// An update of an available application's window draws one frame: it builds a scene exactly if
/// none is there, before anything else; it renders the scene once; and then, last of all, it tells
/// the application once. The scene stays the one to draw next.
pub proof fn updates_draw_one_frame<D, M, S, C, B>(
    window: WindowModel<D, M, S, C, B>,
    built: S,
    i: int,
)
    requires
        0 <= i < window.layer_update(true).len(),
    ensures
        ({
            let steps = window.layer_update(true);
            let scene = match window.next_scene {
                Some(scene) => scene,
                None => built,
            };
            &&& steps[i] is BuildScene <==> window.next_scene is None && i == 0
            &&& steps[i] is Render <==> i == steps.len() - 2
            &&& steps[i] is FrameDrawn <==> i == steps.len() - 1
            &&& window.rendered(steps, built) == seq![scene]
            &&& window.after_steps(steps, built) == window.with_scene(Some(scene))
        }),
{
    lemma_frame(window, built);
}

/// What the steps of an update come to.
proof fn lemma_frame<D, M, S, C, B>(window: WindowModel<D, M, S, C, B>, built: S)
    ensures
        ({
            let steps = window.layer_update(true);
            let scene = match window.next_scene {
                Some(scene) => scene,
                None => built,
            };
            &&& window.rendered(steps, built) == seq![scene]
            &&& window.after_steps(steps, built) == window.with_scene(Some(scene))
        }),
{
    reveal_with_fuel(WindowModel::after_steps, 4);
    reveal_with_fuel(WindowModel::rendered, 4);
    let steps = window.layer_update(true);
    let first = steps.drop_last().drop_last();
    assert(steps.drop_last().last() is Render);
    if window.next_scene is None {
        assert(first.last() is BuildScene);
        assert(first.drop_last().len() == 0);
    } else {
        assert(first.len() == 0);
    }
}

/// A scene that was handed in is what the next frame is drawn from; none is built.
pub proof fn rendered_scenes_are_drawn<D, M, S, C, B>(
    window: WindowModel<D, M, S, C, B>,
    scene: S,
    built: S,
)
    ensures
        ({
            let pending = window.with_scene(Some(scene));
            &&& !pending.layer_update(true).contains(LayerStep::BuildScene)
            &&& pending.rendered(pending.layer_update(true), built) == seq![scene]
        }),
{
    lemma_frame(window.with_scene(Some(scene)), built);
}

/// After a request to redraw, the next frame is drawn from a scene that is built for it, whatever
/// was to be drawn before.
pub proof fn redraws_build_a_scene<D, M, S, C, B>(window: WindowModel<D, M, S, C, B>, built: S)
    ensures
        ({
            let pending = window.with_scene(None);
            &&& pending.layer_update(true).first() is BuildScene
            &&& pending.rendered(pending.layer_update(true), built) == seq![built]
        }),
{
    lemma_frame(window.with_scene(None), built);
}

/// While the application is busy, an update does nothing.
pub proof fn busy_applications_are_left_alone<D, M, S, C, B>(
    window: WindowModel<D, M, S, C, B>,
    built: S,
)
    ensures
        window.layer_update(false).len() == 0,
        window.rendered(window.layer_update(false), built).len() == 0,
        window.after_steps(window.layer_update(false), built) == window,
{
}

/// An update of a busy application's window has no steps. Any other ends with rendering and then
/// telling the application, and has one step more exactly if no scene is there: building one, first
/// of all.
pub proof fn updates_run_in_order<D, M, S, C, B>(window: WindowModel<D, M, S, C, B>)
    ensures
        window.layer_update(false).len() == 0,
        ({
            let steps = window.layer_update(true);
            &&& steps.len() == (if window.next_scene is None { 3int } else { 2 })
            &&& window.next_scene is None ==> steps[0] is BuildScene
            &&& steps[steps.len() - 2] is Render
            &&& steps[steps.len() - 1] is FrameDrawn
        }),
{
}

/// Giving out a drag ID raises the counter by one, and changes nothing else about the window.
pub proof fn drag_ids_rise_one_by_one<D, M, S, C, B>(window: WindowModel<D, M, S, C, B>)
    ensures
        window.superseded().drag_counter == window.drag_counter + 1,
        window.superseded().id == window.id,
        window.superseded().callbacks == window.callbacks,
        window.superseded().device == window.device,
        window.superseded().renderer_manager == window.renderer_manager,
        window.superseded().next_scene == window.next_scene,
        window.superseded().capture_callback == window.capture_callback,
        window.superseded().ime_active == window.ime_active,
{
}

/// Of all drags exactly the one with the last ID that the window gave out goes on, and the next ID
/// ends it in favour of its own.
pub proof fn the_last_drag_goes_on<D, M, S, C, B>(
    window: WindowModel<D, M, S, C, B>,
    drag_id: nat,
)
    ensures
        window.continues(window.drag_counter),
        drag_id < window.drag_counter || drag_id > window.drag_counter ==> !window.continues(
            drag_id,
        ),
        window.superseded().continues(window.drag_counter + 1),
        !window.superseded().continues(window.drag_counter),
{
}

/// What is to be drawn next changes nothing else about the window.
pub proof fn scenes_change_nothing_else<D, M, S, C, B>(
    window: WindowModel<D, M, S, C, B>,
    scene: Option<S>,
)
    ensures
        window.with_scene(scene).next_scene == scene,
        window.with_scene(scene).id == window.id,
        window.with_scene(scene).callbacks == window.callbacks,
        window.with_scene(scene).device == window.device,
        window.with_scene(scene).renderer_manager == window.renderer_manager,
        window.with_scene(scene).capture_callback == window.capture_callback,
        window.with_scene(scene).drag_counter == window.drag_counter,
        window.with_scene(scene).ime_active == window.ime_active,
{
}

/// A drag and a release of the mouse supersede the last synthetic drag, whatever else is known of
/// them; no other event does, nor does the lack of one.
pub proof fn drags_and_releases_supersede<P, K, X>(event: Option<Event<P, K, X>>)
    ensures
        moves_on(event) <==> event is Some && (event->0 is LeftMouseDragged
            || event->0 is LeftMouseUp),
{
}

/// The state of a window is its own handle.
pub proof fn states_lead_to_themselves<D, M, S, C, B>(window: WindowState<D, M, S, C, B>)
    ensures
        WindowHandle::state(&window) == window@,
{
}

} // verus!
