//! The life cycle of a window that shows one scene.
//!
//! The window itself, its events and its surface belong to the program that
//! uses this library. What is decided here is what each event leads to: the
//! scene is set up once, drawn on every redraw request, told once when the
//! window closes, and left alone after that.

use crate::command::ObjectKind;
use crate::context::{Context, ContextView, Frame};
use crate::handler::RenderHandler;
use vstd::prelude::*;

verus! {

/// A key of the keyboard, as far as the window cares.
#[derive(Copy, Clone, Debug, PartialEq, Eq, Structural)]
pub enum Key {
    /// The key that cancels: it closes the window.
    Escape,
    Other,
}

/// Something that happened to the window.
#[derive(Copy, Clone, Debug, PartialEq, Eq, Structural)]
pub enum Event {
    /// The window's content has to be drawn again.
    RedrawRequested,
    /// The window has got a new size, in physical pixels.
    Resized { width: u32, height: u32 },
    /// The user asked for the window to be closed.
    CloseRequested,
    /// The window has been destroyed.
    Destroyed,
    KeyPressed(Key),
    /// Any other event.
    Other,
}

/// What the window does in response to an event, or when it opens.
#[derive(Copy, Clone, Debug, PartialEq, Eq, Structural)]
pub enum Effect {
    /// The scene's `init` is called.
    Init,
    /// The scene's `draw` is called and the result presented.
    Draw,
    /// The surface and viewport are set to a new size.
    Reconfigure { width: u32, height: u32 },
    /// The scene's `exit` is called and the window torn down.
    Exit,
}

/// What the program has to carry out for the window.
#[derive(Debug)]
pub enum Action {
    /// Carry out the frame that the scene's `init` has recorded.
    Setup(Frame),
    /// Carry out the frame that the scene's `draw` has recorded, then present
    /// the surface.
    Render(Frame),
    /// Set the surface and the viewport to the new physical size.
    Resize { width: u32, height: u32 },
    /// Carry out the frame that the scene's `exit` has recorded, then tear the
    /// rendering context down and leave the event loop.
    Close(Frame),
    /// Nothing.
    Idle,
}

impl Event {
    /// The event ends the window: a close request, the window's destruction,
    /// or the cancel key.
    pub open spec fn closes(self) -> bool {
        self == Event::CloseRequested || self == Event::Destroyed || self == Event::KeyPressed(
            Key::Escape,
        )
    }

    /// Computes `closes`.
    pub fn is_closing(&self) -> (closing: bool)
        ensures
            closing == self.closes(),
    {
        match *self {
            Event::CloseRequested => true,
            Event::Destroyed => true,
            Event::KeyPressed(Key::Escape) => true,
            _ => false,
        }
    }
}

impl Action {
    /// The effect that the action stands for; `Idle` stands for none.
    pub open spec fn effect(self) -> Option<Effect> {
        match self {
            Action::Setup(_) => Some(Effect::Init),
            Action::Render(_) => Some(Effect::Draw),
            Action::Resize { width, height } => Some(Effect::Reconfigure { width, height }),
            Action::Close(_) => Some(Effect::Exit),
            Action::Idle => None,
        }
    }
}

/// The effect of one event on a window that is closed or not: a closed window
/// does nothing; an open one exits on a closing event, draws on a redraw
/// request, takes a new size on a resize, and lets every other event pass.
pub open spec fn response(closed: bool, event: Event) -> Option<Effect> {
    if closed {
        None
    } else if event.closes() {
        Some(Effect::Exit)
    } else {
        match event {
            Event::RedrawRequested => Some(Effect::Draw),
            Event::Resized { width, height } => Some(Effect::Reconfigure { width, height }),
            _ => None,
        }
    }
}

/// The effects of a sequence of events, in order, on a window that is closed
/// or not when the first of them arrives.
pub open spec fn effects(closed: bool, events: Seq<Event>) -> Seq<Effect>
    decreases events.len(),
{
    if events.len() == 0 {
        Seq::empty()
    } else {
        let rest = effects(closed || events[0].closes(), events.drop_first());
        match response(closed, events[0]) {
            Some(effect) => seq![effect] + rest,
            None => rest,
        }
    }
}

/// Everything a window does from the moment it opens until the last of
/// `events` has been handled.
pub open spec fn lifecycle(events: Seq<Event>) -> Seq<Effect> {
    seq![Effect::Init] + effects(false, events)
}

/// The sizes of the resize events among `events`, in order.
pub open spec fn resizes(events: Seq<Event>) -> Seq<(u32, u32)>
    decreases events.len(),
{
    if events.len() == 0 {
        Seq::empty()
    } else {
        match events[0] {
            Event::Resized { width, height } => seq![(width, height)] + resizes(
                events.drop_first(),
            ),
            _ => resizes(events.drop_first()),
        }
    }
}

/// The sizes of the reconfigurations among `trace`, in order.
pub open spec fn reconfigurations(trace: Seq<Effect>) -> Seq<(u32, u32)>
    decreases trace.len(),
{
    if trace.len() == 0 {
        Seq::empty()
    } else {
        match trace[0] {
            Effect::Reconfigure { width, height } => seq![(width, height)] + reconfigurations(
                trace.drop_first(),
            ),
            _ => reconfigurations(trace.drop_first()),
        }
    }
}

/// A context that has handed out `objects` and holds nothing.
pub open spec fn drained(objects: Seq<ObjectKind>) -> ContextView {
    ContextView { commands: Seq::empty(), data: Seq::empty(), objects }
}

/// A context that has handed out `objects` and holds what `frame` holds.
pub open spec fn holding(frame: Frame, objects: Seq<ObjectKind>) -> ContextView {
    ContextView { commands: frame.commands@, data: frame.data@, objects }
}

/// `action` is what a window hands out when its scene is `scene` and its
/// context `before`, and it is left with the scene `then` and a drained
/// context that has handed out `objects`: the frame of the action is what
/// the scene's hook recorded, and an action without a frame changes nothing.
pub open spec fn carried_out<H: RenderHandler>(
    action: Action,
    scene: H,
    before: ContextView,
    then: H,
    objects: Seq<ObjectKind>,
) -> bool {
    match action {
        Action::Setup(frame) => H::initialized(before, then, holding(frame, objects)),
        Action::Render(frame) => H::drawn(scene, before, then, holding(frame, objects)),
        Action::Close(frame) => H::exited(scene, before, then, holding(frame, objects)),
        Action::Resize { .. } => then == scene && objects == before.objects,
        Action::Idle => then == scene && objects == before.objects,
    }
}

/// The action number `i` of a run is carried out between the states number
/// `i - 1` and `i`. The first action sets the scene up on a fresh context.
pub open spec fn step_carried_out<H: RenderHandler>(
    actions: Seq<Action>,
    scenes: Seq<H>,
    tables: Seq<Seq<ObjectKind>>,
    i: int,
) -> bool {
    if i == 0 {
        actions[0] is Setup && carried_out(
            actions[0],
            scenes[0],
            drained(Seq::empty()),
            scenes[0],
            tables[0],
        )
    } else {
        !(actions[i] is Setup) && carried_out(
            actions[i],
            scenes[i - 1],
            drained(tables[i - 1]),
            scenes[i],
            tables[i],
        )
    }
}

/// `actions` is a run of a window whose scene and slots are `scenes[i]` and
/// `tables[i]` after action number `i`.
pub open spec fn run_of<H: RenderHandler>(
    actions: Seq<Action>,
    scenes: Seq<H>,
    tables: Seq<Seq<ObjectKind>>,
) -> bool {
    &&& scenes.len() == actions.len()
    &&& tables.len() == actions.len()
    &&& forall|i: int| 0 <= i < actions.len() ==> #[trigger] step_carried_out(actions, scenes, tables, i)
}

/// A window that shows the scene `H`.
pub struct Window<H> {
    handler: H,
    gl: Context,
    closed: bool,
}

impl<H: RenderHandler> Window<H> {
    /// The window has handled a closing event.
    pub closed spec fn is_closed(&self) -> bool {
        self.closed
    }

    /// The scene that the window shows.
    pub closed spec fn scene(&self) -> H {
        self.handler
    }

    /// The context that the window hands to the scene's hooks.
    pub closed spec fn context(&self) -> ContextView {
        self.gl@
    }

    /// Opens the window: calls the scene's `init` on a fresh context and
    /// returns the window with the frame that `init` recorded. This is the
    /// only place where `init` is called.
    pub fn open() -> (opened: (Self, Frame))
        ensures
            !opened.0.is_closed(),
            H::initialized(
                drained(Seq::empty()),
                opened.0.scene(),
                holding(opened.1, opened.0.context().objects),
            ),
            opened.0.context() == drained(opened.0.context().objects),
    {
        let mut gl = Context::new();
        let handler = H::init(&mut gl);
        let frame = gl.take_frame();
        (Window { handler, gl, closed: false }, frame)
    }

    /// Computes `is_closed`.
    pub fn closed(&self) -> (closed: bool)
        ensures
            closed == self.is_closed(),
    {
        self.closed
    }

    /// Handles one event. An open window calls the scene's `draw` on a redraw
    /// request and `exit` on a closing event, and hands the recorded frame
    /// back; it hands a new size on. A closed window calls nothing.
    pub fn handle(&mut self, event: Event) -> (action: Action)
        ensures
            action.effect() == response(old(self).is_closed(), event),
            final(self).is_closed() == (old(self).is_closed() || event.closes()),
            carried_out(
                action,
                old(self).scene(),
                old(self).context(),
                final(self).scene(),
                final(self).context().objects,
            ),
            action is Render || action is Close ==> final(self).context() == drained(
                final(self).context().objects,
            ),
            action is Resize || action is Idle ==> final(self).context() == old(self).context(),
    {
        if self.closed {
            return Action::Idle;
        }
        if event.is_closing() {
            self.handler.exit(&mut self.gl);
            self.closed = true;
            let frame = self.gl.take_frame();
            return Action::Close(frame);
        }
        match event {
            Event::RedrawRequested => {
                self.handler.draw(&mut self.gl);
                let frame = self.gl.take_frame();
                Action::Render(frame)
            },
            Event::Resized { width, height } => Action::Resize { width, height },
            _ => Action::Idle,
        }
    }
}

/// Runs the scene `H` in a window that receives `events`: opens the window
/// and handles the events in order until one of them closes it. Returns what
/// has to be carried out, in order: one action for each entry of the window's
/// life cycle over `events`, each frame being what the scene's hook recorded
/// in the state that the actions before it led to.
pub fn with_window<H: RenderHandler>(events: &Vec<Event>) -> (actions: Vec<Action>)
    ensures
        actions@.len() == lifecycle(events@).len(),
        forall|i: int|
            0 <= i < actions@.len() ==> (#[trigger] actions@[i]).effect() == Some(
                lifecycle(events@)[i],
            ),
        exists|scenes: Seq<H>, tables: Seq<Seq<ObjectKind>>| run_of(actions@, scenes, tables),
{
    let (mut window, frame) = Window::<H>::open();
    let mut actions: Vec<Action> = Vec::new();
    actions.push(Action::Setup(frame));
    let ghost mut done: Seq<Effect> = seq![Effect::Init];
    let ghost mut scenes: Seq<H> = seq![window.scene()];
    let ghost mut tables: Seq<Seq<ObjectKind>> = seq![window.context().objects];
    let mut i: usize = 0;
    assert(events@.skip(0) == events@);
    assert(step_carried_out(actions@, scenes, tables, 0));
    while i < events.len() && !window.closed()
        invariant
            i <= events.len(),
            actions@.len() == done.len(),
            actions@.len() >= 1,
            forall|k: int| 0 <= k < actions@.len() ==> (#[trigger] actions@[k]).effect() == Some(done[k]),
            done + effects(window.is_closed(), events@.skip(i as int)) == lifecycle(events@),
            run_of(actions@, scenes, tables),
            scenes.last() == window.scene(),
            window.context() == drained(tables.last()),
        decreases events.len() - i,
    {
        let ghost before = window.is_closed();
        let ghost scene = window.scene();
        let ghost context = window.context();
        let ghost actions_before = actions@;
        let action = window.handle(events[i]);
        proof {
            let remaining = events@.skip(i as int);
            assert(remaining.drop_first() == events@.skip(i + 1));
            assert(remaining[0] == events@[i as int]);
            match response(before, events@[i as int]) {
                Some(effect) => {
                    assert(done.push(effect) + effects(
                        window.is_closed(),
                        events@.skip(i + 1),
                    ) == done + effects(before, remaining));
                    done = done.push(effect);
                },
                None => {},
            }
        }
        match action {
            Action::Idle => {},
            _ => {
                proof {
                    let scenes_before = scenes;
                    let tables_before = tables;
                    scenes = scenes.push(window.scene());
                    tables = tables.push(window.context().objects);
                    let n = actions_before.len() as int;
                    let actions_after = actions_before.push(action);
                    assert forall|k: int| 0 <= k < actions_after.len() implies #[trigger] step_carried_out(
                        actions_after,
                        scenes,
                        tables,
                        k,
                    ) by {
                        if k < n {
                            assert(step_carried_out(actions_before, scenes_before, tables_before, k));
                        } else {
                            assert(scenes[n - 1] == scene);
                            assert(context == drained(tables[n - 1]));
                        }
                    }
                }
                actions.push(action);
            },
        }
        i += 1;
    }
    proof {
        lemma_closed_window_does_nothing(events@.skip(i as int));
        assert(done + Seq::<Effect>::empty() == done);
    }
    actions
}

/// A closed window does nothing, whatever happens to it.
pub proof fn lemma_closed_window_does_nothing(events: Seq<Event>)
    ensures
        effects(true, events) == Seq::<Effect>::empty(),
    decreases events.len(),
{
    if events.len() > 0 {
        lemma_closed_window_does_nothing(events.drop_first());
    }
}

/// While a window handles events it never sets the scene up.
pub proof fn lemma_effects_hold_no_init(closed: bool, events: Seq<Event>)
    ensures
        forall|i: int| 0 <= i < effects(closed, events).len() ==> effects(closed, events)[i] != Effect::Init,
    decreases events.len(),
{
    if events.len() > 0 {
        lemma_effects_hold_no_init(closed || events[0].closes(), events.drop_first());
    }
}

/// The scene is set up exactly once, and before anything else happens: the
/// life cycle starts with `Init`, no later entry is `Init`, and so every
/// `Draw` has an `Init` before it.
pub proof fn lemma_init_once_before_first_draw(events: Seq<Event>)
    ensures
        lifecycle(events).len() >= 1,
        lifecycle(events)[0] == Effect::Init,
        forall|i: int| 1 <= i < lifecycle(events).len() ==> lifecycle(events)[i] != Effect::Init,
{
    lemma_effects_hold_no_init(false, events);
    assert forall|i: int| 1 <= i < lifecycle(events).len() implies lifecycle(events)[i]
        != Effect::Init by {
        assert(lifecycle(events)[i] == effects(false, events)[i - 1]);
    }
}

/// `Exit` can only be the last thing a window does.
pub proof fn lemma_exit_is_last(closed: bool, events: Seq<Event>)
    ensures
        forall|i: int|
            0 <= i < effects(closed, events).len() && effects(closed, events)[i] == Effect::Exit ==> i
                == effects(closed, events).len() - 1,
    decreases events.len(),
{
    if events.len() > 0 {
        let rest = effects(closed || events[0].closes(), events.drop_first());
        lemma_exit_is_last(closed || events[0].closes(), events.drop_first());
        if closed || events[0].closes() {
            lemma_closed_window_does_nothing(events.drop_first());
        }
    }
}

/// Once the scene's `exit` has been called, `draw` is never called again:
/// nothing at all follows `Exit` in a life cycle.
pub proof fn lemma_no_draw_after_exit(events: Seq<Event>)
    ensures
        forall|i: int, j: int|
            0 <= i < j < lifecycle(events).len() && lifecycle(events)[i] == Effect::Exit
                ==> lifecycle(events)[j] != Effect::Draw,
        forall|i: int|
            0 <= i < lifecycle(events).len() && lifecycle(events)[i] == Effect::Exit ==> i
                == lifecycle(events).len() - 1,
{
    lemma_exit_is_last(false, events);
    assert forall|i: int|
        0 <= i < lifecycle(events).len() && lifecycle(events)[i] == Effect::Exit implies i
        == lifecycle(events).len() - 1 by {
        assert(i >= 1);
        assert(lifecycle(events)[i] == effects(false, events)[i - 1]);
    }
}

/// No resize event follows a closing event in `events`.
pub open spec fn resizes_precede_close(events: Seq<Event>) -> bool {
    forall|i: int, j: int|
        0 <= i < j < events.len() && events[i].closes() ==> !(events[j] is Resized)
}

/// The reconfigurations of a window that is closed or not when `events`
/// arrive, where no resize meets a closed window.
proof fn lemma_reconfigurations(closed: bool, events: Seq<Event>)
    requires
        resizes_precede_close(events),
        closed ==> forall|j: int| 0 <= j < events.len() ==> !(events[j] is Resized),
    ensures
        reconfigurations(effects(closed, events)) == resizes(events),
    decreases events.len(),
{
    if events.len() > 0 {
        let rest_events = events.drop_first();
        let closed_after = closed || events[0].closes();
        let rest = effects(closed_after, rest_events);
        assert forall|j: int| 0 <= j < rest_events.len() implies rest_events[j] == events[j + 1] by {}
        assert(resizes_precede_close(rest_events)) by {
            assert forall|i: int, j: int|
                0 <= i < j < rest_events.len() && rest_events[i].closes() implies !(rest_events[j] is Resized) by {
                assert(events[i + 1].closes());
                assert(rest_events[j] == events[j + 1]);
            }
        }
        assert(closed_after ==> forall|j: int|
            0 <= j < rest_events.len() ==> !(rest_events[j] is Resized)) by {
            if closed_after {
                assert forall|j: int| 0 <= j < rest_events.len() implies !(rest_events[j] is Resized) by {
                    assert(rest_events[j] == events[j + 1]);
                }
            }
        }
        lemma_reconfigurations(closed_after, rest_events);
        match response(closed, events[0]) {
            Some(effect) => {
                assert((seq![effect] + rest).drop_first() == rest);
                assert((seq![effect] + rest)[0] == effect);
            },
            None => {},
        }
    }
}

/// Resizing the window N times leads to exactly N reconfigurations, each with
/// the size of its resize event, in the order of the events. This holds of
/// every sequence of events in which no resize follows a closing event: a
/// closed window does nothing any more.
pub proof fn lemma_every_resize_reconfigures(events: Seq<Event>)
    requires
        resizes_precede_close(events),
    ensures
        reconfigurations(lifecycle(events)) == resizes(events),
        reconfigurations(lifecycle(events)).len() == resizes(events).len(),
{
    lemma_reconfigurations(false, events);
    assert(lifecycle(events).drop_first() == effects(false, events));
}

} // verus!
