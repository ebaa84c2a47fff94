//! Carrying a frame out, one command at a time.
//!
//! The backend owns the driver; the session decides. It hands the backend the
//! next command of the frame, takes the backend's reply, and from the two
//! decides what comes next: the following command, a question to the driver,
//! or the end. It keeps track of what every slot is bound to, so that no
//! command reaches the backend that names an object the backend does not
//! hold. It also keeps track of the rendering context that is current:
//! framebuffer objects are not shared between contexts, so a framebuffer can
//! only be used in the context it was created in.

use crate::command::{Command, ObjectKind, Operand, RenderContext};
use crate::context::Frame;
use crate::failure::Failure;
use crate::reply::{judge, verdict, Expectation, Reply, Verdict};
use vstd::prelude::*;

verus! {

/// What the backend has to do next.
#[derive(Clone, Debug, PartialEq, Eq)]
pub enum Step {
    /// Carry this command out and come back with the reply.
    Issue(Command),
    /// The frame has been carried out.
    Finished,
    /// The session has failed.
    Failed(Failure),
}

/// What a slot is bound to.
#[derive(Copy, Clone, Debug, PartialEq, Eq, Structural)]
pub struct Bound {
    /// The kind of the object.
    pub kind: ObjectKind,
    /// The rendering context that was current when the slot was bound.
    pub context: RenderContext,
}

/// The state of a session.
pub struct SessionView {
    /// What every slot is bound to.
    pub objects: Seq<Bound>,
    /// The rendering context that is current.
    pub current: RenderContext,
    /// The commands of the frame that have not been completed, in order.
    pub pending: Seq<Command>,
    /// The data blocks of the frame.
    pub data: Seq<Vec<u8>>,
    /// The command that the backend has been handed and not answered yet.
    pub awaiting: Option<Command>,
    /// The session has failed.
    pub halted: bool,
}

/// A slot that a command works on is bound to an object of the kind that the
/// command needs, and a framebuffer is one of the current context.
pub open spec fn operand_bound(
    objects: Seq<Bound>,
    current: RenderContext,
    operand: Option<Operand>,
) -> bool {
    match operand {
        Some(operand) => {
            &&& operand.slot < objects.len()
            &&& objects[operand.slot as int].kind == operand.kind
            &&& operand.kind == ObjectKind::Framebuffer ==> objects[operand.slot as int].context
                == current
        },
        None => true,
    }
}

/// A command can be handed to a backend that holds `objects` and `blocks`
/// data blocks while `current` is the current context: the slot it binds is
/// the next free one, the slots it works on are bound to objects of the
/// right kind, a framebuffer it works on belongs to the current context, and
/// the data block it reads exists.
pub open spec fn admissible(
    command: Command,
    objects: Seq<Bound>,
    current: RenderContext,
    blocks: nat,
) -> bool {
    &&& command.binding() matches Some(operand) ==> operand.slot == objects.len()
    &&& operand_bound(objects, current, command.first_operand())
    &&& operand_bound(objects, current, command.second_operand())
    &&& command.payload() matches Some(block) ==> block < blocks
}

/// The slots once `command` has been completed in the context `current`:
/// the slot it binds is taken, the slot whose object it deletes is marked as
/// deleted.
pub open spec fn objects_after(
    objects: Seq<Bound>,
    current: RenderContext,
    command: Command,
) -> Seq<Bound> {
    let bound = match command.binding() {
        Some(operand) if operand.slot == objects.len() => objects.push(
            Bound { kind: operand.kind, context: current },
        ),
        _ => objects,
    };
    match command.deletion() {
        Some(slot) if slot < bound.len() => bound.update(
            slot as int,
            Bound { kind: ObjectKind::Deleted, context: bound[slot as int].context },
        ),
        _ => bound,
    }
}

/// The context that is current once `command` has been completed.
pub open spec fn current_after(current: RenderContext, command: Command) -> RenderContext {
    match command {
        Command::MakeCurrent { context } => context,
        _ => current,
    }
}

impl SessionView {
    /// The session after it has failed.
    pub open spec fn halt(self) -> SessionView {
        SessionView { awaiting: None, halted: true, ..self }
    }

    /// The session turns to the first pending command: it issues the command
    /// if it is admissible and fails if it is not; with nothing pending the
    /// frame is finished.
    pub open spec fn issue_next(self) -> (SessionView, Step) {
        if self.pending.len() == 0 {
            (SessionView { awaiting: None, ..self }, Step::Finished)
        } else if admissible(self.pending[0], self.objects, self.current, self.data.len()) {
            (SessionView { awaiting: Some(self.pending[0]), ..self }, Step::Issue(self.pending[0]))
        } else {
            (self.halt(), Step::Failed(Failure::InvalidCommand(self.pending[0])))
        }
    }

    /// The session after the command it was waiting for has been completed.
    pub open spec fn complete(self, command: Command) -> SessionView {
        SessionView {
            objects: objects_after(self.objects, self.current, command),
            current: current_after(self.current, command),
            pending: if self.pending.len() > 0 {
                self.pending.drop_first()
            } else {
                self.pending
            },
            awaiting: None,
            ..self
        }
    }

    /// One move of the session. `reply` is the backend's answer to the command
    /// that was issued last, and `None` where no command has been issued
    /// since the frame was submitted.
    ///
    /// - A session that has failed fails again, with `Halted`.
    /// - A reply to a command that proceeds completes the command, and the
    ///   session turns to the next one.
    /// - A reply that raises a question issues the question; the command
    ///   stays pending.
    /// - A reply that fails halts the session.
    /// - A reply that nothing waits for, or none where one is waited for,
    ///   halts the session with `OutOfTurn`.
    pub open spec fn advance(self, reply: Option<Reply>) -> (SessionView, Step) {
        if self.halted {
            (self, Step::Failed(Failure::Halted))
        } else {
            match (self.awaiting, reply) {
                (Some(command), Some(reply)) => match verdict(command, reply) {
                    Verdict::Proceed => self.complete(command).issue_next(),
                    Verdict::Ask(question) => (
                        SessionView { awaiting: Some(question), ..self },
                        Step::Issue(question),
                    ),
                    Verdict::Fail(failure) => (self.halt(), Step::Failed(failure)),
                },
                (None, None) => self.issue_next(),
                _ => (self.halt(), Step::Failed(Failure::OutOfTurn)),
            }
        }
    }

    /// The session is ready for a new frame: it has not failed, waits for no
    /// reply, and has nothing pending.
    pub open spec fn idle(self) -> bool {
        !self.halted && self.awaiting is None && self.pending.len() == 0
    }

    /// The command that the backend has been handed names only what the
    /// backend holds: the slots it works on are bound to objects of the right
    /// kind, a framebuffer it works on belongs to the current context, and the
    /// data block it reads exists.
    pub open spec fn consistent(self) -> bool {
        self.awaiting matches Some(command) ==> {
            &&& operand_bound(self.objects, self.current, command.first_operand())
            &&& operand_bound(self.objects, self.current, command.second_operand())
            &&& command.payload() matches Some(block) ==> block < self.data.len()
        }
    }
}

/// A failure is final: a move that fails leaves the session halted, and a
/// halted session answers every later move with `Halted` and stays as it is.
/// Nothing is retried.
pub proof fn lemma_failure_is_final(session: SessionView, reply: Option<Reply>, later: Option<Reply>)
    requires
        session.advance(reply).1 is Failed,
    ensures
        session.advance(reply).0.halted,
        session.advance(reply).0.advance(later) == (
            session.advance(reply).0,
            Step::Failed(Failure::Halted),
        ),
{
}

/// A session that learns that the uniform it asked for is missing halts with
/// `NoSuchUniform`, and every later move fails with `Halted`.
pub proof fn lemma_missing_uniform_halts(
    session: SessionView,
    command: Command,
    name: &'static str,
    later: Option<Reply>,
)
    requires
        !session.halted,
        session.awaiting == Some(command),
        command.expects() == Expectation::Uniform(name),
    ensures
        session.advance(Some(Reply::Missing)).1 == Step::Failed(Failure::NoSuchUniform(name)),
        session.advance(Some(Reply::Missing)).0.halted,
        session.advance(Some(Reply::Missing)).0.advance(later).1 == Step::Failed(Failure::Halted),
{
}

/// A session never hands the backend a command that names something the
/// backend does not hold. A session that waits for no reply is consistent;
/// every move of a consistent session leads to a consistent session; and the
/// command that a move issues is the one the session then waits for. So the
/// operands of every command that is ever issued are bound when it is issued.
pub proof fn lemma_issued_commands_name_what_is_held(session: SessionView, reply: Option<Reply>)
    requires
        session.consistent(),
    ensures
        session.advance(reply).0.consistent(),
        session.advance(reply).1 matches Step::Issue(command) ==> session.advance(reply).0.awaiting
            == Some(command),
        !session.halted && !(session.advance(reply).1 is Issue) ==> session.advance(
            reply,
        ).0.awaiting is None,
{
}

/// A session with a backend.
pub struct Session {
    objects: Vec<Bound>,
    current: RenderContext,
    commands: Vec<Command>,
    data: Vec<Vec<u8>>,
    cursor: usize,
    awaiting: Option<Command>,
    halted: bool,
}

impl View for Session {
    type V = SessionView;

    closed spec fn view(&self) -> SessionView {
        SessionView {
            objects: self.objects@,
            current: self.current,
            pending: if self.cursor <= self.commands@.len() {
                self.commands@.skip(self.cursor as int)
            } else {
                Seq::empty()
            },
            data: self.data@,
            awaiting: self.awaiting,
            halted: self.halted,
        }
    }
}

/// Decides whether a slot that a command works on is bound as the command
/// needs it.
fn is_bound(objects: &Vec<Bound>, current: RenderContext, operand: Option<Operand>) -> (bound: bool)
    ensures
        bound == operand_bound(objects@, current, operand),
{
    match operand {
        Some(operand) => {
            if operand.slot < objects.len() {
                let found = objects[operand.slot];
                found.kind == operand.kind && (operand.kind != ObjectKind::Framebuffer
                    || found.context == current)
            } else {
                false
            }
        },
        None => true,
    }
}

/// Decides whether a command can be handed to the backend.
fn is_admissible(
    command: &Command,
    objects: &Vec<Bound>,
    current: RenderContext,
    blocks: usize,
) -> (accepted: bool)
    ensures
        accepted == admissible(*command, objects@, current, blocks as nat),
{
    let fresh = match command.binds() {
        Some(operand) => operand.slot == objects.len(),
        None => true,
    };
    let present = match command.data_block() {
        Some(block) => block < blocks,
        None => true,
    };
    fresh && is_bound(objects, current, command.first()) && is_bound(
        objects,
        current,
        command.second(),
    ) && present
}

impl Session {
    /// A session with an empty frame and no slot bound, in which the root
    /// context is current.
    pub fn new() -> (session: Session)
        ensures
            session@.objects == Seq::<Bound>::empty(),
            session@.current == RenderContext::Root,
            session@.data == Seq::<Vec<u8>>::empty(),
            session@.idle(),
    {
        Session {
            objects: Vec::new(),
            current: RenderContext::Root,
            commands: Vec::new(),
            data: Vec::new(),
            cursor: 0,
            awaiting: None,
            halted: false,
        }
    }

    /// Takes a frame to carry out. A session that is not idle refuses the
    /// frame and stays as it is.
    pub fn submit(&mut self, frame: Frame) -> (accepted: bool)
        ensures
            accepted == old(self)@.idle(),
            accepted ==> final(self)@ == (SessionView {
                pending: frame.commands@,
                data: frame.data@,
                ..old(self)@
            }),
            !accepted ==> final(self)@ == old(self)@,
    {
        if self.halted || self.awaiting.is_some() || self.cursor < self.commands.len() {
            return false;
        }
        self.commands = frame.commands;
        self.data = frame.data;
        self.cursor = 0;
        assert(self.commands@.skip(0) == self.commands@);
        true
    }

    /// The data block number `index` of the frame that is being carried out.
    pub fn data(&self, index: usize) -> (block: Option<&Vec<u8>>)
        ensures
            index < self@.data.len() ==> block == Some(&self@.data[index as int]),
            index >= self@.data.len() ==> block is None,
    {
        if index < self.data.len() {
            Some(&self.data[index])
        } else {
            None
        }
    }

    /// What the slot is bound to, if it has been bound.
    pub fn object(&self, slot: usize) -> (bound: Option<Bound>)
        ensures
            slot < self@.objects.len() ==> bound == Some(self@.objects[slot as int]),
            slot >= self@.objects.len() ==> bound is None,
    {
        if slot < self.objects.len() {
            Some(self.objects[slot])
        } else {
            None
        }
    }

    /// Halts the session.
    fn stop(&mut self)
        ensures
            final(self)@ == old(self)@.halt(),
    {
        self.awaiting = None;
        self.halted = true;
    }

    /// Turns to the first pending command.
    fn issue(&mut self) -> (step: Step)
        ensures
            (final(self)@, step) == old(self)@.issue_next(),
    {
        if self.cursor >= self.commands.len() {
            self.awaiting = None;
            return Step::Finished;
        }
        let command = self.commands[self.cursor];
        assert(self@.pending[0] == command);
        if is_admissible(&command, &self.objects, self.current, self.data.len()) {
            self.awaiting = Some(command);
            Step::Issue(command)
        } else {
            self.stop();
            Step::Failed(Failure::InvalidCommand(command))
        }
    }

    /// Marks the command that the session was waiting for as completed.
    fn finish(&mut self, command: Command)
        ensures
            final(self)@ == old(self)@.complete(command),
    {
        match command.binds() {
            Some(operand) => {
                if operand.slot == self.objects.len() {
                    self.objects.push(Bound { kind: operand.kind, context: self.current });
                }
            },
            None => {},
        }
        match command.deletes() {
            Some(slot) => {
                if slot < self.objects.len() {
                    let context = self.objects[slot].context;
                    self.objects.set(slot, Bound { kind: ObjectKind::Deleted, context });
                }
            },
            None => {},
        }
        match command {
            Command::MakeCurrent { context } => {
                self.current = context;
            },
            _ => {},
        }
        if self.cursor < self.commands.len() {
            assert(self.commands@.skip(self.cursor as int).drop_first() == self.commands@.skip(
                self.cursor + 1,
            ));
            self.cursor = self.cursor + 1;
        }
        self.awaiting = None;
    }

    /// Makes one move: takes the backend's reply to the command issued last,
    /// `None` where none has been issued since the frame was submitted, and
    /// says what the backend has to do next.
    pub fn advance(&mut self, reply: Option<Reply>) -> (step: Step)
        ensures
            (final(self)@, step) == old(self)@.advance(reply),
    {
        if self.halted {
            return Step::Failed(Failure::Halted);
        }
        match (self.awaiting, reply) {
            (Some(command), Some(reply)) => {
                match judge(command, reply) {
                    Verdict::Proceed => {
                        self.finish(command);
                        self.issue()
                    },
                    Verdict::Ask(question) => {
                        self.awaiting = Some(question);
                        Step::Issue(question)
                    },
                    Verdict::Fail(failure) => {
                        self.stop();
                        Step::Failed(failure)
                    },
                }
            },
            (None, None) => self.issue(),
            _ => {
                self.stop();
                Step::Failed(Failure::OutOfTurn)
            },
        }
    }
}

} // verus!
