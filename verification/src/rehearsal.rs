//! What a frame comes to when the driver succeeds at everything.
//!
//! A rehearsal goes through the commands of a frame as a session would that
//! hears nothing but success, and notes whether every command was admissible
//! when its turn came. A frame that is sound in rehearsal is never refused by
//! a session: whatever the driver replies, the session does not fail with
//! `InvalidCommand`.

use crate::command::{Command, ObjectKind, RenderContext};
use crate::failure::Failure;
use crate::reply::{verdict, Reply, Verdict};
use crate::session::{admissible, current_after, objects_after, Bound, SessionView, Step};
use vstd::prelude::*;

verus! {

/// How far a rehearsal has come.
pub struct Rehearsal {
    /// What every slot is bound to.
    pub objects: Seq<Bound>,
    /// The rendering context that is current.
    pub current: RenderContext,
    /// Every command so far was admissible when its turn came.
    pub sound: bool,
}

/// What a slot is bound to when an object of `kind` has been created in
/// `context`.
pub open spec fn held(kind: ObjectKind, context: RenderContext) -> Bound {
    Bound { kind, context }
}

/// The rehearsal of nothing, for a session that has just been created: no
/// slot is bound and the root context is current.
pub open spec fn fresh() -> Rehearsal {
    Rehearsal { objects: Seq::empty(), current: RenderContext::Root, sound: true }
}

impl Rehearsal {
    /// The rehearsal after one more command, of a frame with `blocks` data
    /// blocks.
    pub open spec fn after(self, command: Command, blocks: nat) -> Rehearsal {
        Rehearsal {
            objects: objects_after(self.objects, self.current, command),
            current: current_after(self.current, command),
            sound: self.sound && admissible(command, self.objects, self.current, blocks),
        }
    }
}

/// The rehearsal of `commands`, in order, from `start` on.
pub open spec fn rehearse(commands: Seq<Command>, start: Rehearsal, blocks: nat) -> Rehearsal
    decreases commands.len(),
{
    if commands.len() == 0 {
        start
    } else {
        rehearse(commands.drop_last(), start, blocks).after(commands.last(), blocks)
    }
}

/// The rehearsal of what a session has pending, from what the session holds.
pub open spec fn rehearsal_of(session: SessionView) -> Rehearsal {
    rehearse(
        session.pending,
        Rehearsal { objects: session.objects, current: session.current, sound: true },
        session.data.len(),
    )
}

/// Rehearsing one more command at the end is one more step.
pub proof fn lemma_rehearse_push(
    commands: Seq<Command>,
    command: Command,
    start: Rehearsal,
    blocks: nat,
)
    ensures
        rehearse(commands.push(command), start, blocks) == rehearse(
            commands,
            start,
            blocks,
        ).after(command, blocks),
{
    assert(commands.push(command).drop_last() =~= commands);
}

/// Rehearsing a frame is rehearsing its first command and then the rest.
pub proof fn lemma_rehearse_first(commands: Seq<Command>, start: Rehearsal, blocks: nat)
    requires
        commands.len() > 0,
    ensures
        rehearse(commands, start, blocks) == rehearse(
            commands.drop_first(),
            start.after(commands[0], blocks),
            blocks,
        ),
    decreases commands.len(),
{
    let first = commands[0];
    let rest = commands.drop_first();
    let front = commands.drop_last();
    if commands.len() == 1 {
        assert(commands.last() == first);
        assert(rehearse(front, start, blocks) == start);
        assert(rehearse(rest, start.after(first, blocks), blocks) == start.after(first, blocks));
    } else {
        lemma_rehearse_first(front, start, blocks);
        assert(front.drop_first() =~= rest.drop_last());
        assert(front[0] == first);
        assert(rest.last() == commands.last());
        assert(rehearse(rest, start.after(first, blocks), blocks) == rehearse(
            rest.drop_last(),
            start.after(first, blocks),
            blocks,
        ).after(rest.last(), blocks));
    }
}

/// A rehearsal that ends sound began sound.
pub proof fn lemma_sound_from_the_start(commands: Seq<Command>, start: Rehearsal, blocks: nat)
    requires
        rehearse(commands, start, blocks).sound,
    ensures
        start.sound,
    decreases commands.len(),
{
    if commands.len() > 0 {
        lemma_sound_from_the_start(commands.drop_last(), start, blocks);
    }
}

impl SessionView {
    /// The session has not failed, and what it has pending is sound in
    /// rehearsal. Where it waits for a reply, it waits for the reply to the
    /// first pending command or to a question about it.
    pub open spec fn rehearsed(self) -> bool {
        &&& !self.halted
        &&& rehearsal_of(self).sound
        &&& self.awaiting matches Some(command) ==> {
            &&& self.pending.len() > 0
            &&& command == self.pending[0] || exists|reply: Reply|
                verdict(self.pending[0], reply) == Verdict::Ask(command)
        }
    }
}

/// A session whose frame is sound in rehearsal never refuses a command of it:
/// whatever the backend replies, the move does not fail with
/// `InvalidCommand`, and unless it fails for another reason, what is left of
/// the frame is sound in rehearsal again and comes to the same end. When the
/// frame is finished the session holds what the rehearsal said it would.
pub proof fn lemma_rehearsed_frames_are_not_refused(session: SessionView, reply: Option<Reply>)
    requires
        session.rehearsed(),
    ensures
        !(session.advance(reply).1 matches Step::Failed(Failure::InvalidCommand(_))),
        !(session.advance(reply).1 is Failed) ==> session.advance(reply).0.rehearsed(),
        !(session.advance(reply).1 is Failed) ==> rehearsal_of(session.advance(reply).0)
            == rehearsal_of(session),
        session.advance(reply).1 is Finished ==> session.advance(reply).0.objects == rehearsal_of(
            session,
        ).objects && session.advance(reply).0.current == rehearsal_of(session).current,
{
    let blocks = session.data.len();
    let start = Rehearsal { objects: session.objects, current: session.current, sound: true };
    match (session.awaiting, reply) {
        (Some(command), Some(reply)) => {
            match verdict(command, reply) {
                Verdict::Proceed => {
                    assert(command == session.pending[0]);
                    lemma_rehearse_first(session.pending, start, blocks);
                    let rest = session.pending.drop_first();
                    let held = start.after(command, blocks);
                    lemma_sound_from_the_start(rest, held, blocks);
                    if rest.len() > 0 {
                        lemma_rehearse_first(rest, held, blocks);
                        lemma_sound_from_the_start(
                            rest.drop_first(),
                            held.after(rest[0], blocks),
                            blocks,
                        );
                    }
                },
                Verdict::Ask(question) => {
                    assert(verdict(session.pending[0], reply) == Verdict::Ask(question));
                },
                Verdict::Fail(_) => {},
            }
        },
        (None, None) => {
            if session.pending.len() > 0 {
                lemma_rehearse_first(session.pending, start, blocks);
                lemma_sound_from_the_start(
                    session.pending.drop_first(),
                    start.after(session.pending[0], blocks),
                    blocks,
                );
            }
        },
        _ => {},
    }
}

} // verus!
