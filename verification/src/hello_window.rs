//! The simplest scene: a red window.

use crate::command::{Command, ObjectKind};
use crate::constants::{COLOR_BUFFER_BIT, TRIANGLES};
use crate::context::{Context, ContextView};
use crate::handler::{unchanged, RenderHandler};
use crate::window::drained;
use crate::rehearsal::{lemma_rehearse_push, rehearse, Rehearsal};
use vstd::prelude::*;

verus! {

pub struct HelloWindow {}

impl HelloWindow {
    /// `commands` followed by what `draw` records.
    pub open spec fn frame(commands: Seq<Command>) -> Seq<Command> {
        commands.push(
            Command::ClearColor { red: 0x3F80_0000, green: 0, blue: 0, alpha: 0x3F80_0000 },
        ).push(Command::Clear { mask: COLOR_BUFFER_BIT }).push(
            Command::DrawArrays { mode: TRIANGLES, first: 0, count: 3 },
        )
    }
}

/// A frame is sound in rehearsal anywhere and binds nothing.
pub proof fn lemma_frame_is_sound(commands: Seq<Command>, start: Rehearsal, blocks: nat)
    ensures
        rehearse(HelloWindow::frame(commands), start, blocks) == rehearse(commands, start, blocks),
{
    let s0 = commands;
    let c1 = Command::ClearColor { red: 0x3F80_0000, green: 0, blue: 0, alpha: 0x3F80_0000 };
    lemma_rehearse_push(s0, c1, start, blocks);
    let s1 = s0.push(c1);
    let c2 = Command::Clear { mask: COLOR_BUFFER_BIT };
    lemma_rehearse_push(s1, c2, start, blocks);
    let s2 = s1.push(c2);
    let c3 = Command::DrawArrays { mode: TRIANGLES, first: 0, count: 3 };
    lemma_rehearse_push(s2, c3, start, blocks);
}

/// In a window the scene is sound in rehearsal from the first frame on:
/// whatever a session holds, the frames that `init` and `draw` record on a
/// drained context are sound for it and leave it as it is.
pub proof fn lemma_scene_is_sound(
    scene: HelloWindow,
    objects: Seq<ObjectKind>,
    setup: ContextView,
    then: HelloWindow,
    frame: ContextView,
    session: Rehearsal,
)
    requires
        HelloWindow::initialized(drained(objects), scene, setup),
        HelloWindow::drawn(scene, drained(objects), then, frame),
    ensures
        rehearse(setup.commands, session, setup.data.len()) == session,
        rehearse(frame.commands, session, frame.data.len()) == session,
{
    let nothing = Seq::<Command>::empty();
    assert(rehearse(nothing, session, 0) == session);
    lemma_frame_is_sound(nothing, session, 0);
}

impl RenderHandler for HelloWindow {
    /// `init` records nothing.
    open spec fn initialized(before: ContextView, scene: Self, after: ContextView) -> bool {
        after == before
    }

    /// `draw` records `frame`.
    open spec fn drawn(scene: Self, before: ContextView, then: Self, after: ContextView) -> bool {
        &&& then == scene
        &&& after.commands == Self::frame(before.commands)
        &&& after.data == before.data
        &&& after.objects == before.objects
    }

    /// `exit` changes nothing.
    open spec fn exited(scene: Self, before: ContextView, then: Self, after: ContextView) -> bool {
        unchanged(scene, before, then, after)
    }

    /// The scene needs no setup.
    fn init(_gl: &mut Context) -> (scene: Self) {
        HelloWindow {  }
    }

    /// Records one frame: clear to (1, 0, 0, 1) and draw three vertices.
    fn draw(&mut self, gl: &mut Context) {
        gl.record(Command::ClearColor { red: 0x3F80_0000, green: 0, blue: 0, alpha: 0x3F80_0000 });
        gl.record(Command::Clear { mask: COLOR_BUFFER_BIT });
        gl.record(Command::DrawArrays { mode: TRIANGLES, first: 0, count: 3 });
    }

    /// The scene holds nothing that has to be released: `exit` records
    /// nothing.
    fn exit(&mut self, _gl: &mut Context) {
    }
}

} // verus!
