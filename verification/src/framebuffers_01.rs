//! A scene that renders into a renderbuffer off screen and copies the result
//! to the window.

use crate::command::{Command, ObjectKind};
use crate::constants::DRAW_FRAMEBUFFER;
use crate::context::{Context, ContextView};
use crate::handler::{unchanged, RenderHandler};
use crate::offscreen::{
    clear_to_red, copy, copy_to_window, lemma_read_source_is_sound, lemma_red_is_sound,
    lemma_render_target_is_sound, read_source, render_target, with_read_source, with_red,
    with_render_target,
};
use crate::window::drained;
use crate::rehearsal::{held, lemma_rehearse_push, rehearse, Rehearsal};
use vstd::prelude::*;

verus! {

pub struct Framebuffers01 {}

impl Framebuffers01 {
    /// `commands` followed by what `draw` records when `first` is the next
    /// free slot: a render target is set up in `first` and `first + 1` and
    /// cleared to red, the window's own framebuffer becomes the one that is
    /// drawn to, a source with the same renderbuffer is set up in
    /// `first + 2` and copied from, and the driver is asked for errors.
    pub open spec fn frame(commands: Seq<Command>, first: nat) -> Seq<Command> {
        let drawn = with_red(with_render_target(commands, first)).push(
            Command::BindFramebuffer { target: DRAW_FRAMEBUFFER, framebuffer: None },
        );
        with_read_source(drawn, first + 2, (first + 1) as usize).push(copy()).push(Command::GetError)
    }
}

/// A frame is sound in rehearsal wherever it starts and binds three slots:
/// the framebuffer that is drawn to, the renderbuffer, and the framebuffer
/// that is read from, all in the context that is current.
pub proof fn lemma_frame_is_sound(commands: Seq<Command>, start: Rehearsal, blocks: nat)
    requires
        rehearse(commands, start, blocks).objects.len() + 2 <= usize::MAX,
    ensures
        rehearse(
            Framebuffers01::frame(commands, rehearse(commands, start, blocks).objects.len()),
            start,
            blocks,
        ) == ({
            let reached = rehearse(commands, start, blocks);
            Rehearsal {
                objects: reached.objects.push(held(ObjectKind::Framebuffer, reached.current)).push(
                    held(ObjectKind::Renderbuffer, reached.current),
                ).push(held(ObjectKind::Framebuffer, reached.current)),
                ..reached
            }
        }),
{
    let first = rehearse(commands, start, blocks).objects.len();
    let target = with_render_target(commands, first);
    lemma_render_target_is_sound(commands, start, blocks);
    let red = with_red(target);
    lemma_red_is_sound(target, start, blocks);
    let c1 = Command::BindFramebuffer { target: DRAW_FRAMEBUFFER, framebuffer: None };
    lemma_rehearse_push(red, c1, start, blocks);
    let drawn = red.push(c1);
    let source = with_read_source(drawn, first + 2, (first + 1) as usize);
    lemma_read_source_is_sound(drawn, start, blocks, (first + 1) as usize);
    lemma_rehearse_push(source, copy(), start, blocks);
    lemma_rehearse_push(source.push(copy()), Command::GetError, start, blocks);
}

/// In a window the scene is sound in rehearsal from the first frame on. The
/// setup records nothing. A frame that `draw` records on a drained context is
/// sound for a session that holds as many slots as the context has handed
/// out; after it the session holds as many slots as the context has handed
/// out then, in the same context: so the same holds of the frame after it.
pub proof fn lemma_scene_is_sound(
    scene: Framebuffers01,
    objects: Seq<ObjectKind>,
    then: Framebuffers01,
    frame: ContextView,
    session: Rehearsal,
)
    requires
        Framebuffers01::drawn(scene, drained(objects), then, frame),
        session.objects.len() == objects.len(),
        objects.len() + 2 <= usize::MAX,
    ensures
        rehearse(frame.commands, session, frame.data.len()).sound == session.sound,
        rehearse(frame.commands, session, frame.data.len()).objects.len() == frame.objects.len(),
        rehearse(frame.commands, session, frame.data.len()).current == session.current,
{
    let nothing = Seq::<Command>::empty();
    assert(rehearse(nothing, session, 0) == session);
    lemma_frame_is_sound(nothing, session, 0);
}

impl RenderHandler for Framebuffers01 {
    /// `init` records nothing.
    open spec fn initialized(before: ContextView, scene: Self, after: ContextView) -> bool {
        after == before
    }

    /// `draw` takes three slots, two framebuffers with a renderbuffer between
    /// them, and records `frame`.
    open spec fn drawn(scene: Self, before: ContextView, then: Self, after: ContextView) -> bool {
        &&& then == scene
        &&& after.commands == Self::frame(before.commands, before.objects.len())
        &&& after.data == before.data
        &&& after.objects == before.objects.push(ObjectKind::Framebuffer).push(
            ObjectKind::Renderbuffer,
        ).push(ObjectKind::Framebuffer)
    }

    /// `exit` changes nothing.
    open spec fn exited(scene: Self, before: ContextView, then: Self, after: ContextView) -> bool {
        unchanged(scene, before, then, after)
    }

    /// The scene needs no setup.
    fn init(_gl: &mut Context) -> (scene: Self) {
        Framebuffers01 {  }
    }

    /// Records one frame: a framebuffer with a renderbuffer of 800 by 600 as
    /// its color attachment is checked for completeness and cleared to red;
    /// a second framebuffer with the same renderbuffer is read from and
    /// copied to the window; at the end the driver is asked for errors.
    fn draw(&mut self, gl: &mut Context) {
        let target = render_target(gl);
        clear_to_red(gl);

        // The window's own framebuffer is the one that is drawn to from now.
        gl.record(Command::BindFramebuffer { target: DRAW_FRAMEBUFFER, framebuffer: None });

        let _ = read_source(gl, target.renderbuffer);
        copy_to_window(gl);
        gl.record(Command::GetError);
    }

    /// The scene holds nothing that has to be released: `exit` records
    /// nothing.
    fn exit(&mut self, _gl: &mut Context) {
    }
}

} // verus!
