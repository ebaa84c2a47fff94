//! A scene that renders off screen in one rendering context and copies the
//! result to the window in another.
//!
//! The two contexts share their renderbuffers but not their framebuffer
//! objects. The scene renders in the root context into a renderbuffer, then
//! makes the surface context current, attaches the same renderbuffer to a
//! framebuffer of that context, and copies from it to the window. Every
//! framebuffer is created, used and deleted in one and the same context.

use crate::command::{Command, ObjectKind, RenderContext};
use crate::constants::DRAW_FRAMEBUFFER;
use crate::context::{Context, ContextView};
use crate::handler::{unchanged, RenderHandler};
use crate::offscreen::{
    clear_to_red, copy, copy_to_window, lemma_read_source_is_sound, lemma_red_is_sound,
    lemma_render_target_is_sound, read_source, render_target, with_read_source, with_red,
    with_render_target,
};
use crate::window::drained;
use crate::rehearsal::{held, lemma_rehearse_push, rehearse, Rehearsal};
use vstd::prelude::*;

verus! {

pub struct Framebuffers02 {}

impl Framebuffers02 {
    /// `commands` followed by what `draw` records when `first` is the next
    /// free slot. In the root context a render target is set up in `first`
    /// and `first + 1` and cleared to red. In the surface context a source
    /// with the same renderbuffer is set up in `first + 2`, the framebuffer
    /// that is drawn to is checked, the window's own framebuffer becomes the
    /// one that is drawn to, the source is copied from and its framebuffer
    /// deleted. Back in the root context the framebuffer of the render target
    /// is deleted and the driver is asked for errors.
    pub open spec fn frame(commands: Seq<Command>, first: nat) -> Seq<Command> {
        let swapchain_fbo = first as usize;
        let rbo = (first + 1) as usize;
        let surface_tmp_fbo = (first + 2) as usize;
        let drawn = with_red(with_render_target(commands, first)).push(
            Command::MakeCurrent { context: RenderContext::Surface },
        );
        with_read_source(drawn, first + 2, rbo).push(
            Command::CheckFramebufferStatus { target: DRAW_FRAMEBUFFER },
        ).push(Command::BindFramebuffer { target: DRAW_FRAMEBUFFER, framebuffer: None }).push(
            copy(),
        ).push(Command::DeleteFramebuffer { framebuffer: surface_tmp_fbo }).push(
            Command::MakeCurrent { context: RenderContext::Root },
        ).push(Command::DeleteFramebuffer { framebuffer: swapchain_fbo }).push(Command::GetError)
    }
}

/// A frame that starts in the root context is sound in rehearsal and ends in
/// the root context. It binds three slots: the framebuffer of the root
/// context, the renderbuffer, and the framebuffer of the surface context; both
/// framebuffers are deleted again, each in its own context.
pub proof fn lemma_frame_is_sound(commands: Seq<Command>, start: Rehearsal, blocks: nat)
    requires
        rehearse(commands, start, blocks).objects.len() + 2 <= usize::MAX,
        rehearse(commands, start, blocks).current == RenderContext::Root,
    ensures
        rehearse(
            Framebuffers02::frame(commands, rehearse(commands, start, blocks).objects.len()),
            start,
            blocks,
        ) == ({
            let reached = rehearse(commands, start, blocks);
            let first = reached.objects.len() as int;
            Rehearsal {
                objects: reached.objects.push(
                    held(ObjectKind::Framebuffer, RenderContext::Root),
                ).push(held(ObjectKind::Renderbuffer, RenderContext::Root)).push(
                    held(ObjectKind::Framebuffer, RenderContext::Surface),
                ).update(first + 2, held(ObjectKind::Deleted, RenderContext::Surface)).update(
                    first,
                    held(ObjectKind::Deleted, RenderContext::Root),
                ),
                ..reached
            }
        }),
{
    let first = rehearse(commands, start, blocks).objects.len();
    let swapchain_fbo = first as usize;
    let rbo = (first + 1) as usize;
    let surface_tmp_fbo = (first + 2) as usize;
    let target = with_render_target(commands, first);
    lemma_render_target_is_sound(commands, start, blocks);
    let red = with_red(target);
    lemma_red_is_sound(target, start, blocks);
    let c0 = Command::MakeCurrent { context: RenderContext::Surface };
    lemma_rehearse_push(red, c0, start, blocks);
    let drawn = red.push(c0);
    let s0 = with_read_source(drawn, first + 2, rbo);
    lemma_read_source_is_sound(drawn, start, blocks, rbo);
    let c1 = Command::CheckFramebufferStatus { target: DRAW_FRAMEBUFFER };
    lemma_rehearse_push(s0, c1, start, blocks);
    let s1 = s0.push(c1);
    let c2 = Command::BindFramebuffer { target: DRAW_FRAMEBUFFER, framebuffer: None };
    lemma_rehearse_push(s1, c2, start, blocks);
    let s2 = s1.push(c2);
    let c3 = copy();
    lemma_rehearse_push(s2, c3, start, blocks);
    let s3 = s2.push(c3);
    let c4 = Command::DeleteFramebuffer { framebuffer: surface_tmp_fbo };
    lemma_rehearse_push(s3, c4, start, blocks);
    let s4 = s3.push(c4);
    let c5 = Command::MakeCurrent { context: RenderContext::Root };
    lemma_rehearse_push(s4, c5, start, blocks);
    let s5 = s4.push(c5);
    let c6 = Command::DeleteFramebuffer { framebuffer: swapchain_fbo };
    lemma_rehearse_push(s5, c6, start, blocks);
    let s6 = s5.push(c6);
    let c7 = Command::GetError;
    lemma_rehearse_push(s6, c7, start, blocks);
}

/// The setup is sound in rehearsal anywhere and leaves the root context
/// current, which is where a frame has to start.
pub proof fn lemma_setup_is_sound(commands: Seq<Command>, start: Rehearsal, blocks: nat)
    ensures
        rehearse(
            commands.push(Command::MakeCurrent { context: RenderContext::Root }),
            start,
            blocks,
        ) == (Rehearsal { current: RenderContext::Root, ..rehearse(commands, start, blocks) }),
{
    lemma_rehearse_push(
        commands,
        Command::MakeCurrent { context: RenderContext::Root },
        start,
        blocks,
    );
}

/// In a window the scene is sound in rehearsal from the first frame on. The
/// frame that `init` records is sound for any session and leaves the root
/// context current. A frame that `draw` records on a drained context is sound
/// for a session in which the root context is current and which holds as many
/// slots as the context has handed out; after it the root context is current
/// again and the session holds as many slots as the context has handed out
/// then: so the same holds of the frame after it.
pub proof fn lemma_scene_is_sound(
    scene: Framebuffers02,
    objects: Seq<ObjectKind>,
    setup: ContextView,
    then: Framebuffers02,
    frame: ContextView,
    session: Rehearsal,
)
    requires
        Framebuffers02::initialized(drained(objects), scene, setup),
        Framebuffers02::drawn(scene, drained(objects), then, frame),
        session.objects.len() == objects.len(),
        objects.len() + 2 <= usize::MAX,
    ensures
        rehearse(setup.commands, session, setup.data.len()) == (Rehearsal {
            current: RenderContext::Root,
            ..session
        }),
        session.current == RenderContext::Root ==> {
            &&& rehearse(frame.commands, session, frame.data.len()).sound == session.sound
            &&& rehearse(frame.commands, session, frame.data.len()).objects.len()
                == frame.objects.len()
            &&& rehearse(frame.commands, session, frame.data.len()).current == RenderContext::Root
        },
{
    let nothing = Seq::<Command>::empty();
    assert(rehearse(nothing, session, 0) == session);
    lemma_setup_is_sound(nothing, session, 0);
    if session.current == RenderContext::Root {
        lemma_frame_is_sound(nothing, session, 0);
    }
}

impl RenderHandler for Framebuffers02 {
    /// `init` makes the root context current.
    open spec fn initialized(before: ContextView, scene: Self, after: ContextView) -> bool {
        &&& after.commands == before.commands.push(
            Command::MakeCurrent { context: RenderContext::Root },
        )
        &&& after.data == before.data
        &&& after.objects == before.objects
    }

    /// `draw` takes three slots, two framebuffers with a renderbuffer between
    /// them, and records `frame`.
    open spec fn drawn(scene: Self, before: ContextView, then: Self, after: ContextView) -> bool {
        &&& then == scene
        &&& after.commands == Self::frame(before.commands, before.objects.len())
        &&& after.data == before.data
        &&& after.objects == before.objects.push(ObjectKind::Framebuffer).push(
            ObjectKind::Renderbuffer,
        ).push(ObjectKind::Framebuffer)
    }

    /// `exit` changes nothing.
    open spec fn exited(scene: Self, before: ContextView, then: Self, after: ContextView) -> bool {
        unchanged(scene, before, then, after)
    }

    /// Records that the root context is made current: the scene renders
    /// there.
    fn init(gl: &mut Context) -> (scene: Self) {
        gl.record(Command::MakeCurrent { context: RenderContext::Root });
        Framebuffers02 {  }
    }

    /// Records one frame. In the root context, which is current when the
    /// frame begins and when it ends, a framebuffer with a renderbuffer of
    /// 800 by 600 as its color attachment is checked for completeness and
    /// cleared to red. In the surface context a framebuffer of that context
    /// gets the same renderbuffer attached, is read from and copied to the
    /// window, and is deleted. Back in the root context the first framebuffer
    /// is deleted and the driver asked for errors.
    fn draw(&mut self, gl: &mut Context) {
        // This framebuffer plays the part of a swapchain image.
        let swapchain = render_target(gl);
        clear_to_red(gl);

        // The copy happens in the surface context. The framebuffer above
        // belongs to the root context, so the surface context gets one of its
        // own; the renderbuffer is shared and can be attached to it.
        gl.record(Command::MakeCurrent { context: RenderContext::Surface });
        let surface_tmp_fbo = read_source(gl, swapchain.renderbuffer);
        gl.record(Command::CheckFramebufferStatus { target: DRAW_FRAMEBUFFER });

        // In the surface context the default framebuffer is the window.
        gl.record(Command::BindFramebuffer { target: DRAW_FRAMEBUFFER, framebuffer: None });
        copy_to_window(gl);
        gl.record(Command::DeleteFramebuffer { framebuffer: surface_tmp_fbo });

        gl.record(Command::MakeCurrent { context: RenderContext::Root });
        gl.record(Command::DeleteFramebuffer { framebuffer: swapchain.framebuffer });
        gl.record(Command::GetError);
    }

    /// The scene holds nothing that has to be released: `exit` records
    /// nothing.
    fn exit(&mut self, _gl: &mut Context) {
    }
}

} // verus!
