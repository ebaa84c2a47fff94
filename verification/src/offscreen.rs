//! The steps that a scene takes to render into a renderbuffer off screen and
//! to copy the result to the window.

use crate::command::{Command, ObjectKind};
use crate::constants::{
    COLOR_ATTACHMENT0, COLOR_BUFFER_BIT, DRAW_FRAMEBUFFER, LINEAR, READ_FRAMEBUFFER, RENDERBUFFER,
    RGB,
};
use crate::context::Context;
use crate::rehearsal::{held, lemma_rehearse_push, rehearse, Rehearsal};
use vstd::prelude::*;

verus! {

/// Width of the renderbuffer and of the copied region, in pixels.
pub const WIDTH: i32 = 800;

/// Height of the renderbuffer and of the copied region, in pixels.
pub const HEIGHT: i32 = 600;

/// The slots of a framebuffer and of the renderbuffer that is its color
/// attachment.
#[derive(Copy, Clone, Debug, PartialEq, Eq, Structural)]
pub struct RenderTarget {
    pub framebuffer: usize,
    pub renderbuffer: usize,
}

/// `commands` followed by the setup of a render target, when `first` is the
/// next free slot: a framebuffer is created in `first` and bound as the one
/// that is drawn to, a renderbuffer of 800 by 600 pixels in RGB is created in
/// `first + 1` and attached to it as its color attachment, and the
/// framebuffer is checked for completeness.
pub open spec fn with_render_target(commands: Seq<Command>, first: nat) -> Seq<Command> {
    let fbo = first as usize;
    let rbo = (first + 1) as usize;
    commands.push(Command::CreateFramebuffer { slot: fbo }).push(
        Command::BindFramebuffer { target: DRAW_FRAMEBUFFER, framebuffer: Some(fbo) },
    ).push(Command::CreateRenderbuffer { slot: rbo }).push(
        Command::BindRenderbuffer { target: RENDERBUFFER, renderbuffer: Some(rbo) },
    ).push(
        Command::RenderbufferStorage {
            target: RENDERBUFFER,
            internal_format: RGB,
            width: 800,
            height: 600,
        },
    ).push(
        Command::FramebufferRenderbuffer {
            target: DRAW_FRAMEBUFFER,
            attachment: COLOR_ATTACHMENT0,
            renderbuffer_target: RENDERBUFFER,
            renderbuffer: Some(rbo),
        },
    ).push(Command::CheckFramebufferStatus { target: DRAW_FRAMEBUFFER })
}

/// Records the setup of a render target: a framebuffer that is drawn to, with
/// a renderbuffer of 800 by 600 pixels as its color attachment, and the check
/// that the framebuffer is complete.
pub fn render_target(gl: &mut Context) -> (target: RenderTarget)
    ensures
        target.framebuffer == old(gl)@.objects.len(),
        target.renderbuffer == old(gl)@.objects.len() + 1,
        final(gl)@.commands == with_render_target(old(gl)@.commands, old(gl)@.objects.len()),
        final(gl)@.data == old(gl)@.data,
        final(gl)@.objects == old(gl)@.objects.push(ObjectKind::Framebuffer).push(
            ObjectKind::Renderbuffer,
        ),
{
    let framebuffer = gl.create_framebuffer();
    gl.record(
        Command::BindFramebuffer { target: DRAW_FRAMEBUFFER, framebuffer: Some(framebuffer) },
    );
    let renderbuffer = gl.create_renderbuffer();
    gl.record(Command::BindRenderbuffer { target: RENDERBUFFER, renderbuffer: Some(renderbuffer) });
    gl.record(
        Command::RenderbufferStorage {
            target: RENDERBUFFER,
            internal_format: RGB,
            width: WIDTH,
            height: HEIGHT,
        },
    );
    gl.record(
        Command::FramebufferRenderbuffer {
            target: DRAW_FRAMEBUFFER,
            attachment: COLOR_ATTACHMENT0,
            renderbuffer_target: RENDERBUFFER,
            renderbuffer: Some(renderbuffer),
        },
    );
    gl.record(Command::CheckFramebufferStatus { target: DRAW_FRAMEBUFFER });
    RenderTarget { framebuffer, renderbuffer }
}

/// Setting a render target up is sound in rehearsal wherever it starts and
/// binds two slots in the current context: the framebuffer and the
/// renderbuffer.
pub proof fn lemma_render_target_is_sound(commands: Seq<Command>, start: Rehearsal, blocks: nat)
    requires
        rehearse(commands, start, blocks).objects.len() + 1 <= usize::MAX,
    ensures
        rehearse(
            with_render_target(commands, rehearse(commands, start, blocks).objects.len()),
            start,
            blocks,
        ) == ({
            let reached = rehearse(commands, start, blocks);
            Rehearsal {
                objects: reached.objects.push(held(ObjectKind::Framebuffer, reached.current)).push(
                    held(ObjectKind::Renderbuffer, reached.current),
                ),
                ..reached
            }
        }),
{
    let first = rehearse(commands, start, blocks).objects.len();
    let fbo = first as usize;
    let rbo = (first + 1) as usize;
    let s0 = commands;
    let c1 = Command::CreateFramebuffer { slot: fbo };
    lemma_rehearse_push(s0, c1, start, blocks);
    let s1 = s0.push(c1);
    let c2 = Command::BindFramebuffer { target: DRAW_FRAMEBUFFER, framebuffer: Some(fbo) };
    lemma_rehearse_push(s1, c2, start, blocks);
    let s2 = s1.push(c2);
    let c3 = Command::CreateRenderbuffer { slot: rbo };
    lemma_rehearse_push(s2, c3, start, blocks);
    let s3 = s2.push(c3);
    let c4 = Command::BindRenderbuffer { target: RENDERBUFFER, renderbuffer: Some(rbo) };
    lemma_rehearse_push(s3, c4, start, blocks);
    let s4 = s3.push(c4);
    let c5 = Command::RenderbufferStorage {
        target: RENDERBUFFER,
        internal_format: RGB,
        width: 800,
        height: 600,
    };
    lemma_rehearse_push(s4, c5, start, blocks);
    let s5 = s4.push(c5);
    let c6 = Command::FramebufferRenderbuffer {
        target: DRAW_FRAMEBUFFER,
        attachment: COLOR_ATTACHMENT0,
        renderbuffer_target: RENDERBUFFER,
        renderbuffer: Some(rbo),
    };
    lemma_rehearse_push(s5, c6, start, blocks);
    let s6 = s5.push(c6);
    let c7 = Command::CheckFramebufferStatus { target: DRAW_FRAMEBUFFER };
    lemma_rehearse_push(s6, c7, start, blocks);
}

/// `commands` followed by clearing what is drawn to to red.
pub open spec fn with_red(commands: Seq<Command>) -> Seq<Command> {
    commands.push(
        Command::ClearColor { red: 0x3F80_0000, green: 0, blue: 0, alpha: 0x3F80_0000 },
    ).push(Command::Clear { mask: COLOR_BUFFER_BIT })
}

/// Records the clearing of the framebuffer that is drawn to, to (1, 0, 0, 1).
pub fn clear_to_red(gl: &mut Context)
    ensures
        final(gl)@.commands == with_red(old(gl)@.commands),
        final(gl)@.data == old(gl)@.data,
        final(gl)@.objects == old(gl)@.objects,
{
    gl.record(Command::ClearColor { red: 0x3F80_0000, green: 0, blue: 0, alpha: 0x3F80_0000 });
    gl.record(Command::Clear { mask: COLOR_BUFFER_BIT });
}

/// Clearing to red is sound in rehearsal anywhere and binds nothing.
pub proof fn lemma_red_is_sound(commands: Seq<Command>, start: Rehearsal, blocks: nat)
    ensures
        rehearse(with_red(commands), start, blocks) == rehearse(commands, start, blocks),
{
    let c1 = Command::ClearColor { red: 0x3F80_0000, green: 0, blue: 0, alpha: 0x3F80_0000 };
    lemma_rehearse_push(commands, c1, start, blocks);
    let c2 = Command::Clear { mask: COLOR_BUFFER_BIT };
    lemma_rehearse_push(commands.push(c1), c2, start, blocks);
}

/// `commands` followed by the setup of a source to copy from, when `first` is
/// the next free slot: a framebuffer is created in `first` and bound as the
/// one that is read from, and `renderbuffer` is attached to it as its color
/// attachment.
pub open spec fn with_read_source(
    commands: Seq<Command>,
    first: nat,
    renderbuffer: usize,
) -> Seq<Command> {
    let fbo = first as usize;
    commands.push(Command::CreateFramebuffer { slot: fbo }).push(
        Command::BindFramebuffer { target: READ_FRAMEBUFFER, framebuffer: Some(fbo) },
    ).push(
        Command::FramebufferRenderbuffer {
            target: READ_FRAMEBUFFER,
            attachment: COLOR_ATTACHMENT0,
            renderbuffer_target: RENDERBUFFER,
            renderbuffer: Some(renderbuffer),
        },
    )
}

/// Records the setup of a source to copy from: a framebuffer of the current
/// context that is read from, with `renderbuffer` as its color attachment.
/// Returns the slot of the framebuffer.
pub fn read_source(gl: &mut Context, renderbuffer: usize) -> (framebuffer: usize)
    ensures
        framebuffer == old(gl)@.objects.len(),
        final(gl)@.commands == with_read_source(
            old(gl)@.commands,
            old(gl)@.objects.len(),
            renderbuffer,
        ),
        final(gl)@.data == old(gl)@.data,
        final(gl)@.objects == old(gl)@.objects.push(ObjectKind::Framebuffer),
{
    let framebuffer = gl.create_framebuffer();
    gl.record(
        Command::BindFramebuffer { target: READ_FRAMEBUFFER, framebuffer: Some(framebuffer) },
    );
    gl.record(
        Command::FramebufferRenderbuffer {
            target: READ_FRAMEBUFFER,
            attachment: COLOR_ATTACHMENT0,
            renderbuffer_target: RENDERBUFFER,
            renderbuffer: Some(renderbuffer),
        },
    );
    framebuffer
}

/// Setting a source to copy from up is sound in rehearsal wherever the
/// renderbuffer is bound, in whatever context it was created, and binds one
/// slot in the current context: the framebuffer.
pub proof fn lemma_read_source_is_sound(
    commands: Seq<Command>,
    start: Rehearsal,
    blocks: nat,
    renderbuffer: usize,
)
    requires
        rehearse(commands, start, blocks).objects.len() <= usize::MAX,
        renderbuffer < rehearse(commands, start, blocks).objects.len(),
        rehearse(commands, start, blocks).objects[renderbuffer as int].kind
            == ObjectKind::Renderbuffer,
    ensures
        rehearse(
            with_read_source(
                commands,
                rehearse(commands, start, blocks).objects.len(),
                renderbuffer,
            ),
            start,
            blocks,
        ) == ({
            let reached = rehearse(commands, start, blocks);
            Rehearsal {
                objects: reached.objects.push(held(ObjectKind::Framebuffer, reached.current)),
                ..reached
            }
        }),
{
    let first = rehearse(commands, start, blocks).objects.len();
    let fbo = first as usize;
    let s0 = commands;
    let c1 = Command::CreateFramebuffer { slot: fbo };
    lemma_rehearse_push(s0, c1, start, blocks);
    let s1 = s0.push(c1);
    let c2 = Command::BindFramebuffer { target: READ_FRAMEBUFFER, framebuffer: Some(fbo) };
    lemma_rehearse_push(s1, c2, start, blocks);
    let s2 = s1.push(c2);
    let c3 = Command::FramebufferRenderbuffer {
        target: READ_FRAMEBUFFER,
        attachment: COLOR_ATTACHMENT0,
        renderbuffer_target: RENDERBUFFER,
        renderbuffer: Some(renderbuffer),
    };
    lemma_rehearse_push(s2, c3, start, blocks);
}

/// The command that copies the color of 800 by 600 pixels from the
/// framebuffer that is read from to the one that is drawn to, with linear
/// filtering.
pub open spec fn copy() -> Command {
    Command::BlitFramebuffer {
        src_x0: 0,
        src_y0: 0,
        src_x1: 800,
        src_y1: 600,
        dst_x0: 0,
        dst_y0: 0,
        dst_x1: 800,
        dst_y1: 600,
        mask: COLOR_BUFFER_BIT,
        filter: LINEAR,
    }
}

/// Records the copy of the color of 800 by 600 pixels from the framebuffer
/// that is read from to the one that is drawn to.
pub fn copy_to_window(gl: &mut Context)
    ensures
        final(gl)@.commands == old(gl)@.commands.push(copy()),
        final(gl)@.data == old(gl)@.data,
        final(gl)@.objects == old(gl)@.objects,
{
    gl.record(
        Command::BlitFramebuffer {
            src_x0: 0,
            src_y0: 0,
            src_x1: WIDTH,
            src_y1: HEIGHT,
            dst_x0: 0,
            dst_y0: 0,
            dst_x1: WIDTH,
            dst_y1: HEIGHT,
            mask: COLOR_BUFFER_BIT,
            filter: LINEAR,
        },
    );
}

} // verus!
