//! A scene that draws one triangle in a single color.

use crate::bytes::{is_mem_image, values_u32, SliceAsBytes};
use crate::command::{Command, ObjectKind};
use crate::constants::{COLOR_BUFFER_BIT, F32_SIZE, TRIANGLES};
use crate::context::{Context, ContextView};
use crate::handler::{unchanged, RenderHandler};
use crate::mesh::{
    describe_float_attribute, float_attribute, lemma_vertex_buffer_is_sound, upload_vertices,
    with_vertex_buffer,
};
use crate::rehearsal::{fresh, held, lemma_rehearse_push, rehearse, Rehearsal};
use crate::window::drained;
use crate::shader::{
    build_program, delete_shaders, lemma_deleting_shaders_is_sound, lemma_program_is_sound,
    with_program, with_shaders_deleted,
};
use vstd::prelude::*;

verus! {

/// Path of the vertex shader source.
pub const VERTEX_SHADER_SRC: &'static str = "hello_triangle/vertex.glsl";

/// Path of the fragment shader source.
pub const FRAGMENT_SHADER_SRC: &'static str = "hello_triangle/fragment.glsl";

/// The three corners of the triangle, three floats each, as bit patterns:
/// (-0.5, -0.5, 0), (0.5, -0.5, 0), (0, 0.5, 0).
pub open spec fn tri_vertices() -> Seq<u32> {
    seq![
        0xBF00_0000u32,
        0xBF00_0000u32,
        0u32,
        0x3F00_0000u32,
        0xBF00_0000u32,
        0u32,
        0u32,
        0x3F00_0000u32,
        0u32,
    ]
}

/// The corners of the triangle as data.
pub fn vertices() -> (data: Vec<u32>)
    ensures
        data@ == tri_vertices(),
{
    let data = vec![
        0xBF00_0000u32,
        0xBF00_0000u32,
        0u32,
        0x3F00_0000u32,
        0xBF00_0000u32,
        0u32,
        0u32,
        0x3F00_0000u32,
        0u32,
    ];
    assert(data@ =~= tri_vertices());
    data
}

pub struct HelloTriangle {
    /// A compiled and linked shader program: the vertex shader and the
    /// fragment shader combined.
    pub shader_program: usize,
    /// Vertex array object: the vertex attribute configuration of the
    /// triangle.
    pub vao: usize,
}

impl HelloTriangle {
    /// `commands` followed by what `init` records when `first` is the next
    /// free slot and `data` the number of the next data block: the program is
    /// built in the slots from `first` on and its shaders are deleted, the
    /// vertices are uploaded to the vertex array in `first + 3` and the buffer
    /// in `first + 4`, and attribute 0 is laid out as three floats, tightly
    /// packed, and enabled.
    pub open spec fn setup(commands: Seq<Command>, first: nat, data: nat) -> Seq<Command> {
        let linked = with_program(commands, first, VERTEX_SHADER_SRC, FRAGMENT_SHADER_SRC);
        let cleaned = with_shaders_deleted(linked, first as usize, (first + 1) as usize);
        let uploaded = with_vertex_buffer(cleaned, first + 3, data);
        uploaded.push(float_attribute(0, 3, 12, 0)).push(
            Command::EnableVertexAttribArray { index: 0 },
        )
    }

    /// `commands` followed by what `draw` records for a scene with the given
    /// program and vertex array.
    pub open spec fn frame(
        commands: Seq<Command>,
        shader_program: usize,
        vao: usize,
    ) -> Seq<Command> {
        commands.push(
            Command::ClearColor {
                red: 0,
                green: 0x3F4C_CCCD,
                blue: 0x3F4C_CCCD,
                alpha: 0x3F80_0000,
            },
        ).push(Command::Clear { mask: COLOR_BUFFER_BIT }).push(
            Command::UseProgram { program: Some(shader_program) },
        ).push(Command::BindVertexArray { vertex_array: Some(vao) }).push(
            Command::DrawArrays { mode: TRIANGLES, first: 0, count: 3 },
        )
    }
}

/// The setup is sound in rehearsal wherever it starts, as long as the frame
/// has the data block that the vertices go to. It leaves five slots bound:
/// two shaders and the program, of which the shaders are deleted again, the
/// vertex array and the vertex buffer.
pub proof fn lemma_setup_is_sound(commands: Seq<Command>, start: Rehearsal, blocks: nat, data: nat)
    requires
        rehearse(commands, start, blocks).objects.len() + 4 <= usize::MAX,
        data < blocks,
        data <= usize::MAX,
    ensures
        rehearse(
            HelloTriangle::setup(commands, rehearse(commands, start, blocks).objects.len(), data),
            start,
            blocks,
        ) == ({
            let reached = rehearse(commands, start, blocks);
            let first = reached.objects.len() as int;
            let context = reached.current;
            Rehearsal {
                objects: reached.objects.push(held(ObjectKind::Shader, context)).push(
                    held(ObjectKind::Shader, context),
                ).push(held(ObjectKind::Program, context)).update(
                    first,
                    held(ObjectKind::Deleted, context),
                ).update(first + 1, held(ObjectKind::Deleted, context)).push(
                    held(ObjectKind::VertexArray, context),
                ).push(held(ObjectKind::Buffer, context)),
                ..reached
            }
        }),
{
    let first = rehearse(commands, start, blocks).objects.len();
    let linked = with_program(commands, first, VERTEX_SHADER_SRC, FRAGMENT_SHADER_SRC);
    lemma_program_is_sound(commands, start, blocks, VERTEX_SHADER_SRC, FRAGMENT_SHADER_SRC);
    let cleaned = with_shaders_deleted(linked, first as usize, (first + 1) as usize);
    lemma_deleting_shaders_is_sound(linked, start, blocks, first as usize, (first + 1) as usize);
    let uploaded = with_vertex_buffer(cleaned, first + 3, data);
    lemma_vertex_buffer_is_sound(cleaned, start, blocks, data);
    lemma_rehearse_push(uploaded, float_attribute(0, 3, 12, 0), start, blocks);
    lemma_rehearse_push(
        uploaded.push(float_attribute(0, 3, 12, 0)),
        Command::EnableVertexAttribArray { index: 0 },
        start,
        blocks,
    );
}

/// A frame is sound in rehearsal wherever the program and the vertex array
/// of the scene are bound, and binds nothing.
pub proof fn lemma_frame_is_sound(
    commands: Seq<Command>,
    start: Rehearsal,
    blocks: nat,
    scene: HelloTriangle,
)
    requires
        scene.shader_program < rehearse(commands, start, blocks).objects.len(),
        rehearse(commands, start, blocks).objects[scene.shader_program as int].kind
            == ObjectKind::Program,
        scene.vao < rehearse(commands, start, blocks).objects.len(),
        rehearse(commands, start, blocks).objects[scene.vao as int].kind == ObjectKind::VertexArray,
    ensures
        rehearse(HelloTriangle::frame(commands, scene.shader_program, scene.vao), start, blocks)
            == rehearse(commands, start, blocks),
{
    let s0 = commands;
    let c1 = Command::ClearColor {
        red: 0,
        green: 0x3F4C_CCCD,
        blue: 0x3F4C_CCCD,
        alpha: 0x3F80_0000,
    };
    lemma_rehearse_push(s0, c1, start, blocks);
    let s1 = s0.push(c1);
    let c2 = Command::Clear { mask: COLOR_BUFFER_BIT };
    lemma_rehearse_push(s1, c2, start, blocks);
    let s2 = s1.push(c2);
    let c3 = Command::UseProgram { program: Some(scene.shader_program) };
    lemma_rehearse_push(s2, c3, start, blocks);
    let s3 = s2.push(c3);
    let c4 = Command::BindVertexArray { vertex_array: Some(scene.vao) };
    lemma_rehearse_push(s3, c4, start, blocks);
    let s4 = s3.push(c4);
    let c5 = Command::DrawArrays { mode: TRIANGLES, first: 0, count: 3 };
    lemma_rehearse_push(s4, c5, start, blocks);
}

/// In a window the scene is sound in rehearsal from the first frame on. The
/// frame that `init` records on the fresh context of a window is sound for a
/// session that has nothing bound. A frame that `draw` records after that is
/// sound for the session as the setup has left it, leaves the session as it
/// is, and leaves the scene as it is: so the same holds of the frame after
/// it.
pub proof fn lemma_scene_is_sound(
    scene: HelloTriangle,
    setup: ContextView,
    then: HelloTriangle,
    frame: ContextView,
)
    requires
        HelloTriangle::initialized(drained(Seq::empty()), scene, setup),
        HelloTriangle::drawn(scene, drained(setup.objects), then, frame),
    ensures
        rehearse(setup.commands, fresh(), setup.data.len()).sound,
        rehearse(
            frame.commands,
            rehearse(setup.commands, fresh(), setup.data.len()),
            frame.data.len(),
        ) == rehearse(setup.commands, fresh(), setup.data.len()),
        then == scene,
        frame.objects == setup.objects,
{
    let fresh = fresh();
    let nothing = Seq::<Command>::empty();
    assert(rehearse(nothing, fresh, 1) == fresh);
    lemma_setup_is_sound(nothing, fresh, 1, 0);
    let ready = rehearse(setup.commands, fresh, 1);
    assert(rehearse(nothing, ready, 0) == ready);
    lemma_frame_is_sound(nothing, ready, 0, scene);
}

impl RenderHandler for HelloTriangle {
    /// `init` takes five slots: two shaders, the program, the vertex array
    /// and the vertex buffer. It records `setup` and adds one data block, the
    /// memory image of the three vertices.
    open spec fn initialized(before: ContextView, scene: Self, after: ContextView) -> bool {
        &&& scene.shader_program == before.objects.len() + 2
        &&& scene.vao == before.objects.len() + 3
        &&& after.commands == Self::setup(before.commands, before.objects.len(), before.data.len())
        &&& after.objects == before.objects.push(ObjectKind::Shader).push(ObjectKind::Shader).push(
            ObjectKind::Program,
        ).push(ObjectKind::VertexArray).push(ObjectKind::Buffer)
        &&& after.data.len() == before.data.len() + 1
        &&& after.data.drop_last() == before.data
        &&& is_mem_image(after.data.last()@, values_u32(tri_vertices()), 4)
    }

    /// `draw` leaves the scene as it is and records `frame`.
    open spec fn drawn(scene: Self, before: ContextView, then: Self, after: ContextView) -> bool {
        &&& then == scene
        &&& after.commands == Self::frame(before.commands, scene.shader_program, scene.vao)
        &&& after.data == before.data
        &&& after.objects == before.objects
    }

    /// `exit` changes nothing.
    open spec fn exited(scene: Self, before: ContextView, then: Self, after: ContextView) -> bool {
        unchanged(scene, before, then, after)
    }

    /// Records the build of the shader program and the upload of the three
    /// vertices with one attribute of three floats.
    fn init(gl: &mut Context) -> (scene: Self) {
        let linked = build_program(gl, VERTEX_SHADER_SRC, FRAGMENT_SHADER_SRC);
        delete_shaders(gl, linked);

        let vao = upload_vertices(gl, vertices().as_mem_bytes());

        // Attribute 0 is the position: three floats, tightly packed.
        describe_float_attribute(gl, 0, 3, 3 * F32_SIZE, 0);
        gl.record(Command::EnableVertexAttribArray { index: 0 });

        proof {
            assert(final(gl)@.data.drop_last() =~= old(gl)@.data);
        }
        HelloTriangle { shader_program: linked.shader_program, vao }
    }

    /// Records one frame: clear to (0, 0.8, 0.8, 1) and draw the three
    /// vertices as one triangle.
    fn draw(&mut self, gl: &mut Context) {
        gl.record(
            Command::ClearColor {
                red: 0,
                green: 0x3F4C_CCCD,
                blue: 0x3F4C_CCCD,
                alpha: 0x3F80_0000,
            },
        );
        gl.record(Command::Clear { mask: COLOR_BUFFER_BIT });
        gl.record(Command::UseProgram { program: Some(self.shader_program) });
        gl.record(Command::BindVertexArray { vertex_array: Some(self.vao) });
        gl.record(Command::DrawArrays { mode: TRIANGLES, first: 0, count: 3 });
    }

    /// The scene holds nothing that has to be released: `exit` records
    /// nothing.
    fn exit(&mut self, _gl: &mut Context) {
    }
}

} // verus!
