//! A scene that draws a square from four vertices and six indices, with a
//! shader that is told how long the scene has been running.

use crate::bytes::{is_mem_image, values_u32, SliceAsBytes};
use crate::command::{Command, ObjectKind};
use crate::constants::{COLOR_BUFFER_BIT, F32_SIZE, TRIANGLES, UNSIGNED_INT};
use crate::context::{Context, ContextView};
use crate::handler::{unchanged, RenderHandler};
use crate::mesh::{
    describe_float_attribute, float_attribute, lemma_index_buffer_is_sound,
    lemma_vertex_buffer_is_sound, upload_indices, upload_vertices, with_index_buffer,
    with_vertex_buffer,
};
use crate::rehearsal::{fresh, held, lemma_rehearse_push, rehearse, Rehearsal};
use crate::window::drained;
use crate::shader::{
    build_program, delete_shaders, lemma_deleting_shaders_is_sound, lemma_program_is_sound,
    lemma_zeroed_uniform_is_sound, with_program, with_shaders_deleted, with_zeroed_uniform,
    zeroed_uniform,
};
use vstd::prelude::*;

verus! {

/// Path of the vertex shader source.
pub const VERTEX_SHADER_SRC: &'static str = "shaders_01/vertex.glsl";

/// Path of the fragment shader source.
pub const FRAGMENT_SHADER_SRC: &'static str = "shaders_01/fragment.glsl";

/// The four corners of the square, three floats each, as bit patterns:
/// bottom left (-0.5, -0.5, 0), bottom right (0.5, -0.5, 0), top right
/// (0.5, 0.5, 0), top left (-0.5, 0.5, 0).
pub open spec fn tri_vertices() -> Seq<u32> {
    seq![
        0xBF00_0000u32,
        0xBF00_0000u32,
        0u32,
        0x3F00_0000u32,
        0xBF00_0000u32,
        0u32,
        0x3F00_0000u32,
        0x3F00_0000u32,
        0u32,
        0xBF00_0000u32,
        0x3F00_0000u32,
        0u32,
    ]
}

/// The corners of the two triangles that make up the square.
pub open spec fn tri_vertice_indexes() -> Seq<u32> {
    seq![0u32, 1u32, 2u32, 0u32, 2u32, 3u32]
}

/// The corners of the square as data.
pub fn vertices() -> (data: Vec<u32>)
    ensures
        data@ == tri_vertices(),
{
    let data = vec![
        0xBF00_0000u32,
        0xBF00_0000u32,
        0u32,
        0x3F00_0000u32,
        0xBF00_0000u32,
        0u32,
        0x3F00_0000u32,
        0x3F00_0000u32,
        0u32,
        0xBF00_0000u32,
        0x3F00_0000u32,
        0u32,
    ];
    assert(data@ =~= tri_vertices());
    data
}

/// The indices of the two triangles as data.
pub fn vertice_indexes() -> (data: Vec<u32>)
    ensures
        data@ == tri_vertice_indexes(),
{
    let data = vec![0u32, 1u32, 2u32, 0u32, 2u32, 3u32];
    assert(data@ =~= tri_vertice_indexes());
    data
}

pub struct Shaders01 {
    /// A compiled and linked shader program: the vertex shader and the
    /// fragment shader combined.
    pub shader_program: usize,
    /// Vertex array object: the vertex attribute configuration of the square.
    pub vao: usize,
    /// Location of the uniform that holds the running time.
    pub time_uniform: usize,
    /// Timer started when the scene was set up.
    pub start_time: usize,
}

impl Shaders01 {
    /// `commands` followed by what `init` records when `first` is the next
    /// free slot and `data` the number of the next data block: the program is
    /// built in the slots from `first` on, the uniform `time` is looked up
    /// into `first + 3` and set to zero, the shaders are deleted, the
    /// vertices are uploaded to the vertex array in `first + 4` and the buffer
    /// in `first + 5`, the indices to the buffer in `first + 6`, attribute 0
    /// is laid out as three floats, tightly packed, and enabled, and the
    /// timer is started in `first + 7`.
    pub open spec fn setup(commands: Seq<Command>, first: nat, data: nat) -> Seq<Command> {
        let linked = with_program(commands, first, VERTEX_SHADER_SRC, FRAGMENT_SHADER_SRC);
        let timed = with_zeroed_uniform(linked, (first + 2) as usize, (first + 3) as usize, "time");
        let cleaned = with_shaders_deleted(timed, first as usize, (first + 1) as usize);
        let uploaded = with_index_buffer(
            with_vertex_buffer(cleaned, first + 4, data),
            first + 6,
            data + 1,
        );
        uploaded.push(float_attribute(0, 3, 12, 0)).push(
            Command::EnableVertexAttribArray { index: 0 },
        ).push(Command::StartTimer { slot: (first + 7) as usize })
    }

    /// The kinds of the eight slots that `init` takes, after `objects`.
    pub open spec fn setup_objects(objects: Seq<ObjectKind>) -> Seq<ObjectKind> {
        objects.push(ObjectKind::Shader).push(ObjectKind::Shader).push(ObjectKind::Program).push(
            ObjectKind::UniformLocation,
        ).push(ObjectKind::VertexArray).push(ObjectKind::Buffer).push(ObjectKind::Buffer).push(
            ObjectKind::Timer,
        )
    }

    /// `commands` followed by what `draw` records for the given scene.
    pub open spec fn frame(commands: Seq<Command>, scene: Shaders01) -> Seq<Command> {
        commands.push(
            Command::ClearColor {
                red: 0,
                green: 0x3E4C_CCCD,
                blue: 0x3E4C_CCCD,
                alpha: 0x3F80_0000,
            },
        ).push(Command::Clear { mask: COLOR_BUFFER_BIT }).push(
            Command::UseProgram { program: Some(scene.shader_program) },
        ).push(
            Command::Uniform1Elapsed { location: scene.time_uniform, timer: scene.start_time },
        ).push(Command::BindVertexArray { vertex_array: Some(scene.vao) }).push(
            Command::DrawElements {
                mode: TRIANGLES,
                count: 6,
                element_type: UNSIGNED_INT,
                offset: 0,
            },
        )
    }
}

/// The setup is sound in rehearsal wherever it starts, as long as the frame
/// has the two data blocks that the vertices and the indices go to. It leaves
/// eight slots bound: two shaders, the program and the location of the
/// uniform, of which the shaders are deleted again, the vertex array, two
/// buffers and the timer.
pub proof fn lemma_setup_is_sound(commands: Seq<Command>, start: Rehearsal, blocks: nat, data: nat)
    requires
        rehearse(commands, start, blocks).objects.len() + 7 <= usize::MAX,
        data + 1 < blocks,
        data + 1 <= usize::MAX,
    ensures
        rehearse(
            Shaders01::setup(commands, rehearse(commands, start, blocks).objects.len(), data),
            start,
            blocks,
        ) == ({
            let reached = rehearse(commands, start, blocks);
            let first = reached.objects.len() as int;
            let context = reached.current;
            Rehearsal {
                objects: reached.objects.push(held(ObjectKind::Shader, context)).push(
                    held(ObjectKind::Shader, context),
                ).push(held(ObjectKind::Program, context)).push(
                    held(ObjectKind::UniformLocation, context),
                ).update(first, held(ObjectKind::Deleted, context)).update(
                    first + 1,
                    held(ObjectKind::Deleted, context),
                ).push(held(ObjectKind::VertexArray, context)).push(
                    held(ObjectKind::Buffer, context),
                ).push(held(ObjectKind::Buffer, context)).push(held(ObjectKind::Timer, context)),
                ..reached
            }
        }),
{
    let first = rehearse(commands, start, blocks).objects.len();
    let linked = with_program(commands, first, VERTEX_SHADER_SRC, FRAGMENT_SHADER_SRC);
    lemma_program_is_sound(commands, start, blocks, VERTEX_SHADER_SRC, FRAGMENT_SHADER_SRC);
    let timed = with_zeroed_uniform(linked, (first + 2) as usize, (first + 3) as usize, "time");
    lemma_zeroed_uniform_is_sound(linked, start, blocks, (first + 2) as usize, "time");
    let cleaned = with_shaders_deleted(timed, first as usize, (first + 1) as usize);
    lemma_deleting_shaders_is_sound(timed, start, blocks, first as usize, (first + 1) as usize);
    let vertices = with_vertex_buffer(cleaned, first + 4, data);
    lemma_vertex_buffer_is_sound(cleaned, start, blocks, data);
    let uploaded = with_index_buffer(vertices, first + 6, data + 1);
    lemma_index_buffer_is_sound(vertices, start, blocks, data + 1);
    let c1 = float_attribute(0, 3, 12, 0);
    lemma_rehearse_push(uploaded, c1, start, blocks);
    let s1 = uploaded.push(c1);
    let c2 = Command::EnableVertexAttribArray { index: 0 };
    lemma_rehearse_push(s1, c2, start, blocks);
    let s2 = s1.push(c2);
    lemma_rehearse_push(s2, Command::StartTimer { slot: (first + 7) as usize }, start, blocks);
}

/// A frame is sound in rehearsal wherever the program, the location of the
/// uniform, the vertex array and the timer of the scene are bound, and binds
/// nothing.
pub proof fn lemma_frame_is_sound(
    commands: Seq<Command>,
    start: Rehearsal,
    blocks: nat,
    scene: Shaders01,
)
    requires
        ({
            let objects = rehearse(commands, start, blocks).objects;
            &&& scene.shader_program < objects.len()
            &&& objects[scene.shader_program as int].kind == ObjectKind::Program
            &&& scene.time_uniform < objects.len()
            &&& objects[scene.time_uniform as int].kind == ObjectKind::UniformLocation
            &&& scene.vao < objects.len()
            &&& objects[scene.vao as int].kind == ObjectKind::VertexArray
            &&& scene.start_time < objects.len()
            &&& objects[scene.start_time as int].kind == ObjectKind::Timer
        }),
    ensures
        rehearse(Shaders01::frame(commands, scene), start, blocks) == rehearse(
            commands,
            start,
            blocks,
        ),
{
    let s0 = commands;
    let c1 = Command::ClearColor {
        red: 0,
        green: 0x3E4C_CCCD,
        blue: 0x3E4C_CCCD,
        alpha: 0x3F80_0000,
    };
    lemma_rehearse_push(s0, c1, start, blocks);
    let s1 = s0.push(c1);
    let c2 = Command::Clear { mask: COLOR_BUFFER_BIT };
    lemma_rehearse_push(s1, c2, start, blocks);
    let s2 = s1.push(c2);
    let c3 = Command::UseProgram { program: Some(scene.shader_program) };
    lemma_rehearse_push(s2, c3, start, blocks);
    let s3 = s2.push(c3);
    let c4 = Command::Uniform1Elapsed { location: scene.time_uniform, timer: scene.start_time };
    lemma_rehearse_push(s3, c4, start, blocks);
    let s4 = s3.push(c4);
    let c5 = Command::BindVertexArray { vertex_array: Some(scene.vao) };
    lemma_rehearse_push(s4, c5, start, blocks);
    let s5 = s4.push(c5);
    let c6 = Command::DrawElements {
        mode: TRIANGLES,
        count: 6,
        element_type: UNSIGNED_INT,
        offset: 0,
    };
    lemma_rehearse_push(s5, c6, start, blocks);
}

/// In a window the scene is sound in rehearsal from the first frame on. The
/// frame that `init` records on the fresh context of a window is sound for a
/// session that has nothing bound. A frame that `draw` records after that is
/// sound for the session as the setup has left it, leaves the session as it
/// is, and leaves the scene as it is: so the same holds of the frame after
/// it.
pub proof fn lemma_scene_is_sound(
    scene: Shaders01,
    setup: ContextView,
    then: Shaders01,
    frame: ContextView,
)
    requires
        Shaders01::initialized(drained(Seq::empty()), scene, setup),
        Shaders01::drawn(scene, drained(setup.objects), then, frame),
    ensures
        rehearse(setup.commands, fresh(), setup.data.len()).sound,
        rehearse(
            frame.commands,
            rehearse(setup.commands, fresh(), setup.data.len()),
            frame.data.len(),
        ) == rehearse(setup.commands, fresh(), setup.data.len()),
        then == scene,
        frame.objects == setup.objects,
{
    let fresh = fresh();
    let nothing = Seq::<Command>::empty();
    assert(rehearse(nothing, fresh, 2) == fresh);
    lemma_setup_is_sound(nothing, fresh, 2, 0);
    let ready = rehearse(setup.commands, fresh, 2);
    assert(rehearse(nothing, ready, 0) == ready);
    lemma_frame_is_sound(nothing, ready, 0, scene);
}

/// The square has four vertices of 3 floats each and six indices, none of
/// which points past the four vertices. Whatever was recorded before, a frame
/// ends with one indexed draw of exactly these six indices, read as unsigned
/// 32-bit integers.
pub proof fn lemma_frame_draws_the_six_indices(commands: Seq<Command>, scene: Shaders01)
    ensures
        tri_vertices().len() == 4 * 3,
        tri_vertice_indexes().len() == 6,
        forall|i: int| 0 <= i < 6 ==> tri_vertice_indexes()[i] < 4,
        Shaders01::frame(commands, scene).last() == (Command::DrawElements {
            mode: TRIANGLES,
            count: 6,
            element_type: UNSIGNED_INT,
            offset: 0,
        }),
{
}

impl RenderHandler for Shaders01 {
    /// What `init` does: the slots it takes, the commands it records and
    /// the two data blocks it adds, the memory images of the vertices and of
    /// the indices.
    open spec fn initialized(before: ContextView, scene: Self, after: ContextView) -> bool {
        &&& scene.shader_program == before.objects.len() + 2
        &&& scene.time_uniform == before.objects.len() + 3
        &&& scene.vao == before.objects.len() + 4
        &&& scene.start_time == before.objects.len() + 7
        &&& after.commands == Self::setup(
            before.commands,
            before.objects.len(),
            before.data.len(),
        )
        &&& after.objects == Self::setup_objects(before.objects)
        &&& after.data.len() == before.data.len() + 2
        &&& after.data.take(before.data.len() as int) == before.data
        &&& is_mem_image(
            after.data[before.data.len() as int]@,
            values_u32(tri_vertices()),
            4,
        )
        &&& is_mem_image(
            after.data[before.data.len() as int + 1]@,
            values_u32(tri_vertice_indexes()),
            4,
        )
    }

    /// `draw` leaves the scene as it is and records `frame`.
    open spec fn drawn(scene: Self, before: ContextView, then: Self, after: ContextView) -> bool {
        &&& then == scene
        &&& after.commands == Self::frame(before.commands, scene)
        &&& after.data == before.data
        &&& after.objects == before.objects
    }

    /// `exit` changes nothing.
    open spec fn exited(scene: Self, before: ContextView, then: Self, after: ContextView) -> bool {
        unchanged(scene, before, then, after)
    }

    /// Records the build of the shader program, the lookup of the `time`
    /// uniform, which is set to zero, the upload of the four vertices and the
    /// six indices, and the start of the scene's timer.
    fn init(gl: &mut Context) -> (scene: Self) {
        let linked = build_program(gl, VERTEX_SHADER_SRC, FRAGMENT_SHADER_SRC);

        // The running time starts at zero.
        let time_uniform = zeroed_uniform(gl, linked.shader_program, "time");
        delete_shaders(gl, linked);

        let vao = upload_vertices(gl, vertices().as_mem_bytes());
        upload_indices(gl, vertice_indexes().as_mem_bytes());

        // Attribute 0 is the position: three floats, tightly packed.
        describe_float_attribute(gl, 0, 3, 3 * F32_SIZE, 0);
        gl.record(Command::EnableVertexAttribArray { index: 0 });

        let start_time = gl.start_timer();
        proof {
            assert(final(gl)@.data.take(old(gl)@.data.len() as int) =~= old(gl)@.data);
        }
        Shaders01 { shader_program: linked.shader_program, vao, time_uniform, start_time }
    }

    /// Records one frame: clear to (0, 0.2, 0.2, 1), tell the shader the
    /// running time, and draw the six indices as two triangles.
    fn draw(&mut self, gl: &mut Context) {
        gl.record(
            Command::ClearColor {
                red: 0,
                green: 0x3E4C_CCCD,
                blue: 0x3E4C_CCCD,
                alpha: 0x3F80_0000,
            },
        );
        gl.record(Command::Clear { mask: COLOR_BUFFER_BIT });
        gl.record(Command::UseProgram { program: Some(self.shader_program) });
        gl.record(Command::Uniform1Elapsed { location: self.time_uniform, timer: self.start_time });
        gl.record(Command::BindVertexArray { vertex_array: Some(self.vao) });
        gl.record(
            Command::DrawElements {
                mode: TRIANGLES,
                count: 6,
                element_type: UNSIGNED_INT,
                offset: 0,
            },
        );
    }

    /// The scene holds nothing that has to be released: `exit` records
    /// nothing.
    fn exit(&mut self, _gl: &mut Context) {
    }
}

} // verus!
