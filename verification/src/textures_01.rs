//! A scene that draws a square with a color at each corner and two images
//! laid over it.

use crate::bytes::{is_mem_image, values_u32, SliceAsBytes};
use crate::command::{Command, ObjectKind};
use crate::constants::{
    COLOR_BUFFER_BIT, F32_SIZE, LINEAR, REPEAT, TEXTURE0, TEXTURE1, TEXTURE_2D,
    TEXTURE_MAG_FILTER, TEXTURE_MIN_FILTER, TEXTURE_WRAP_S, TEXTURE_WRAP_T, TRIANGLES,
    UNSIGNED_BYTE, UNSIGNED_INT,
};
use crate::context::{Context, ContextView};
use crate::handler::{unchanged, RenderHandler};
use crate::mesh::{
    describe_float_attribute, float_attribute, lemma_index_buffer_is_sound,
    lemma_vertex_buffer_is_sound, upload_indices, upload_vertices, with_index_buffer,
    with_vertex_buffer,
};
use crate::rehearsal::{fresh, held, lemma_rehearse_push, rehearse, Rehearsal};
use crate::window::drained;
use crate::shader::{
    build_program, delete_shaders, lemma_deleting_shaders_is_sound, lemma_program_is_sound,
    lemma_zeroed_uniform_is_sound, with_program, with_shaders_deleted, with_zeroed_uniform,
    zeroed_uniform,
};
use vstd::prelude::*;

verus! {

/// Path of the vertex shader source.
pub const VERTEX_SHADER_SRC: &'static str = "textures_01/vertex.glsl";

/// Path of the fragment shader source.
pub const FRAGMENT_SHADER_SRC: &'static str = "textures_01/fragment.glsl";

/// Path of the image bound to texture unit zero.
pub const FIRST_IMAGE: &'static str = "./assets/awesomeface.png";

/// Path of the image bound to texture unit one.
pub const SECOND_IMAGE: &'static str = "./assets/wall.jpg";

/// The four corners of the square as bit patterns of floats. Every corner has
/// nine floats: a position (3), a color (4) and a texture coordinate (2).
///
/// | corner       | position        | color              | texture |
/// |--------------|-----------------|--------------------|---------|
/// | bottom left  | -0.5, -0.5, 0   | 1, 0, 0, 1         | 0, 0    |
/// | bottom right | 0.5, -0.5, 0    | 0, 1, 0, 1         | 0, 1    |
/// | top right    | 0.5, 0.5, 0     | 0, 0, 1, 1         | 1, 1    |
/// | top left     | -0.5, 0.5, 0    | 0.5, 0.5, 0.5, 1   | 1, 0    |
pub open spec fn tri_vertices() -> Seq<u32> {
    seq![
        0xBF00_0000u32, 0xBF00_0000u32, 0u32,
        0x3F80_0000u32, 0u32, 0u32, 0x3F80_0000u32,
        0u32, 0u32,
        0x3F00_0000u32, 0xBF00_0000u32, 0u32,
        0u32, 0x3F80_0000u32, 0u32, 0x3F80_0000u32,
        0u32, 0x3F80_0000u32,
        0x3F00_0000u32, 0x3F00_0000u32, 0u32,
        0u32, 0u32, 0x3F80_0000u32, 0x3F80_0000u32,
        0x3F80_0000u32, 0x3F80_0000u32,
        0xBF00_0000u32, 0x3F00_0000u32, 0u32,
        0x3F00_0000u32, 0x3F00_0000u32, 0x3F00_0000u32, 0x3F80_0000u32,
        0x3F80_0000u32, 0u32,
    ]
}

/// The corners of the two triangles that make up the square.
pub open spec fn tri_vertice_indexes() -> Seq<u32> {
    seq![0u32, 1u32, 2u32, 0u32, 2u32, 3u32]
}

/// The corners of the square as data.
pub fn vertices() -> (data: Vec<u32>)
    ensures
        data@ == tri_vertices(),
{
    let data = vec![
        0xBF00_0000u32, 0xBF00_0000u32, 0u32,
        0x3F80_0000u32, 0u32, 0u32, 0x3F80_0000u32,
        0u32, 0u32,
        0x3F00_0000u32, 0xBF00_0000u32, 0u32,
        0u32, 0x3F80_0000u32, 0u32, 0x3F80_0000u32,
        0u32, 0x3F80_0000u32,
        0x3F00_0000u32, 0x3F00_0000u32, 0u32,
        0u32, 0u32, 0x3F80_0000u32, 0x3F80_0000u32,
        0x3F80_0000u32, 0x3F80_0000u32,
        0xBF00_0000u32, 0x3F00_0000u32, 0u32,
        0x3F00_0000u32, 0x3F00_0000u32, 0x3F00_0000u32, 0x3F80_0000u32,
        0x3F80_0000u32, 0u32,
    ];
    assert(data@ =~= tri_vertices());
    data
}

/// The indices of the two triangles as data.
pub fn vertice_indexes() -> (data: Vec<u32>)
    ensures
        data@ == tri_vertice_indexes(),
{
    let data = vec![0u32, 1u32, 2u32, 0u32, 2u32, 3u32];
    assert(data@ =~= tri_vertice_indexes());
    data
}

/// `commands` followed by what `load_and_bind_texture` records when `first`
/// is the next free slot: the image goes to slot `first`, the texture to slot
/// `first + 1`.
pub open spec fn with_texture(
    commands: Seq<Command>,
    first: nat,
    unit: u32,
    path: &'static str,
) -> Seq<Command> {
    let image = first as usize;
    let texture = (first + 1) as usize;
    commands.push(Command::ActiveTexture { unit }).push(
        Command::LoadImage { slot: image, path },
    ).push(Command::CreateTexture { slot: texture }).push(Command::BindTexture { target: TEXTURE_2D, texture: Some(texture) }).push(
        Command::TexParameterI32 { target: TEXTURE_2D, parameter: TEXTURE_WRAP_S, value: 0x2901 },
    ).push(
        Command::TexParameterI32 { target: TEXTURE_2D, parameter: TEXTURE_WRAP_T, value: 0x2901 },
    ).push(
        Command::TexParameterI32 {
            target: TEXTURE_2D,
            parameter: TEXTURE_MIN_FILTER,
            value: 0x2601,
        },
    ).push(
        Command::TexParameterI32 {
            target: TEXTURE_2D,
            parameter: TEXTURE_MAG_FILTER,
            value: 0x2601,
        },
    ).push(
        Command::TexImage2D {
            target: TEXTURE_2D,
            level: 0,
            image,
            border: 0,
            ty: UNSIGNED_BYTE,
        },
    ).push(Command::GenerateMipmap { target: TEXTURE_2D })
}

/// Records the load of the image file at `path` into a new two-dimensional
/// texture on texture unit `unit`, with repeat wrapping, linear filtering and
/// mipmaps, and returns the slot of the texture. When the frame is carried
/// out, an image that is neither RGB nor RGBA with eight bits per channel
/// ends the session with `Failure::UnsupportedImageFormat`.
pub fn load_and_bind_texture(gl: &mut Context, unit: u32, path: &'static str) -> (texture: usize)
    ensures
        texture == old(gl)@.objects.len() + 1,
        final(gl)@.commands == with_texture(old(gl)@.commands, old(gl)@.objects.len(), unit, path),
        final(gl)@.data == old(gl)@.data,
        final(gl)@.objects == old(gl)@.objects.push(ObjectKind::Image).push(ObjectKind::Texture),
{
    gl.record(Command::ActiveTexture { unit });
    let image = gl.load_image(path);
    let texture = gl.create_texture();
    gl.record(Command::BindTexture { target: TEXTURE_2D, texture: Some(texture) });
    gl.record(
        Command::TexParameterI32 {
            target: TEXTURE_2D,
            parameter: TEXTURE_WRAP_S,
            value: REPEAT as i32,
        },
    );
    gl.record(
        Command::TexParameterI32 {
            target: TEXTURE_2D,
            parameter: TEXTURE_WRAP_T,
            value: REPEAT as i32,
        },
    );
    gl.record(
        Command::TexParameterI32 {
            target: TEXTURE_2D,
            parameter: TEXTURE_MIN_FILTER,
            value: LINEAR as i32,
        },
    );
    gl.record(
        Command::TexParameterI32 {
            target: TEXTURE_2D,
            parameter: TEXTURE_MAG_FILTER,
            value: LINEAR as i32,
        },
    );
    gl.record(
        Command::TexImage2D { target: TEXTURE_2D, level: 0, image, border: 0, ty: UNSIGNED_BYTE },
    );
    gl.record(Command::GenerateMipmap { target: TEXTURE_2D });
    texture
}

pub struct Textures01 {
    /// A compiled and linked shader program: the vertex shader and the
    /// fragment shader combined.
    pub shader_program: usize,
    /// Vertex array object: the vertex attribute configuration of the square.
    pub vao: usize,
    pub texture0: usize,
    pub texture1: usize,
    /// Location of the uniform that holds the running time.
    pub time_uniform: usize,
    /// Timer started when the scene was set up.
    pub start_time: usize,
}

impl Textures01 {
    /// `commands` followed by the three attributes of a vertex and their
    /// activation. A vertex is nine floats: the position, then the color after
    /// the three floats of the position, then the texture coordinate after
    /// the seven floats of position and color.
    pub open spec fn with_attributes(commands: Seq<Command>) -> Seq<Command> {
        commands.push(float_attribute(0, 3, 36, 0)).push(float_attribute(1, 4, 36, 12)).push(
            float_attribute(2, 2, 36, 28),
        ).push(Command::EnableVertexAttribArray { index: 0 }).push(
            Command::EnableVertexAttribArray { index: 1 },
        ).push(Command::EnableVertexAttribArray { index: 2 })
    }

    /// `commands` followed by what `init` records when `first` is the next
    /// free slot and `data` the number of the next data block: the program is
    /// built in the slots from `first` on, the uniform `time` is looked up
    /// into `first + 3` and set to zero, the shaders are deleted, the
    /// vertices are uploaded to the vertex array in `first + 4` and the buffer
    /// in `first + 5`, the indices to the buffer in `first + 6`, the three
    /// attributes are laid out, the two images are loaded into the textures
    /// in `first + 8` and `first + 10`, and the timer is started in
    /// `first + 11`.
    pub open spec fn setup(commands: Seq<Command>, first: nat, data: nat) -> Seq<Command> {
        let linked = with_program(commands, first, VERTEX_SHADER_SRC, FRAGMENT_SHADER_SRC);
        let timed = with_zeroed_uniform(linked, (first + 2) as usize, (first + 3) as usize, "time");
        let cleaned = with_shaders_deleted(timed, first as usize, (first + 1) as usize);
        let uploaded = with_index_buffer(
            with_vertex_buffer(cleaned, first + 4, data),
            first + 6,
            data + 1,
        );
        with_texture(
            with_texture(Self::with_attributes(uploaded), first + 7, TEXTURE0, FIRST_IMAGE),
            first + 9,
            TEXTURE1,
            SECOND_IMAGE,
        ).push(Command::StartTimer { slot: (first + 11) as usize })
    }

    /// The kinds of the twelve slots that `init` takes, after `objects`.
    pub open spec fn setup_objects(objects: Seq<ObjectKind>) -> Seq<ObjectKind> {
        objects.push(ObjectKind::Shader).push(ObjectKind::Shader).push(ObjectKind::Program).push(
            ObjectKind::UniformLocation,
        ).push(ObjectKind::VertexArray).push(ObjectKind::Buffer).push(ObjectKind::Buffer).push(
            ObjectKind::Image,
        ).push(ObjectKind::Texture).push(ObjectKind::Image).push(ObjectKind::Texture).push(
            ObjectKind::Timer,
        )
    }

    /// `commands` followed by what `draw` records for the given scene.
    pub open spec fn frame(commands: Seq<Command>, scene: Textures01) -> Seq<Command> {
        commands.push(
            Command::ClearColor {
                red: 0,
                green: 0x3E4C_CCCD,
                blue: 0x3E4C_CCCD,
                alpha: 0x3F80_0000,
            },
        ).push(Command::Clear { mask: COLOR_BUFFER_BIT }).push(
            Command::UseProgram { program: Some(scene.shader_program) },
        ).push(
            Command::Uniform1Elapsed { location: scene.time_uniform, timer: scene.start_time },
        ).push(Command::ActiveTexture { unit: TEXTURE0 }).push(
            Command::BindTexture { target: TEXTURE_2D, texture: Some(scene.texture0) },
        ).push(Command::ActiveTexture { unit: TEXTURE1 }).push(
            Command::BindTexture { target: TEXTURE_2D, texture: Some(scene.texture1) },
        ).push(
            Command::Uniform1I32Named {
                program: scene.shader_program,
                name: "imageTexture1",
                value: 0,
            },
        ).push(
            Command::Uniform1I32Named {
                program: scene.shader_program,
                name: "imageTexture2",
                value: 1,
            },
        ).push(Command::BindVertexArray { vertex_array: Some(scene.vao) }).push(
            Command::DrawElements {
                mode: TRIANGLES,
                count: 6,
                element_type: UNSIGNED_INT,
                offset: 0,
            },
        )
    }
}

/// Loading an image into a texture is sound in rehearsal wherever it starts
/// and binds two slots: the image and the texture.
pub proof fn lemma_texture_is_sound(
    commands: Seq<Command>,
    start: Rehearsal,
    blocks: nat,
    unit: u32,
    path: &'static str,
)
    requires
        rehearse(commands, start, blocks).objects.len() + 1 <= usize::MAX,
    ensures
        rehearse(
            with_texture(commands, rehearse(commands, start, blocks).objects.len(), unit, path),
            start,
            blocks,
        ) == ({
            let reached = rehearse(commands, start, blocks);
            Rehearsal {
                objects: reached.objects.push(held(ObjectKind::Image, reached.current)).push(
                    held(ObjectKind::Texture, reached.current),
                ),
                ..reached
            }
        }),
{
    let first = rehearse(commands, start, blocks).objects.len();
    let image = first as usize;
    let texture = (first + 1) as usize;
    let s0 = commands;
    let c1 = Command::ActiveTexture { unit };
    lemma_rehearse_push(s0, c1, start, blocks);
    let s1 = s0.push(c1);
    let c2 = Command::LoadImage { slot: image, path };
    lemma_rehearse_push(s1, c2, start, blocks);
    let s2 = s1.push(c2);
    let c3 = Command::CreateTexture { slot: texture };
    lemma_rehearse_push(s2, c3, start, blocks);
    let s3 = s2.push(c3);
    let c4 = Command::BindTexture { target: TEXTURE_2D, texture: Some(texture) };
    lemma_rehearse_push(s3, c4, start, blocks);
    let s4 = s3.push(c4);
    let c5 = Command::TexParameterI32 {
        target: TEXTURE_2D,
        parameter: TEXTURE_WRAP_S,
        value: 0x2901,
    };
    lemma_rehearse_push(s4, c5, start, blocks);
    let s5 = s4.push(c5);
    let c6 = Command::TexParameterI32 {
        target: TEXTURE_2D,
        parameter: TEXTURE_WRAP_T,
        value: 0x2901,
    };
    lemma_rehearse_push(s5, c6, start, blocks);
    let s6 = s5.push(c6);
    let c7 = Command::TexParameterI32 {
        target: TEXTURE_2D,
        parameter: TEXTURE_MIN_FILTER,
        value: 0x2601,
    };
    lemma_rehearse_push(s6, c7, start, blocks);
    let s7 = s6.push(c7);
    let c8 = Command::TexParameterI32 {
        target: TEXTURE_2D,
        parameter: TEXTURE_MAG_FILTER,
        value: 0x2601,
    };
    lemma_rehearse_push(s7, c8, start, blocks);
    let s8 = s7.push(c8);
    let c9 = Command::TexImage2D {
        target: TEXTURE_2D,
        level: 0,
        image,
        border: 0,
        ty: UNSIGNED_BYTE,
    };
    lemma_rehearse_push(s8, c9, start, blocks);
    let s9 = s8.push(c9);
    let c10 = Command::GenerateMipmap { target: TEXTURE_2D };
    lemma_rehearse_push(s9, c10, start, blocks);
}

/// Laying out the three attributes is sound in rehearsal anywhere and binds
/// nothing.
pub proof fn lemma_attributes_are_sound(commands: Seq<Command>, start: Rehearsal, blocks: nat)
    ensures
        rehearse(Textures01::with_attributes(commands), start, blocks) == rehearse(
            commands,
            start,
            blocks,
        ),
{
    let s0 = commands;
    let c1 = float_attribute(0, 3, 36, 0);
    lemma_rehearse_push(s0, c1, start, blocks);
    let s1 = s0.push(c1);
    let c2 = float_attribute(1, 4, 36, 12);
    lemma_rehearse_push(s1, c2, start, blocks);
    let s2 = s1.push(c2);
    let c3 = float_attribute(2, 2, 36, 28);
    lemma_rehearse_push(s2, c3, start, blocks);
    let s3 = s2.push(c3);
    let c4 = Command::EnableVertexAttribArray { index: 0 };
    lemma_rehearse_push(s3, c4, start, blocks);
    let s4 = s3.push(c4);
    let c5 = Command::EnableVertexAttribArray { index: 1 };
    lemma_rehearse_push(s4, c5, start, blocks);
    let s5 = s4.push(c5);
    let c6 = Command::EnableVertexAttribArray { index: 2 };
    lemma_rehearse_push(s5, c6, start, blocks);
}

/// The setup is sound in rehearsal wherever it starts, as long as the frame
/// has the two data blocks that the vertices and the indices go to. It leaves
/// twelve slots bound: two shaders, the program and the location of the
/// uniform, of which the shaders are deleted again, the vertex array, two
/// buffers, two images with a texture each, and the timer.
pub proof fn lemma_setup_is_sound(commands: Seq<Command>, start: Rehearsal, blocks: nat, data: nat)
    requires
        rehearse(commands, start, blocks).objects.len() + 11 <= usize::MAX,
        data + 1 < blocks,
        data + 1 <= usize::MAX,
    ensures
        rehearse(
            Textures01::setup(commands, rehearse(commands, start, blocks).objects.len(), data),
            start,
            blocks,
        ) == ({
            let reached = rehearse(commands, start, blocks);
            let first = reached.objects.len() as int;
            let context = reached.current;
            Rehearsal {
                objects: reached.objects.push(held(ObjectKind::Shader, context)).push(
                    held(ObjectKind::Shader, context),
                ).push(held(ObjectKind::Program, context)).push(
                    held(ObjectKind::UniformLocation, context),
                ).update(first, held(ObjectKind::Deleted, context)).update(
                    first + 1,
                    held(ObjectKind::Deleted, context),
                ).push(held(ObjectKind::VertexArray, context)).push(
                    held(ObjectKind::Buffer, context),
                ).push(held(ObjectKind::Buffer, context)).push(held(ObjectKind::Image, context)).push(
                    held(ObjectKind::Texture, context),
                ).push(held(ObjectKind::Image, context)).push(
                    held(ObjectKind::Texture, context),
                ).push(held(ObjectKind::Timer, context)),
                ..reached
            }
        }),
{
    let first = rehearse(commands, start, blocks).objects.len();
    let linked = with_program(commands, first, VERTEX_SHADER_SRC, FRAGMENT_SHADER_SRC);
    lemma_program_is_sound(commands, start, blocks, VERTEX_SHADER_SRC, FRAGMENT_SHADER_SRC);
    let timed = with_zeroed_uniform(linked, (first + 2) as usize, (first + 3) as usize, "time");
    lemma_zeroed_uniform_is_sound(linked, start, blocks, (first + 2) as usize, "time");
    let cleaned = with_shaders_deleted(timed, first as usize, (first + 1) as usize);
    lemma_deleting_shaders_is_sound(timed, start, blocks, first as usize, (first + 1) as usize);
    let vertices = with_vertex_buffer(cleaned, first + 4, data);
    lemma_vertex_buffer_is_sound(cleaned, start, blocks, data);
    let uploaded = with_index_buffer(vertices, first + 6, data + 1);
    lemma_index_buffer_is_sound(vertices, start, blocks, data + 1);
    let laid_out = Textures01::with_attributes(uploaded);
    lemma_attributes_are_sound(uploaded, start, blocks);
    let textured = with_texture(laid_out, first + 7, TEXTURE0, FIRST_IMAGE);
    lemma_texture_is_sound(laid_out, start, blocks, TEXTURE0, FIRST_IMAGE);
    let ready = with_texture(textured, first + 9, TEXTURE1, SECOND_IMAGE);
    lemma_texture_is_sound(textured, start, blocks, TEXTURE1, SECOND_IMAGE);
    lemma_rehearse_push(ready, Command::StartTimer { slot: (first + 11) as usize }, start, blocks);
}

/// A frame is sound in rehearsal wherever the program, the location of the
/// uniform, the two textures, the vertex array and the timer of the scene
/// are bound, and binds nothing.
pub proof fn lemma_frame_is_sound(
    commands: Seq<Command>,
    start: Rehearsal,
    blocks: nat,
    scene: Textures01,
)
    requires
        ({
            let objects = rehearse(commands, start, blocks).objects;
            &&& scene.shader_program < objects.len()
            &&& objects[scene.shader_program as int].kind == ObjectKind::Program
            &&& scene.time_uniform < objects.len()
            &&& objects[scene.time_uniform as int].kind == ObjectKind::UniformLocation
            &&& scene.texture0 < objects.len()
            &&& objects[scene.texture0 as int].kind == ObjectKind::Texture
            &&& scene.texture1 < objects.len()
            &&& objects[scene.texture1 as int].kind == ObjectKind::Texture
            &&& scene.vao < objects.len()
            &&& objects[scene.vao as int].kind == ObjectKind::VertexArray
            &&& scene.start_time < objects.len()
            &&& objects[scene.start_time as int].kind == ObjectKind::Timer
        }),
    ensures
        rehearse(Textures01::frame(commands, scene), start, blocks) == rehearse(
            commands,
            start,
            blocks,
        ),
{
    let s0 = commands;
    let c1 = Command::ClearColor {
        red: 0,
        green: 0x3E4C_CCCD,
        blue: 0x3E4C_CCCD,
        alpha: 0x3F80_0000,
    };
    lemma_rehearse_push(s0, c1, start, blocks);
    let s1 = s0.push(c1);
    let c2 = Command::Clear { mask: COLOR_BUFFER_BIT };
    lemma_rehearse_push(s1, c2, start, blocks);
    let s2 = s1.push(c2);
    let c3 = Command::UseProgram { program: Some(scene.shader_program) };
    lemma_rehearse_push(s2, c3, start, blocks);
    let s3 = s2.push(c3);
    let c4 = Command::Uniform1Elapsed { location: scene.time_uniform, timer: scene.start_time };
    lemma_rehearse_push(s3, c4, start, blocks);
    let s4 = s3.push(c4);
    let c5 = Command::ActiveTexture { unit: TEXTURE0 };
    lemma_rehearse_push(s4, c5, start, blocks);
    let s5 = s4.push(c5);
    let c6 = Command::BindTexture { target: TEXTURE_2D, texture: Some(scene.texture0) };
    lemma_rehearse_push(s5, c6, start, blocks);
    let s6 = s5.push(c6);
    let c7 = Command::ActiveTexture { unit: TEXTURE1 };
    lemma_rehearse_push(s6, c7, start, blocks);
    let s7 = s6.push(c7);
    let c8 = Command::BindTexture { target: TEXTURE_2D, texture: Some(scene.texture1) };
    lemma_rehearse_push(s7, c8, start, blocks);
    let s8 = s7.push(c8);
    let c9 = Command::Uniform1I32Named {
        program: scene.shader_program,
        name: "imageTexture1",
        value: 0,
    };
    lemma_rehearse_push(s8, c9, start, blocks);
    let s9 = s8.push(c9);
    let c10 = Command::Uniform1I32Named {
        program: scene.shader_program,
        name: "imageTexture2",
        value: 1,
    };
    lemma_rehearse_push(s9, c10, start, blocks);
    let s10 = s9.push(c10);
    let c11 = Command::BindVertexArray { vertex_array: Some(scene.vao) };
    lemma_rehearse_push(s10, c11, start, blocks);
    let s11 = s10.push(c11);
    let c12 = Command::DrawElements {
        mode: TRIANGLES,
        count: 6,
        element_type: UNSIGNED_INT,
        offset: 0,
    };
    lemma_rehearse_push(s11, c12, start, blocks);
}

/// In a window the scene is sound in rehearsal from the first frame on. The
/// frame that `init` records on the fresh context of a window is sound for a
/// session that has nothing bound. A frame that `draw` records after that is
/// sound for the session as the setup has left it, leaves the session as it
/// is, and leaves the scene as it is: so the same holds of the frame after
/// it.
pub proof fn lemma_scene_is_sound(
    scene: Textures01,
    setup: ContextView,
    then: Textures01,
    frame: ContextView,
)
    requires
        Textures01::initialized(drained(Seq::empty()), scene, setup),
        Textures01::drawn(scene, drained(setup.objects), then, frame),
    ensures
        rehearse(setup.commands, fresh(), setup.data.len()).sound,
        rehearse(
            frame.commands,
            rehearse(setup.commands, fresh(), setup.data.len()),
            frame.data.len(),
        ) == rehearse(setup.commands, fresh(), setup.data.len()),
        then == scene,
        frame.objects == setup.objects,
{
    let fresh = fresh();
    let nothing = Seq::<Command>::empty();
    assert(rehearse(nothing, fresh, 2) == fresh);
    lemma_setup_is_sound(nothing, fresh, 2, 0);
    let ready = rehearse(setup.commands, fresh, 2);
    assert(rehearse(nothing, ready, 0) == ready);
    lemma_frame_is_sound(nothing, ready, 0, scene);
}

/// The square has four vertices of 9 floats each and six indices, none of
/// which points past the four vertices. Whatever was recorded before, a frame
/// ends with one indexed draw of exactly these six indices, read as unsigned
/// 32-bit integers.
pub proof fn lemma_frame_draws_the_six_indices(commands: Seq<Command>, scene: Textures01)
    ensures
        tri_vertices().len() == 4 * 9,
        tri_vertice_indexes().len() == 6,
        forall|i: int| 0 <= i < 6 ==> tri_vertice_indexes()[i] < 4,
        Textures01::frame(commands, scene).last() == (Command::DrawElements {
            mode: TRIANGLES,
            count: 6,
            element_type: UNSIGNED_INT,
            offset: 0,
        }),
{
}

impl RenderHandler for Textures01 {
    /// What `init` does: the slots it takes, the commands it records and
    /// the two data blocks it adds, the memory images of the vertices and of
    /// the indices.
    open spec fn initialized(before: ContextView, scene: Self, after: ContextView) -> bool {
        &&& scene.shader_program == before.objects.len() + 2
        &&& scene.time_uniform == before.objects.len() + 3
        &&& scene.vao == before.objects.len() + 4
        &&& scene.texture0 == before.objects.len() + 8
        &&& scene.texture1 == before.objects.len() + 10
        &&& scene.start_time == before.objects.len() + 11
        &&& after.commands == Self::setup(
            before.commands,
            before.objects.len(),
            before.data.len(),
        )
        &&& after.objects == Self::setup_objects(before.objects)
        &&& after.data.len() == before.data.len() + 2
        &&& after.data.take(before.data.len() as int) == before.data
        &&& is_mem_image(
            after.data[before.data.len() as int]@,
            values_u32(tri_vertices()),
            4,
        )
        &&& is_mem_image(
            after.data[before.data.len() as int + 1]@,
            values_u32(tri_vertice_indexes()),
            4,
        )
    }

    /// `draw` leaves the scene as it is and records `frame`.
    open spec fn drawn(scene: Self, before: ContextView, then: Self, after: ContextView) -> bool {
        &&& then == scene
        &&& after.commands == Self::frame(before.commands, scene)
        &&& after.data == before.data
        &&& after.objects == before.objects
    }

    /// `exit` changes nothing.
    open spec fn exited(scene: Self, before: ContextView, then: Self, after: ContextView) -> bool {
        unchanged(scene, before, then, after)
    }

    /// Records the build of the shader program, the lookup of the `time`
    /// uniform, which is set to zero, the upload of the four vertices and the
    /// six indices, the layout of the three vertex attributes, the load of the
    /// two images into textures on units zero and one, and the start of the
    /// scene's timer.
    fn init(gl: &mut Context) -> (scene: Self) {
        let linked = build_program(gl, VERTEX_SHADER_SRC, FRAGMENT_SHADER_SRC);

        // The running time starts at zero.
        let time_uniform = zeroed_uniform(gl, linked.shader_program, "time");
        delete_shaders(gl, linked);

        let vao = upload_vertices(gl, vertices().as_mem_bytes());
        upload_indices(gl, vertice_indexes().as_mem_bytes());

        // A vertex is nine floats: the position, then the color after the
        // three floats of the position, then the texture coordinate after the
        // seven floats of position and color.
        describe_float_attribute(gl, 0, 3, 9 * F32_SIZE, 0);
        describe_float_attribute(gl, 1, 4, 9 * F32_SIZE, 3 * F32_SIZE);
        describe_float_attribute(gl, 2, 2, 9 * F32_SIZE, 7 * F32_SIZE);
        gl.record(Command::EnableVertexAttribArray { index: 0 });
        gl.record(Command::EnableVertexAttribArray { index: 1 });
        gl.record(Command::EnableVertexAttribArray { index: 2 });

        let texture0 = load_and_bind_texture(gl, TEXTURE0, FIRST_IMAGE);
        let texture1 = load_and_bind_texture(gl, TEXTURE1, SECOND_IMAGE);

        let start_time = gl.start_timer();
        proof {
            assert(final(gl)@.data.take(old(gl)@.data.len() as int) =~= old(gl)@.data);
        }
        Textures01 {
            shader_program: linked.shader_program,
            vao,
            texture0,
            texture1,
            time_uniform,
            start_time,
        }
    }

    /// Records one frame: clear to (0, 0.2, 0.2, 1), tell the shader the
    /// running time, bind the two textures to units zero and one and the two
    /// samplers to those units, and draw the six indices as two triangles.
    fn draw(&mut self, gl: &mut Context) {
        gl.record(
            Command::ClearColor {
                red: 0,
                green: 0x3E4C_CCCD,
                blue: 0x3E4C_CCCD,
                alpha: 0x3F80_0000,
            },
        );
        gl.record(Command::Clear { mask: COLOR_BUFFER_BIT });
        gl.record(Command::UseProgram { program: Some(self.shader_program) });
        gl.record(Command::Uniform1Elapsed { location: self.time_uniform, timer: self.start_time });
        gl.record(Command::ActiveTexture { unit: TEXTURE0 });
        gl.record(Command::BindTexture { target: TEXTURE_2D, texture: Some(self.texture0) });
        gl.record(Command::ActiveTexture { unit: TEXTURE1 });
        gl.record(Command::BindTexture { target: TEXTURE_2D, texture: Some(self.texture1) });
        gl.record(
            Command::Uniform1I32Named {
                program: self.shader_program,
                name: "imageTexture1",
                value: 0,
            },
        );
        gl.record(
            Command::Uniform1I32Named {
                program: self.shader_program,
                name: "imageTexture2",
                value: 1,
            },
        );
        gl.record(Command::BindVertexArray { vertex_array: Some(self.vao) });
        gl.record(
            Command::DrawElements {
                mode: TRIANGLES,
                count: 6,
                element_type: UNSIGNED_INT,
                offset: 0,
            },
        );
    }

    /// The scene holds nothing that has to be released: `exit` records
    /// nothing.
    fn exit(&mut self, _gl: &mut Context) {
    }
}

} // verus!
