//! The steps that every scene takes to get a linked shader program.

use crate::command::{Command, ObjectKind};
use crate::constants::{FRAGMENT_SHADER, VERTEX_SHADER};
use crate::context::Context;
use crate::rehearsal::{held, lemma_rehearse_push, rehearse, Rehearsal};
use vstd::prelude::*;

verus! {

/// Records the check that `shader` has compiled. When the frame is carried
/// out and the driver reports that the compilation failed, the session asks
/// for the driver's log and ends with `Failure::ShaderCompile`.
pub fn handle_shader_compile_errors(gl: &mut Context, shader: usize)
    ensures
        final(gl)@.commands == old(gl)@.commands.push(Command::GetShaderCompileStatus { shader }),
        final(gl)@.data == old(gl)@.data,
        final(gl)@.objects == old(gl)@.objects,
{
    gl.record(Command::GetShaderCompileStatus { shader });
}

/// Records the check that `program` has linked. When the frame is carried out
/// and the driver reports that the link failed, the session asks for the
/// driver's log and ends with `Failure::ProgramLink`.
pub fn handle_program_link_errors(gl: &mut Context, program: usize)
    ensures
        final(gl)@.commands == old(gl)@.commands.push(Command::GetProgramLinkStatus { program }),
        final(gl)@.data == old(gl)@.data,
        final(gl)@.objects == old(gl)@.objects,
{
    gl.record(Command::GetProgramLinkStatus { program });
}

/// The slots of a program and of the two shaders it was linked from.
#[derive(Copy, Clone, Debug, PartialEq, Eq, Structural)]
pub struct LinkedProgram {
    pub vertex_shader: usize,
    pub fragment_shader: usize,
    pub shader_program: usize,
}

/// `commands` followed by the commands that compile one shader into the slot
/// `shader`: create, load the source, compile, check.
pub open spec fn with_shader(
    commands: Seq<Command>,
    shader: usize,
    shader_type: u32,
    path: &'static str,
) -> Seq<Command> {
    commands.push(Command::CreateShader { slot: shader, shader_type }).push(
        Command::ShaderSource { shader, path },
    ).push(Command::CompileShader { shader }).push(Command::GetShaderCompileStatus { shader })
}

/// `commands` followed by the commands that build a program from a vertex and
/// a fragment shader, when `first` is the next free slot: the vertex shader is
/// compiled into `first`, the fragment shader into `first + 1`, and both are
/// linked into the program in `first + 2`.
pub open spec fn with_program(
    commands: Seq<Command>,
    first: nat,
    vertex_path: &'static str,
    fragment_path: &'static str,
) -> Seq<Command> {
    let vertex_shader = first as usize;
    let fragment_shader = (first + 1) as usize;
    let program = (first + 2) as usize;
    with_shader(
        with_shader(commands, vertex_shader, VERTEX_SHADER, vertex_path),
        fragment_shader,
        FRAGMENT_SHADER,
        fragment_path,
    ).push(Command::CreateProgram { slot: program }).push(
        Command::AttachShader { program, shader: vertex_shader },
    ).push(Command::AttachShader { program, shader: fragment_shader }).push(
        Command::LinkProgram { program },
    ).push(Command::GetProgramLinkStatus { program })
}

/// Compiling a shader into the next free slot is sound in rehearsal and binds
/// the slot to a shader.
pub proof fn lemma_shader_is_sound(
    commands: Seq<Command>,
    start: Rehearsal,
    blocks: nat,
    shader_type: u32,
    path: &'static str,
)
    requires
        rehearse(commands, start, blocks).objects.len() <= usize::MAX,
    ensures
        rehearse(
            with_shader(
                commands,
                rehearse(commands, start, blocks).objects.len() as usize,
                shader_type,
                path,
            ),
            start,
            blocks,
        ) == ({
            let reached = rehearse(commands, start, blocks);
            Rehearsal {
                objects: reached.objects.push(held(ObjectKind::Shader, reached.current)),
                ..reached
            }
        }),
{
    let shader = rehearse(commands, start, blocks).objects.len() as usize;
    let c1 = Command::CreateShader { slot: shader, shader_type };
    lemma_rehearse_push(commands, c1, start, blocks);
    let s1 = commands.push(c1);
    let c2 = Command::ShaderSource { shader, path };
    lemma_rehearse_push(s1, c2, start, blocks);
    let s2 = s1.push(c2);
    let c3 = Command::CompileShader { shader };
    lemma_rehearse_push(s2, c3, start, blocks);
    let s3 = s2.push(c3);
    let c4 = Command::GetShaderCompileStatus { shader };
    lemma_rehearse_push(s3, c4, start, blocks);
}

/// Building a program from the next free slot on is sound in rehearsal and
/// binds three slots: two shaders and the program.
pub proof fn lemma_program_is_sound(
    commands: Seq<Command>,
    start: Rehearsal,
    blocks: nat,
    vertex_path: &'static str,
    fragment_path: &'static str,
)
    requires
        rehearse(commands, start, blocks).objects.len() + 2 <= usize::MAX,
    ensures
        rehearse(
            with_program(
                commands,
                rehearse(commands, start, blocks).objects.len(),
                vertex_path,
                fragment_path,
            ),
            start,
            blocks,
        ) == ({
            let reached = rehearse(commands, start, blocks);
            Rehearsal {
                objects: reached.objects.push(held(ObjectKind::Shader, reached.current)).push(
                    held(ObjectKind::Shader, reached.current),
                ).push(held(ObjectKind::Program, reached.current)),
                ..reached
            }
        }),
{
    let first = rehearse(commands, start, blocks).objects.len();
    let vertex_shader = first as usize;
    let fragment_shader = (first + 1) as usize;
    let program = (first + 2) as usize;
    let compiled = with_shader(commands, vertex_shader, VERTEX_SHADER, vertex_path);
    lemma_shader_is_sound(commands, start, blocks, VERTEX_SHADER, vertex_path);
    let s0 = with_shader(compiled, fragment_shader, FRAGMENT_SHADER, fragment_path);
    lemma_shader_is_sound(compiled, start, blocks, FRAGMENT_SHADER, fragment_path);
    let c1 = Command::CreateProgram { slot: program };
    lemma_rehearse_push(s0, c1, start, blocks);
    let s1 = s0.push(c1);
    let c2 = Command::AttachShader { program, shader: vertex_shader };
    lemma_rehearse_push(s1, c2, start, blocks);
    let s2 = s1.push(c2);
    let c3 = Command::AttachShader { program, shader: fragment_shader };
    lemma_rehearse_push(s2, c3, start, blocks);
    let s3 = s2.push(c3);
    let c4 = Command::LinkProgram { program };
    lemma_rehearse_push(s3, c4, start, blocks);
    let s4 = s3.push(c4);
    let c5 = Command::GetProgramLinkStatus { program };
    lemma_rehearse_push(s4, c5, start, blocks);
}

/// Records the compilation of a vertex and a fragment shader from the source
/// files at the two paths, and the link of both into a program.
pub fn build_program(
    gl: &mut Context,
    vertex_path: &'static str,
    fragment_path: &'static str,
) -> (linked: LinkedProgram)
    ensures
        linked.vertex_shader == old(gl)@.objects.len(),
        linked.fragment_shader == old(gl)@.objects.len() + 1,
        linked.shader_program == old(gl)@.objects.len() + 2,
        final(gl)@.commands == with_program(
            old(gl)@.commands,
            old(gl)@.objects.len(),
            vertex_path,
            fragment_path,
        ),
        final(gl)@.data == old(gl)@.data,
        final(gl)@.objects == old(gl)@.objects.push(ObjectKind::Shader).push(
            ObjectKind::Shader,
        ).push(ObjectKind::Program),
{
    let vertex_shader = gl.create_shader(VERTEX_SHADER);
    gl.record(Command::ShaderSource { shader: vertex_shader, path: vertex_path });
    gl.record(Command::CompileShader { shader: vertex_shader });
    handle_shader_compile_errors(gl, vertex_shader);

    let fragment_shader = gl.create_shader(FRAGMENT_SHADER);
    gl.record(Command::ShaderSource { shader: fragment_shader, path: fragment_path });
    gl.record(Command::CompileShader { shader: fragment_shader });
    handle_shader_compile_errors(gl, fragment_shader);

    let shader_program = gl.create_program();
    gl.record(Command::AttachShader { program: shader_program, shader: vertex_shader });
    gl.record(Command::AttachShader { program: shader_program, shader: fragment_shader });
    gl.record(Command::LinkProgram { program: shader_program });
    handle_program_link_errors(gl, shader_program);

    LinkedProgram { vertex_shader, fragment_shader, shader_program }
}

/// `commands` followed by the lookup of the float uniform `name` of
/// `program`, whose location goes to the slot `location`, and by setting the
/// uniform to zero.
pub open spec fn with_zeroed_uniform(
    commands: Seq<Command>,
    program: usize,
    location: usize,
    name: &'static str,
) -> Seq<Command> {
    commands.push(Command::GetUniformLocation { slot: location, program, name }).push(
        Command::UseProgram { program: Some(program) },
    ).push(Command::Uniform1F32 { location, bits: 0 })
}

/// Records the lookup of the float uniform `name` of `program`, makes the
/// program current and sets the uniform to zero. Returns the slot of the
/// uniform's location.
pub fn zeroed_uniform(gl: &mut Context, program: usize, name: &'static str) -> (location: usize)
    ensures
        location == old(gl)@.objects.len(),
        final(gl)@.commands == with_zeroed_uniform(old(gl)@.commands, program, location, name),
        final(gl)@.data == old(gl)@.data,
        final(gl)@.objects == old(gl)@.objects.push(ObjectKind::UniformLocation),
{
    let location = gl.get_uniform_location(program, name);
    gl.record(Command::UseProgram { program: Some(program) });
    gl.record(Command::Uniform1F32 { location, bits: 0 });
    location
}

/// Looking a uniform up in a program that is bound, and setting it to zero,
/// is sound in rehearsal and binds the next free slot to the location.
pub proof fn lemma_zeroed_uniform_is_sound(
    commands: Seq<Command>,
    start: Rehearsal,
    blocks: nat,
    program: usize,
    name: &'static str,
)
    requires
        rehearse(commands, start, blocks).objects.len() <= usize::MAX,
        program < rehearse(commands, start, blocks).objects.len(),
        rehearse(commands, start, blocks).objects[program as int].kind == ObjectKind::Program,
    ensures
        rehearse(
            with_zeroed_uniform(
                commands,
                program,
                rehearse(commands, start, blocks).objects.len() as usize,
                name,
            ),
            start,
            blocks,
        ) == ({
            let reached = rehearse(commands, start, blocks);
            Rehearsal {
                objects: reached.objects.push(held(ObjectKind::UniformLocation, reached.current)),
                ..reached
            }
        }),
{
    let location = rehearse(commands, start, blocks).objects.len() as usize;
    let s0 = commands;
    let c1 = Command::GetUniformLocation { slot: location, program, name };
    lemma_rehearse_push(s0, c1, start, blocks);
    let s1 = s0.push(c1);
    let c2 = Command::UseProgram { program: Some(program) };
    lemma_rehearse_push(s1, c2, start, blocks);
    let s2 = s1.push(c2);
    let c3 = Command::Uniform1F32 { location, bits: 0 };
    lemma_rehearse_push(s2, c3, start, blocks);
}

/// `commands` followed by the deletion of the two shaders of a program.
pub open spec fn with_shaders_deleted(
    commands: Seq<Command>,
    vertex_shader: usize,
    fragment_shader: usize,
) -> Seq<Command> {
    commands.push(Command::DeleteShader { shader: vertex_shader }).push(
        Command::DeleteShader { shader: fragment_shader },
    )
}

/// Records the deletion of the two shaders that a program was linked from:
/// once linked, the program does not need them.
pub fn delete_shaders(gl: &mut Context, linked: LinkedProgram)
    ensures
        final(gl)@.commands == with_shaders_deleted(
            old(gl)@.commands,
            linked.vertex_shader,
            linked.fragment_shader,
        ),
        final(gl)@.data == old(gl)@.data,
        final(gl)@.objects == old(gl)@.objects,
{
    gl.record(Command::DeleteShader { shader: linked.vertex_shader });
    gl.record(Command::DeleteShader { shader: linked.fragment_shader });
}

/// Deleting two different shaders that are bound is sound in rehearsal and
/// marks their slots as deleted.
pub proof fn lemma_deleting_shaders_is_sound(
    commands: Seq<Command>,
    start: Rehearsal,
    blocks: nat,
    vertex_shader: usize,
    fragment_shader: usize,
)
    requires
        vertex_shader != fragment_shader,
        vertex_shader < rehearse(commands, start, blocks).objects.len(),
        rehearse(commands, start, blocks).objects[vertex_shader as int].kind == ObjectKind::Shader,
        fragment_shader < rehearse(commands, start, blocks).objects.len(),
        rehearse(commands, start, blocks).objects[fragment_shader as int].kind
            == ObjectKind::Shader,
    ensures
        rehearse(
            with_shaders_deleted(commands, vertex_shader, fragment_shader),
            start,
            blocks,
        ) == ({
            let reached = rehearse(commands, start, blocks);
            Rehearsal {
                objects: reached.objects.update(
                    vertex_shader as int,
                    held(ObjectKind::Deleted, reached.objects[vertex_shader as int].context),
                ).update(
                    fragment_shader as int,
                    held(ObjectKind::Deleted, reached.objects[fragment_shader as int].context),
                ),
                ..reached
            }
        }),
{
    let s0 = commands;
    let c1 = Command::DeleteShader { shader: vertex_shader };
    lemma_rehearse_push(s0, c1, start, blocks);
    let s1 = s0.push(c1);
    let c2 = Command::DeleteShader { shader: fragment_shader };
    lemma_rehearse_push(s1, c2, start, blocks);
}

} // verus!
