//! The steps that a scene takes to get its vertices to the driver.

use crate::command::{Command, ObjectKind};
use crate::constants::{ARRAY_BUFFER, ELEMENT_ARRAY_BUFFER, FLOAT, STATIC_DRAW};
use crate::context::Context;
use crate::rehearsal::{held, lemma_rehearse_push, rehearse, Rehearsal};
use vstd::prelude::*;

verus! {

/// `commands` followed by the upload of vertex data, when `first` is the next
/// free slot and `data` the number of the next data block: a vertex array
/// object is created in `first` and a buffer in `first + 1`, both are bound,
/// and the buffer is filled from the data block.
pub open spec fn with_vertex_buffer(commands: Seq<Command>, first: nat, data: nat) -> Seq<Command> {
    let vao = first as usize;
    let vbo = (first + 1) as usize;
    commands.push(Command::CreateVertexArray { slot: vao }).push(
        Command::CreateBuffer { slot: vbo },
    ).push(Command::BindVertexArray { vertex_array: Some(vao) }).push(
        Command::BindBuffer { target: ARRAY_BUFFER, buffer: Some(vbo) },
    ).push(Command::BufferData { target: ARRAY_BUFFER, data: data as usize, usage: STATIC_DRAW })
}

/// Records the creation of a vertex array object, which stores the attribute
/// configuration, and of a vertex buffer object, which stores the vertex
/// data; binds both and records the upload of `bytes` to the buffer. Returns
/// the slot of the vertex array object.
pub fn upload_vertices(gl: &mut Context, bytes: Vec<u8>) -> (vao: usize)
    ensures
        vao == old(gl)@.objects.len(),
        final(gl)@.commands == with_vertex_buffer(
            old(gl)@.commands,
            old(gl)@.objects.len(),
            old(gl)@.data.len(),
        ),
        final(gl)@.data == old(gl)@.data.push(bytes),
        final(gl)@.objects == old(gl)@.objects.push(ObjectKind::VertexArray).push(
            ObjectKind::Buffer,
        ),
{
    let vao = gl.create_vertex_array();
    let vbo = gl.create_buffer();
    gl.record(Command::BindVertexArray { vertex_array: Some(vao) });
    gl.record(Command::BindBuffer { target: ARRAY_BUFFER, buffer: Some(vbo) });
    gl.buffer_data_u8_slice(ARRAY_BUFFER, bytes, STATIC_DRAW);
    vao
}

/// Uploading vertex data is sound in rehearsal wherever it starts, as long
/// as the frame has the data block, and binds two slots: the vertex array
/// and the buffer.
pub proof fn lemma_vertex_buffer_is_sound(
    commands: Seq<Command>,
    start: Rehearsal,
    blocks: nat,
    data: nat,
)
    requires
        rehearse(commands, start, blocks).objects.len() + 1 <= usize::MAX,
        data < blocks,
        data <= usize::MAX,
    ensures
        rehearse(
            with_vertex_buffer(commands, rehearse(commands, start, blocks).objects.len(), data),
            start,
            blocks,
        ) == ({
            let reached = rehearse(commands, start, blocks);
            Rehearsal {
                objects: reached.objects.push(held(ObjectKind::VertexArray, reached.current)).push(
                    held(ObjectKind::Buffer, reached.current),
                ),
                ..reached
            }
        }),
{
    let first = rehearse(commands, start, blocks).objects.len();
    let vao = first as usize;
    let vbo = (first + 1) as usize;
    let s0 = commands;
    let c1 = Command::CreateVertexArray { slot: vao };
    lemma_rehearse_push(s0, c1, start, blocks);
    let s1 = s0.push(c1);
    let c2 = Command::CreateBuffer { slot: vbo };
    lemma_rehearse_push(s1, c2, start, blocks);
    let s2 = s1.push(c2);
    let c3 = Command::BindVertexArray { vertex_array: Some(vao) };
    lemma_rehearse_push(s2, c3, start, blocks);
    let s3 = s2.push(c3);
    let c4 = Command::BindBuffer { target: ARRAY_BUFFER, buffer: Some(vbo) };
    lemma_rehearse_push(s3, c4, start, blocks);
    let s4 = s3.push(c4);
    let c5 = Command::BufferData { target: ARRAY_BUFFER, data: data as usize, usage: STATIC_DRAW };
    lemma_rehearse_push(s4, c5, start, blocks);
}

/// `commands` followed by the upload of index data, when `first` is the next
/// free slot and `data` the number of the next data block: a buffer is
/// created in `first`, bound as the element buffer of the vertex array that
/// is bound, and filled from the data block.
pub open spec fn with_index_buffer(commands: Seq<Command>, first: nat, data: nat) -> Seq<Command> {
    let ebo = first as usize;
    commands.push(Command::CreateBuffer { slot: ebo }).push(
        Command::BindBuffer { target: ELEMENT_ARRAY_BUFFER, buffer: Some(ebo) },
    ).push(
        Command::BufferData {
            target: ELEMENT_ARRAY_BUFFER,
            data: data as usize,
            usage: STATIC_DRAW,
        },
    )
}

/// Records the creation of an element buffer object, which indexes into the
/// vertices, and the upload of `bytes` to it.
pub fn upload_indices(gl: &mut Context, bytes: Vec<u8>)
    ensures
        final(gl)@.commands == with_index_buffer(
            old(gl)@.commands,
            old(gl)@.objects.len(),
            old(gl)@.data.len(),
        ),
        final(gl)@.data == old(gl)@.data.push(bytes),
        final(gl)@.objects == old(gl)@.objects.push(ObjectKind::Buffer),
{
    let ebo = gl.create_buffer();
    gl.record(Command::BindBuffer { target: ELEMENT_ARRAY_BUFFER, buffer: Some(ebo) });
    gl.buffer_data_u8_slice(ELEMENT_ARRAY_BUFFER, bytes, STATIC_DRAW);
}

/// Uploading index data is sound in rehearsal wherever it starts, as long as
/// the frame has the data block, and binds one slot: the buffer.
pub proof fn lemma_index_buffer_is_sound(
    commands: Seq<Command>,
    start: Rehearsal,
    blocks: nat,
    data: nat,
)
    requires
        rehearse(commands, start, blocks).objects.len() <= usize::MAX,
        data < blocks,
        data <= usize::MAX,
    ensures
        rehearse(
            with_index_buffer(commands, rehearse(commands, start, blocks).objects.len(), data),
            start,
            blocks,
        ) == ({
            let reached = rehearse(commands, start, blocks);
            Rehearsal {
                objects: reached.objects.push(held(ObjectKind::Buffer, reached.current)),
                ..reached
            }
        }),
{
    let first = rehearse(commands, start, blocks).objects.len();
    let ebo = first as usize;
    let s0 = commands;
    let c1 = Command::CreateBuffer { slot: ebo };
    lemma_rehearse_push(s0, c1, start, blocks);
    let s1 = s0.push(c1);
    let c2 = Command::BindBuffer { target: ELEMENT_ARRAY_BUFFER, buffer: Some(ebo) };
    lemma_rehearse_push(s1, c2, start, blocks);
    let s2 = s1.push(c2);
    let c3 = Command::BufferData {
        target: ELEMENT_ARRAY_BUFFER,
        data: data as usize,
        usage: STATIC_DRAW,
    };
    lemma_rehearse_push(s2, c3, start, blocks);
}

/// The command that lays one attribute of floats out: `size` floats that
/// start `offset` bytes into a vertex of `stride` bytes.
pub open spec fn float_attribute(index: u32, size: i32, stride: i32, offset: i32) -> Command {
    Command::VertexAttribPointerF32 {
        index,
        size,
        data_type: FLOAT,
        normalized: false,
        stride,
        offset,
    }
}

/// Records the layout of one attribute of floats.
pub fn describe_float_attribute(gl: &mut Context, index: u32, size: i32, stride: i32, offset: i32)
    ensures
        final(gl)@.commands == old(gl)@.commands.push(float_attribute(index, size, stride, offset)),
        final(gl)@.data == old(gl)@.data,
        final(gl)@.objects == old(gl)@.objects,
{
    gl.record(
        Command::VertexAttribPointerF32 {
            index,
            size,
            data_type: FLOAT,
            normalized: false,
            stride,
            offset,
        },
    );
}

} // verus!
