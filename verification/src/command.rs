//! The commands that a render handler records and a backend later carries
//! out against the graphics driver.
//!
//! A command never holds a driver object. It names objects by slot: a number
//! that the recording context hands out when the object is asked for. The
//! backend keeps the driver's object for each slot once the command that
//! binds the slot has succeeded. Floating-point arguments are carried as
//! IEEE-754 bit patterns.

use vstd::prelude::*;

verus! {

/// What a slot stands for.
#[derive(Copy, Clone, Debug, PartialEq, Eq, Structural)]
pub enum ObjectKind {
    Shader,
    Program,
    UniformLocation,
    VertexArray,
    Buffer,
    Texture,
    Framebuffer,
    Renderbuffer,
    /// A decoded image that the backend holds for a later upload.
    Image,
    /// A point in time that the backend remembers.
    Timer,
    /// An object that has been deleted; its slot is never used again.
    Deleted,
}

/// The rendering contexts of a window that shares its objects between an
/// off-screen context and the context of the visible surface.
#[derive(Copy, Clone, Debug, PartialEq, Eq, Structural)]
pub enum RenderContext {
    /// The off-screen context that scenes render in.
    Root,
    /// The context whose default framebuffer is the window surface.
    Surface,
}

/// A slot together with the kind of object a command expects in it.
#[derive(Copy, Clone, Debug, PartialEq, Eq, Structural)]
pub struct Operand {
    pub slot: usize,
    pub kind: ObjectKind,
}

/// One call to the graphics driver, or one request to the backend.
#[allow(inconsistent_fields)]
#[derive(Copy, Clone, Debug, PartialEq, Eq)]
pub enum Command {
    /// Creates a shader of the given stage and binds it to `slot`.
    CreateShader { slot: usize, shader_type: u32 },
    /// Creates a program and binds it to `slot`.
    CreateProgram { slot: usize },
    /// Creates a vertex array object and binds it to `slot`.
    CreateVertexArray { slot: usize },
    /// Creates a buffer object and binds it to `slot`.
    CreateBuffer { slot: usize },
    /// Creates a texture and binds it to `slot`.
    CreateTexture { slot: usize },
    /// Creates a framebuffer object and binds it to `slot`.
    CreateFramebuffer { slot: usize },
    /// Creates a renderbuffer and binds it to `slot`.
    CreateRenderbuffer { slot: usize },
    /// Looks a uniform of `program` up by name and binds its location to
    /// `slot`.
    GetUniformLocation { slot: usize, program: usize, name: &'static str },
    /// Reads and decodes the image file at `path` and binds it to `slot`.
    LoadImage { slot: usize, path: &'static str },
    /// Remembers the current time under `slot`.
    StartTimer { slot: usize },
    /// Replaces the source of `shader` by the text of the file at `path`.
    ShaderSource { shader: usize, path: &'static str },
    CompileShader { shader: usize },
    /// Asks whether the last compilation of `shader` succeeded.
    GetShaderCompileStatus { shader: usize },
    /// Asks for the driver's log of the last compilation of `shader`.
    GetShaderInfoLog { shader: usize },
    AttachShader { program: usize, shader: usize },
    LinkProgram { program: usize },
    /// Asks whether the last link of `program` succeeded.
    GetProgramLinkStatus { program: usize },
    /// Asks for the driver's log of the last link of `program`.
    GetProgramInfoLog { program: usize },
    DeleteShader { shader: usize },
    /// Makes `program` current; `None` makes no program current.
    UseProgram { program: Option<usize> },
    /// Sets a float uniform of the current program to the value with the
    /// given bit pattern.
    Uniform1F32 { location: usize, bits: u32 },
    /// Sets a float uniform of the current program to the seconds that have
    /// passed since `timer` was started.
    Uniform1Elapsed { location: usize, timer: usize },
    /// Looks a uniform of `program` up by name and sets it to `value`.
    Uniform1I32Named { program: usize, name: &'static str, value: i32 },
    BindVertexArray { vertex_array: Option<usize> },
    BindBuffer { target: u32, buffer: Option<usize> },
    /// Fills the buffer bound to `target` with the bytes of the frame's data
    /// block number `data`.
    BufferData { target: u32, data: usize, usage: u32 },
    VertexAttribPointerF32 {
        index: u32,
        size: i32,
        data_type: u32,
        normalized: bool,
        stride: i32,
        offset: i32,
    },
    EnableVertexAttribArray { index: u32 },
    ActiveTexture { unit: u32 },
    BindTexture { target: u32, texture: Option<usize> },
    TexParameterI32 { target: u32, parameter: u32, value: i32 },
    /// Uploads the decoded image in slot `image`, in its own size and pixel
    /// format, to the texture bound to `target`.
    TexImage2D { target: u32, level: i32, image: usize, border: i32, ty: u32 },
    GenerateMipmap { target: u32 },
    /// Binds a framebuffer; `None` binds the default framebuffer.
    BindFramebuffer { target: u32, framebuffer: Option<usize> },
    BindRenderbuffer { target: u32, renderbuffer: Option<usize> },
    RenderbufferStorage { target: u32, internal_format: u32, width: i32, height: i32 },
    FramebufferRenderbuffer {
        target: u32,
        attachment: u32,
        renderbuffer_target: u32,
        renderbuffer: Option<usize>,
    },
    /// Asks for the completeness status of the framebuffer bound to `target`.
    CheckFramebufferStatus { target: u32 },
    BlitFramebuffer {
        src_x0: i32,
        src_y0: i32,
        src_x1: i32,
        src_y1: i32,
        dst_x0: i32,
        dst_y0: i32,
        dst_x1: i32,
        dst_y1: i32,
        mask: u32,
        filter: u32,
    },
    DeleteFramebuffer { framebuffer: usize },
    /// Sets the clear color; each channel is the bit pattern of a float.
    ClearColor { red: u32, green: u32, blue: u32, alpha: u32 },
    Clear { mask: u32 },
    DrawArrays { mode: u32, first: i32, count: i32 },
    DrawElements { mode: u32, count: i32, element_type: u32, offset: i32 },
    /// Asks for the error code that the driver has recorded.
    GetError,
    /// Makes one of the window's rendering contexts the current one.
    MakeCurrent { context: RenderContext },
}

/// The operand for an optional slot.
pub open spec fn optional_operand(slot: Option<usize>, kind: ObjectKind) -> Option<Operand> {
    match slot {
        Some(slot) => Some(Operand { slot, kind }),
        None => None,
    }
}

/// Computes `optional_operand`.
pub fn operand_of(slot: Option<usize>, kind: ObjectKind) -> (operand: Option<Operand>)
    ensures
        operand == optional_operand(slot, kind),
{
    match slot {
        Some(slot) => Some(Operand { slot, kind }),
        None => None,
    }
}

impl Command {
    /// The slot that the command binds when it succeeds, with the kind of the
    /// object it binds there.
    pub open spec fn binding(self) -> Option<Operand> {
        match self {
            Command::CreateShader { slot, .. } => Some(Operand { slot, kind: ObjectKind::Shader }),
            Command::CreateProgram { slot } => Some(Operand { slot, kind: ObjectKind::Program }),
            Command::CreateVertexArray { slot } => Some(
                Operand { slot, kind: ObjectKind::VertexArray },
            ),
            Command::CreateBuffer { slot } => Some(Operand { slot, kind: ObjectKind::Buffer }),
            Command::CreateTexture { slot } => Some(Operand { slot, kind: ObjectKind::Texture }),
            Command::CreateFramebuffer { slot } => Some(
                Operand { slot, kind: ObjectKind::Framebuffer },
            ),
            Command::CreateRenderbuffer { slot } => Some(
                Operand { slot, kind: ObjectKind::Renderbuffer },
            ),
            Command::GetUniformLocation { slot, .. } => Some(
                Operand { slot, kind: ObjectKind::UniformLocation },
            ),
            Command::LoadImage { slot, .. } => Some(Operand { slot, kind: ObjectKind::Image }),
            Command::StartTimer { slot } => Some(Operand { slot, kind: ObjectKind::Timer }),
            _ => None,
        }
    }

    /// The first object that the command works on.
    pub open spec fn first_operand(self) -> Option<Operand> {
        match self {
            Command::GetUniformLocation { program, .. } => Some(
                Operand { slot: program, kind: ObjectKind::Program },
            ),
            Command::ShaderSource { shader, .. } => Some(
                Operand { slot: shader, kind: ObjectKind::Shader },
            ),
            Command::CompileShader { shader } => Some(
                Operand { slot: shader, kind: ObjectKind::Shader },
            ),
            Command::GetShaderCompileStatus { shader } => Some(
                Operand { slot: shader, kind: ObjectKind::Shader },
            ),
            Command::GetShaderInfoLog { shader } => Some(
                Operand { slot: shader, kind: ObjectKind::Shader },
            ),
            Command::AttachShader { program, .. } => Some(
                Operand { slot: program, kind: ObjectKind::Program },
            ),
            Command::LinkProgram { program } => Some(
                Operand { slot: program, kind: ObjectKind::Program },
            ),
            Command::GetProgramLinkStatus { program } => Some(
                Operand { slot: program, kind: ObjectKind::Program },
            ),
            Command::GetProgramInfoLog { program } => Some(
                Operand { slot: program, kind: ObjectKind::Program },
            ),
            Command::DeleteShader { shader } => Some(
                Operand { slot: shader, kind: ObjectKind::Shader },
            ),
            Command::UseProgram { program } => optional_operand(program, ObjectKind::Program),
            Command::Uniform1F32 { location, .. } => Some(
                Operand { slot: location, kind: ObjectKind::UniformLocation },
            ),
            Command::Uniform1Elapsed { location, .. } => Some(
                Operand { slot: location, kind: ObjectKind::UniformLocation },
            ),
            Command::Uniform1I32Named { program, .. } => Some(
                Operand { slot: program, kind: ObjectKind::Program },
            ),
            Command::BindVertexArray { vertex_array } => optional_operand(
                vertex_array,
                ObjectKind::VertexArray,
            ),
            Command::BindBuffer { buffer, .. } => optional_operand(buffer, ObjectKind::Buffer),
            Command::BindTexture { texture, .. } => optional_operand(texture, ObjectKind::Texture),
            Command::TexImage2D { image, .. } => Some(
                Operand { slot: image, kind: ObjectKind::Image },
            ),
            Command::BindFramebuffer { framebuffer, .. } => optional_operand(
                framebuffer,
                ObjectKind::Framebuffer,
            ),
            Command::BindRenderbuffer { renderbuffer, .. } => optional_operand(
                renderbuffer,
                ObjectKind::Renderbuffer,
            ),
            Command::FramebufferRenderbuffer { renderbuffer, .. } => optional_operand(
                renderbuffer,
                ObjectKind::Renderbuffer,
            ),
            Command::DeleteFramebuffer { framebuffer } => Some(
                Operand { slot: framebuffer, kind: ObjectKind::Framebuffer },
            ),
            _ => None,
        }
    }

    /// The second object that the command works on.
    pub open spec fn second_operand(self) -> Option<Operand> {
        match self {
            Command::AttachShader { shader, .. } => Some(
                Operand { slot: shader, kind: ObjectKind::Shader },
            ),
            Command::Uniform1Elapsed { timer, .. } => Some(
                Operand { slot: timer, kind: ObjectKind::Timer },
            ),
            _ => None,
        }
    }

    /// The data block of the frame that the command reads.
    pub open spec fn payload(self) -> Option<usize> {
        match self {
            Command::BufferData { data, .. } => Some(data),
            _ => None,
        }
    }

    /// The slot whose object the command deletes.
    pub open spec fn deletion(self) -> Option<usize> {
        match self {
            Command::DeleteShader { shader } => Some(shader),
            Command::DeleteFramebuffer { framebuffer } => Some(framebuffer),
            _ => None,
        }
    }

    /// Computes `binding`.
    pub fn binds(&self) -> (operand: Option<Operand>)
        ensures
            operand == self.binding(),
    {
        match *self {
            Command::CreateShader { slot, .. } => Some(Operand { slot, kind: ObjectKind::Shader }),
            Command::CreateProgram { slot } => Some(Operand { slot, kind: ObjectKind::Program }),
            Command::CreateVertexArray { slot } => Some(
                Operand { slot, kind: ObjectKind::VertexArray },
            ),
            Command::CreateBuffer { slot } => Some(Operand { slot, kind: ObjectKind::Buffer }),
            Command::CreateTexture { slot } => Some(Operand { slot, kind: ObjectKind::Texture }),
            Command::CreateFramebuffer { slot } => Some(
                Operand { slot, kind: ObjectKind::Framebuffer },
            ),
            Command::CreateRenderbuffer { slot } => Some(
                Operand { slot, kind: ObjectKind::Renderbuffer },
            ),
            Command::GetUniformLocation { slot, .. } => Some(
                Operand { slot, kind: ObjectKind::UniformLocation },
            ),
            Command::LoadImage { slot, .. } => Some(Operand { slot, kind: ObjectKind::Image }),
            Command::StartTimer { slot } => Some(Operand { slot, kind: ObjectKind::Timer }),
            _ => None,
        }
    }

    /// Computes `first_operand`.
    pub fn first(&self) -> (operand: Option<Operand>)
        ensures
            operand == self.first_operand(),
    {
        match *self {
            Command::GetUniformLocation { program, .. } => Some(
                Operand { slot: program, kind: ObjectKind::Program },
            ),
            Command::ShaderSource { shader, .. } => Some(
                Operand { slot: shader, kind: ObjectKind::Shader },
            ),
            Command::CompileShader { shader } => Some(
                Operand { slot: shader, kind: ObjectKind::Shader },
            ),
            Command::GetShaderCompileStatus { shader } => Some(
                Operand { slot: shader, kind: ObjectKind::Shader },
            ),
            Command::GetShaderInfoLog { shader } => Some(
                Operand { slot: shader, kind: ObjectKind::Shader },
            ),
            Command::AttachShader { program, .. } => Some(
                Operand { slot: program, kind: ObjectKind::Program },
            ),
            Command::LinkProgram { program } => Some(
                Operand { slot: program, kind: ObjectKind::Program },
            ),
            Command::GetProgramLinkStatus { program } => Some(
                Operand { slot: program, kind: ObjectKind::Program },
            ),
            Command::GetProgramInfoLog { program } => Some(
                Operand { slot: program, kind: ObjectKind::Program },
            ),
            Command::DeleteShader { shader } => Some(
                Operand { slot: shader, kind: ObjectKind::Shader },
            ),
            Command::UseProgram { program } => operand_of(program, ObjectKind::Program),
            Command::Uniform1F32 { location, .. } => Some(
                Operand { slot: location, kind: ObjectKind::UniformLocation },
            ),
            Command::Uniform1Elapsed { location, .. } => Some(
                Operand { slot: location, kind: ObjectKind::UniformLocation },
            ),
            Command::Uniform1I32Named { program, .. } => Some(
                Operand { slot: program, kind: ObjectKind::Program },
            ),
            Command::BindVertexArray { vertex_array } => operand_of(
                vertex_array,
                ObjectKind::VertexArray,
            ),
            Command::BindBuffer { buffer, .. } => operand_of(buffer, ObjectKind::Buffer),
            Command::BindTexture { texture, .. } => operand_of(texture, ObjectKind::Texture),
            Command::TexImage2D { image, .. } => Some(
                Operand { slot: image, kind: ObjectKind::Image },
            ),
            Command::BindFramebuffer { framebuffer, .. } => operand_of(
                framebuffer,
                ObjectKind::Framebuffer,
            ),
            Command::BindRenderbuffer { renderbuffer, .. } => operand_of(
                renderbuffer,
                ObjectKind::Renderbuffer,
            ),
            Command::FramebufferRenderbuffer { renderbuffer, .. } => operand_of(
                renderbuffer,
                ObjectKind::Renderbuffer,
            ),
            Command::DeleteFramebuffer { framebuffer } => Some(
                Operand { slot: framebuffer, kind: ObjectKind::Framebuffer },
            ),
            _ => None,
        }
    }


    /// Computes `second_operand`.
    pub fn second(&self) -> (operand: Option<Operand>)
        ensures
            operand == self.second_operand(),
    {
        match *self {
            Command::AttachShader { shader, .. } => Some(
                Operand { slot: shader, kind: ObjectKind::Shader },
            ),
            Command::Uniform1Elapsed { timer, .. } => Some(
                Operand { slot: timer, kind: ObjectKind::Timer },
            ),
            _ => None,
        }
    }

    /// Computes `payload`.
    pub fn data_block(&self) -> (block: Option<usize>)
        ensures
            block == self.payload(),
    {
        match *self {
            Command::BufferData { data, .. } => Some(data),
            _ => None,
        }
    }

    /// Computes `deletion`.
    pub fn deletes(&self) -> (slot: Option<usize>)
        ensures
            slot == self.deletion(),
    {
        match *self {
            Command::DeleteShader { shader } => Some(shader),
            Command::DeleteFramebuffer { framebuffer } => Some(framebuffer),
            _ => None,
        }
    }
}

} // verus!
