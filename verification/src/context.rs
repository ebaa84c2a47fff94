//! The recording graphics context.
//!
//! A render handler does not talk to the driver. It records commands into a
//! `Context`; the window takes what was recorded out as a `Frame`, and a
//! backend carries the frame out. The context hands out the slots by which
//! commands name the objects they create.

use crate::command::{Command, ObjectKind};
use vstd::prelude::*;

verus! {

/// The commands recorded during one call of a handler, with the data blocks
/// that its buffer uploads refer to.
#[derive(Debug)]
pub struct Frame {
    pub commands: Vec<Command>,
    pub data: Vec<Vec<u8>>,
}

/// A graphics context that records what it is asked to do.
pub struct Context {
    commands: Vec<Command>,
    data: Vec<Vec<u8>>,
    objects: Vec<ObjectKind>,
}

/// What a context holds: the commands and data blocks recorded since the last
/// frame was taken, and the kind of every slot handed out so far.
pub struct ContextView {
    pub commands: Seq<Command>,
    pub data: Seq<Vec<u8>>,
    pub objects: Seq<ObjectKind>,
}

impl View for Context {
    type V = ContextView;

    closed spec fn view(&self) -> ContextView {
        ContextView { commands: self.commands@, data: self.data@, objects: self.objects@ }
    }
}

/// The slots after `command` has been recorded: a command that binds the
/// next free slot takes it.
pub open spec fn objects_with(objects: Seq<ObjectKind>, command: Command) -> Seq<ObjectKind> {
    match command.binding() {
        Some(operand) if operand.slot == objects.len() => objects.push(operand.kind),
        _ => objects,
    }
}

impl Context {
    /// A context with nothing recorded and no slot handed out.
    pub fn new() -> (gl: Context)
        ensures
            gl@.commands == Seq::<Command>::empty(),
            gl@.data == Seq::<Vec<u8>>::empty(),
            gl@.objects == Seq::<ObjectKind>::empty(),
    {
        Context { commands: Vec::new(), data: Vec::new(), objects: Vec::new() }
    }

    /// The slot that the next binding command will get.
    pub fn next_slot(&self) -> (slot: usize)
        ensures
            slot == self@.objects.len(),
    {
        self.objects.len()
    }

    /// The number of the data block that the next upload will get.
    pub fn next_data(&self) -> (index: usize)
        ensures
            index == self@.data.len(),
    {
        self.data.len()
    }

    /// Records one command.
    pub fn record(&mut self, command: Command)
        ensures
            final(self)@.commands == old(self)@.commands.push(command),
            final(self)@.data == old(self)@.data,
            final(self)@.objects == objects_with(old(self)@.objects, command),
    {
        match command.binds() {
            Some(operand) => {
                if operand.slot == self.objects.len() {
                    self.objects.push(operand.kind);
                }
            },
            None => {},
        }
        self.commands.push(command);
    }

    /// Asks for a shader of the given stage and returns its slot.
    pub fn create_shader(&mut self, shader_type: u32) -> (slot: usize)
        ensures
            slot == old(self)@.objects.len(),
            final(self)@.commands == old(self)@.commands.push(
                Command::CreateShader { slot, shader_type },
            ),
            final(self)@.data == old(self)@.data,
            final(self)@.objects == old(self)@.objects.push(ObjectKind::Shader),
    {
        let slot = self.objects.len();
        self.record(Command::CreateShader { slot, shader_type });
        slot
    }

    /// Asks for a program and returns its slot.
    pub fn create_program(&mut self) -> (slot: usize)
        ensures
            slot == old(self)@.objects.len(),
            final(self)@.commands == old(self)@.commands.push(Command::CreateProgram { slot }),
            final(self)@.data == old(self)@.data,
            final(self)@.objects == old(self)@.objects.push(ObjectKind::Program),
    {
        let slot = self.objects.len();
        self.record(Command::CreateProgram { slot });
        slot
    }

    /// Asks for a vertex array object and returns its slot.
    pub fn create_vertex_array(&mut self) -> (slot: usize)
        ensures
            slot == old(self)@.objects.len(),
            final(self)@.commands == old(self)@.commands.push(Command::CreateVertexArray { slot }),
            final(self)@.data == old(self)@.data,
            final(self)@.objects == old(self)@.objects.push(ObjectKind::VertexArray),
    {
        let slot = self.objects.len();
        self.record(Command::CreateVertexArray { slot });
        slot
    }

    /// Asks for a buffer object and returns its slot.
    pub fn create_buffer(&mut self) -> (slot: usize)
        ensures
            slot == old(self)@.objects.len(),
            final(self)@.commands == old(self)@.commands.push(Command::CreateBuffer { slot }),
            final(self)@.data == old(self)@.data,
            final(self)@.objects == old(self)@.objects.push(ObjectKind::Buffer),
    {
        let slot = self.objects.len();
        self.record(Command::CreateBuffer { slot });
        slot
    }

    /// Asks for a texture and returns its slot.
    pub fn create_texture(&mut self) -> (slot: usize)
        ensures
            slot == old(self)@.objects.len(),
            final(self)@.commands == old(self)@.commands.push(Command::CreateTexture { slot }),
            final(self)@.data == old(self)@.data,
            final(self)@.objects == old(self)@.objects.push(ObjectKind::Texture),
    {
        let slot = self.objects.len();
        self.record(Command::CreateTexture { slot });
        slot
    }

    /// Asks for a framebuffer object and returns its slot.
    pub fn create_framebuffer(&mut self) -> (slot: usize)
        ensures
            slot == old(self)@.objects.len(),
            final(self)@.commands == old(self)@.commands.push(Command::CreateFramebuffer { slot }),
            final(self)@.data == old(self)@.data,
            final(self)@.objects == old(self)@.objects.push(ObjectKind::Framebuffer),
    {
        let slot = self.objects.len();
        self.record(Command::CreateFramebuffer { slot });
        slot
    }

    /// Asks for a renderbuffer and returns its slot.
    pub fn create_renderbuffer(&mut self) -> (slot: usize)
        ensures
            slot == old(self)@.objects.len(),
            final(self)@.commands == old(self)@.commands.push(
                Command::CreateRenderbuffer { slot },
            ),
            final(self)@.data == old(self)@.data,
            final(self)@.objects == old(self)@.objects.push(ObjectKind::Renderbuffer),
    {
        let slot = self.objects.len();
        self.record(Command::CreateRenderbuffer { slot });
        slot
    }

    /// Asks for the location of the uniform `name` of `program` and returns
    /// the slot of the location.
    pub fn get_uniform_location(&mut self, program: usize, name: &'static str) -> (slot: usize)
        ensures
            slot == old(self)@.objects.len(),
            final(self)@.commands == old(self)@.commands.push(
                Command::GetUniformLocation { slot, program, name },
            ),
            final(self)@.data == old(self)@.data,
            final(self)@.objects == old(self)@.objects.push(ObjectKind::UniformLocation),
    {
        let slot = self.objects.len();
        self.record(Command::GetUniformLocation { slot, program, name });
        slot
    }

    /// Asks for the image file at `path` to be decoded and returns the slot
    /// of the image.
    pub fn load_image(&mut self, path: &'static str) -> (slot: usize)
        ensures
            slot == old(self)@.objects.len(),
            final(self)@.commands == old(self)@.commands.push(Command::LoadImage { slot, path }),
            final(self)@.data == old(self)@.data,
            final(self)@.objects == old(self)@.objects.push(ObjectKind::Image),
    {
        let slot = self.objects.len();
        self.record(Command::LoadImage { slot, path });
        slot
    }

    /// Asks for the current time to be remembered and returns the slot of the
    /// timer.
    pub fn start_timer(&mut self) -> (slot: usize)
        ensures
            slot == old(self)@.objects.len(),
            final(self)@.commands == old(self)@.commands.push(Command::StartTimer { slot }),
            final(self)@.data == old(self)@.data,
            final(self)@.objects == old(self)@.objects.push(ObjectKind::Timer),
    {
        let slot = self.objects.len();
        self.record(Command::StartTimer { slot });
        slot
    }

    /// Records the upload of `bytes` to the buffer bound to `target`. The
    /// bytes become the next data block of the frame.
    pub fn buffer_data_u8_slice(&mut self, target: u32, bytes: Vec<u8>, usage: u32)
        ensures
            final(self)@.commands == old(self)@.commands.push(
                Command::BufferData { target, data: old(self)@.data.len() as usize, usage },
            ),
            final(self)@.data == old(self)@.data.push(bytes),
            final(self)@.objects == old(self)@.objects,
    {
        let data = self.data.len();
        self.data.push(bytes);
        self.record(Command::BufferData { target, data, usage });
    }

    /// Takes out what has been recorded since the last frame was taken. The
    /// slots handed out stay as they are.
    pub fn take_frame(&mut self) -> (frame: Frame)
        ensures
            frame.commands@ == old(self)@.commands,
            frame.data@ == old(self)@.data,
            final(self)@.commands == Seq::<Command>::empty(),
            final(self)@.data == Seq::<Vec<u8>>::empty(),
            final(self)@.objects == old(self)@.objects,
    {
        let mut commands: Vec<Command> = Vec::new();
        let mut data: Vec<Vec<u8>> = Vec::new();
        std::mem::swap(&mut commands, &mut self.commands);
        std::mem::swap(&mut data, &mut self.data);
        Frame { commands, data }
    }
}

} // verus!
