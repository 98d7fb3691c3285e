//! What the driver is asked to do, and what it answers.

use vstd::prelude::*;
use crate::codes::{
    BufferTarget, BufferUsage, ClearMask, ComponentType, IndexType, Primitive, ProgramParam,
    ShaderKind, ShaderParam,
};

verus! {

/// The name that no object has. The driver gives it where it creates
/// nothing, and binding it leaves nothing bound.
pub const NO_OBJECT: u32 = 0;

/// The status that a status query starts from. The driver overwrites it
/// with zero where it refused; where it writes nothing the query reads as
/// accepted.
pub const STATUS_PRESET: i32 = 1;

/// The length that a query for the length of a log starts from.
pub const LENGTH_PRESET: i32 = 0;

/// One request to the graphics driver or to the window that presents its
/// output. Each variant stands for one entry point; object names, sizes and
/// offsets are carried as the plain numbers the entry point takes.
///
/// Floating-point arguments are carried as IEEE-754 bit patterns.
#[derive(Clone, Debug, PartialEq, Eq)]
#[allow(inconsistent_fields)]
pub enum Command {
    /// Create an empty shader object. Answered by its name.
    CreateShader { kind: ShaderKind },
    /// Replace the source text of a shader object.
    ShaderSource { shader: u32, source: Vec<u8> },
    /// Compile the source text of a shader object.
    CompileShader { shader: u32 },
    /// Query a parameter of a shader object. Answered by its value, which
    /// is `preset` where the driver writes none.
    GetShaderiv { shader: u32, param: ShaderParam, preset: i32 },
    /// Read the information log of a shader object into `buffer`, writing at
    /// most `capacity` bytes. Answered by the buffer as the driver left it.
    GetShaderInfoLog { shader: u32, capacity: i32, buffer: Vec<u8> },
    /// Delete a shader object.
    DeleteShader { shader: u32 },
    /// Create an empty program object. Answered by its name.
    CreateProgram,
    /// Attach a shader object to a program object.
    AttachShader { program: u32, shader: u32 },
    /// Link the shaders attached to a program object.
    LinkProgram { program: u32 },
    /// Query a parameter of a program object. Answered by its value, which
    /// is `preset` where the driver writes none.
    GetProgramiv { program: u32, param: ProgramParam, preset: i32 },
    /// Read the information log of a program object into `buffer`, writing
    /// at most `capacity` bytes. Answered by the buffer as the driver left it.
    GetProgramInfoLog { program: u32, capacity: i32, buffer: Vec<u8> },
    /// Make a program object part of the current rendering state.
    UseProgram { program: u32 },
    /// Delete a program object.
    DeleteProgram { program: u32 },
    /// Generate one buffer object name. Answered by the name, which is
    /// [`NO_OBJECT`] where the driver writes none.
    GenBuffers,
    /// Bind a buffer object to a binding point; the name zero unbinds.
    BindBuffer { target: BufferTarget, buffer: u32 },
    /// Replace the whole data store of the buffer bound to `target` by
    /// `size` bytes, taken from the 32-bit words of `data`.
    BufferData { target: BufferTarget, size: isize, data: Vec<u32>, usage: BufferUsage },
    /// Delete one buffer object.
    DeleteBuffers { buffer: u32 },
    /// Generate one vertex array object name. Answered by the name, which
    /// is [`NO_OBJECT`] where the driver writes none.
    GenVertexArrays,
    /// Bind a vertex array object; the name zero unbinds.
    BindVertexArray { array: u32 },
    /// Delete one vertex array object.
    DeleteVertexArrays { array: u32 },
    /// Enable the vertex attribute at a slot.
    EnableVertexAttribArray { index: u32 },
    /// Describe where the vertex attribute at a slot is found in the bound
    /// array buffer.
    VertexAttribPointer {
        index: u32,
        size: i32,
        kind: ComponentType,
        normalized: bool,
        stride: i32,
        offset: usize,
    },
    /// Set the color that a clear writes.
    ClearColor { red: u32, green: u32, blue: u32, alpha: u32 },
    /// Clear part of the framebuffer.
    Clear { mask: ClearMask },
    /// Draw `count` indexed vertices from the bound element array buffer.
    DrawElements { mode: Primitive, count: i32, index_type: IndexType, offset: usize },
    /// Present the frame that was drawn.
    SwapWindow,
}

/// The mathematical value of a [`Command`].
#[allow(inconsistent_fields)]
pub ghost enum CommandView {
    CreateShader { kind: ShaderKind },
    ShaderSource { shader: u32, source: Seq<u8> },
    CompileShader { shader: u32 },
    GetShaderiv { shader: u32, param: ShaderParam, preset: i32 },
    GetShaderInfoLog { shader: u32, capacity: i32, buffer: Seq<u8> },
    DeleteShader { shader: u32 },
    CreateProgram,
    AttachShader { program: u32, shader: u32 },
    LinkProgram { program: u32 },
    GetProgramiv { program: u32, param: ProgramParam, preset: i32 },
    GetProgramInfoLog { program: u32, capacity: i32, buffer: Seq<u8> },
    UseProgram { program: u32 },
    DeleteProgram { program: u32 },
    GenBuffers,
    BindBuffer { target: BufferTarget, buffer: u32 },
    BufferData { target: BufferTarget, size: isize, data: Seq<u32>, usage: BufferUsage },
    DeleteBuffers { buffer: u32 },
    GenVertexArrays,
    BindVertexArray { array: u32 },
    DeleteVertexArrays { array: u32 },
    EnableVertexAttribArray { index: u32 },
    VertexAttribPointer {
        index: u32,
        size: i32,
        kind: ComponentType,
        normalized: bool,
        stride: i32,
        offset: usize,
    },
    ClearColor { red: u32, green: u32, blue: u32, alpha: u32 },
    Clear { mask: ClearMask },
    DrawElements { mode: Primitive, count: i32, index_type: IndexType, offset: usize },
    SwapWindow,
}

impl View for Command {
    type V = CommandView;

    open spec fn view(&self) -> CommandView {
        match *self {
            Command::CreateShader { kind } => CommandView::CreateShader { kind },
            Command::ShaderSource { shader, source } => CommandView::ShaderSource {
                shader,
                source: source@,
            },
            Command::CompileShader { shader } => CommandView::CompileShader { shader },
            Command::GetShaderiv { shader, param, preset } => CommandView::GetShaderiv {
                shader,
                param,
                preset,
            },
            Command::GetShaderInfoLog { shader, capacity, buffer } => CommandView::GetShaderInfoLog {
                shader,
                capacity,
                buffer: buffer@,
            },
            Command::DeleteShader { shader } => CommandView::DeleteShader { shader },
            Command::CreateProgram => CommandView::CreateProgram,
            Command::AttachShader { program, shader } => CommandView::AttachShader {
                program,
                shader,
            },
            Command::LinkProgram { program } => CommandView::LinkProgram { program },
            Command::GetProgramiv { program, param, preset } => CommandView::GetProgramiv {
                program,
                param,
                preset,
            },
            Command::GetProgramInfoLog {
                program,
                capacity,
                buffer,
            } => CommandView::GetProgramInfoLog { program, capacity, buffer: buffer@ },
            Command::UseProgram { program } => CommandView::UseProgram { program },
            Command::DeleteProgram { program } => CommandView::DeleteProgram { program },
            Command::GenBuffers => CommandView::GenBuffers,
            Command::BindBuffer { target, buffer } => CommandView::BindBuffer { target, buffer },
            Command::BufferData { target, size, data, usage } => CommandView::BufferData {
                target,
                size,
                data: data@,
                usage,
            },
            Command::DeleteBuffers { buffer } => CommandView::DeleteBuffers { buffer },
            Command::GenVertexArrays => CommandView::GenVertexArrays,
            Command::BindVertexArray { array } => CommandView::BindVertexArray { array },
            Command::DeleteVertexArrays { array } => CommandView::DeleteVertexArrays { array },
            Command::EnableVertexAttribArray { index } => CommandView::EnableVertexAttribArray {
                index,
            },
            Command::VertexAttribPointer {
                index,
                size,
                kind,
                normalized,
                stride,
                offset,
            } => CommandView::VertexAttribPointer { index, size, kind, normalized, stride, offset },
            Command::ClearColor { red, green, blue, alpha } => CommandView::ClearColor {
                red,
                green,
                blue,
                alpha,
            },
            Command::Clear { mask } => CommandView::Clear { mask },
            Command::DrawElements { mode, count, index_type, offset } => CommandView::DrawElements {
                mode,
                count,
                index_type,
                offset,
            },
            Command::SwapWindow => CommandView::SwapWindow,
        }
    }
}

/// The values of a list of commands, in the same order.
pub open spec fn views(commands: Seq<Command>) -> Seq<CommandView> {
    commands.map_values(|command: Command| command@)
}

/// What came back from the driver after one [`Command`].
///
/// A reply that does not carry what the command is answered by says that
/// the driver wrote nothing: the answer is then what the command started
/// from.
#[derive(Clone, Debug, PartialEq, Eq)]
pub enum Reply {
    /// The command has no answer, or the driver gave none.
    Done,
    /// The name of an object that was created or generated.
    Name(u32),
    /// The value of a queried parameter.
    Value(i32),
    /// The bytes of a buffer that the driver wrote to.
    Text(Vec<u8>),
}

/// The mathematical value of a [`Reply`].
pub ghost enum ReplyView {
    Done,
    Name(u32),
    Value(i32),
    Text(Seq<u8>),
}

impl ReplyView {
    /// The reply read as an object name: the name it carries, or
    /// [`NO_OBJECT`] where it carries none.
    pub open spec fn name(self) -> u32 {
        match self {
            ReplyView::Name(name) => name,
            _ => NO_OBJECT,
        }
    }

    /// The reply read as the value of a parameter: the value it carries, or
    /// `preset` where it carries none.
    pub open spec fn value_or(self, preset: i32) -> i32 {
        match self {
            ReplyView::Value(value) => value,
            _ => preset,
        }
    }

    /// The reply read as what a buffer holds after the driver has written
    /// to it: the bytes the reply carries laid over the start of `buffer`,
    /// what the buffer held before, and cut at its end. A reply that
    /// carries no bytes leaves the buffer as it was.
    pub open spec fn text_over(self, buffer: Seq<u8>) -> Seq<u8> {
        match self {
            ReplyView::Text(bytes) => Seq::new(
                buffer.len(),
                |at: int|
                    if at < bytes.len() {
                        bytes[at]
                    } else {
                        buffer[at]
                    },
            ),
            _ => buffer,
        }
    }
}

impl View for Reply {
    type V = ReplyView;

    open spec fn view(&self) -> ReplyView {
        match *self {
            Reply::Done => ReplyView::Done,
            Reply::Name(name) => ReplyView::Name(name),
            Reply::Value(value) => ReplyView::Value(value),
            Reply::Text(bytes) => ReplyView::Text(bytes@),
        }
    }
}

impl Reply {
    /// The reply read as an object name: the name it carries, or
    /// [`NO_OBJECT`] where it carries none.
    pub fn name(&self) -> (name: u32)
        ensures
            name == self@.name(),
    {
        match self {
            Reply::Name(name) => *name,
            _ => NO_OBJECT,
        }
    }

    /// The reply read as the value of a parameter: the value it carries, or
    /// `preset` where it carries none.
    pub fn value_or(&self, preset: i32) -> (value: i32)
        ensures
            value == self@.value_or(preset),
    {
        match self {
            Reply::Value(value) => *value,
            _ => preset,
        }
    }

    /// The reply read as what a buffer holds after the driver has written
    /// to it: the bytes the reply carries laid over the start of `buffer`
    /// and cut at its end, or `buffer` as it was where the reply carries
    /// none.
    pub fn text_over(&self, buffer: Vec<u8>) -> (bytes: Vec<u8>)
        ensures
            bytes@ == self@.text_over(buffer@),
    {
        let mut bytes = buffer;
        match self {
            Reply::Text(written) => {
                let ghost before = bytes@;
                let mut at: usize = 0;
                while at < bytes.len() && at < written.len()
                    invariant
                        at <= bytes.len(),
                        at <= written.len(),
                        bytes@.len() == before.len(),
                        forall|laid: int| 0 <= laid < at ==> bytes@[laid] == written@[laid],
                        forall|kept: int| at <= kept < bytes@.len() ==> bytes@[kept] == before[kept],
                    decreases bytes.len() - at,
                {
                    bytes.set(at, written[at]);
                    at = at + 1;
                }
                assert(bytes@ =~= self@.text_over(before));
            },
            _ => {},
        }
        bytes
    }
}

/// The values of a list of replies, in the same order.
pub open spec fn reply_views(replies: Seq<Reply>) -> Seq<ReplyView> {
    replies.map_values(|reply: Reply| reply@)
}

} // verus!
