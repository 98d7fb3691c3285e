//! Buffer objects: vertex data and vertex indices.

use vstd::prelude::*;
use crate::codes::{BufferTarget, BufferUsage};
use crate::command::{views, Command, CommandView, Reply, NO_OBJECT};

verus! {

/// The size in bytes of one 32-bit word of buffer data.
pub const WORD_BYTES: usize = 4;

/// The upload that replaces the whole data store of the buffer bound to
/// `target` by the words of `data`, for drawing many times.
pub open spec fn upload_call(target: BufferTarget, data: Seq<u32>) -> CommandView {
    CommandView::BufferData {
        target,
        size: (data.len() * WORD_BYTES) as isize,
        data,
        usage: BufferUsage::StaticDraw,
    }
}

/// The commands that give up the buffer `name` bound at `target`: unbind
/// whatever is bound there, then delete the buffer.
pub open spec fn release_calls(target: BufferTarget, name: u32) -> Seq<CommandView> {
    seq![
        CommandView::BindBuffer { target, buffer: NO_OBJECT },
        CommandView::DeleteBuffers { buffer: name },
    ]
}

fn upload(target: BufferTarget, data: &Vec<u32>) -> (command: Command)
    requires
        data.len() * WORD_BYTES <= isize::MAX,
    ensures
        command@ == upload_call(target, data@),
{
    let size = (data.len() * WORD_BYTES) as isize;
    Command::BufferData { target, size, data: data.clone(), usage: BufferUsage::StaticDraw }
}

fn release(target: BufferTarget, name: u32) -> (commands: Vec<Command>)
    ensures
        views(commands@) == release_calls(target, name),
{
    let commands = vec![
        Command::BindBuffer { target, buffer: NO_OBJECT },
        Command::DeleteBuffers { buffer: name },
    ];
    assert(views(commands@) =~= release_calls(target, name));
    commands
}

/// A buffer object that holds vertex data, known by the name the driver gave
/// it. It is bound at [`BufferTarget::Array`] and nowhere else.
#[derive(Debug, PartialEq, Eq)]
pub struct Vbo {
    id: u32,
}

impl View for Vbo {
    type V = u32;

    /// The name of the buffer object.
    closed spec fn view(&self) -> u32 {
        self.id
    }
}

impl Vbo {
    /// The command that generates the name of a new buffer object.
    pub fn request() -> (command: Command)
        ensures
            command@ == CommandView::GenBuffers,
    {
        Command::GenBuffers
    }

    /// The buffer object that the driver named in `reply`, the answer to
    /// [`Vbo::request`]. Without a name in the reply the buffer is
    /// [`NO_OBJECT`], as it is where the driver generates nothing.
    pub fn gen(reply: &Reply) -> (vbo: Vbo)
        ensures
            vbo@ == reply@.name(),
    {
        Vbo { id: reply.name() }
    }

    /// The name of the buffer object.
    pub fn id(&self) -> (id: u32)
        ensures
            id == self@,
    {
        self.id
    }

    /// The commands that bind the buffer and then upload `data` to it.
    pub fn set(&self, data: &Vec<u32>) -> (commands: Vec<Command>)
        requires
            data.len() * WORD_BYTES <= isize::MAX,
        ensures
            views(commands@) == seq![
                CommandView::BindBuffer { target: BufferTarget::Array, buffer: self@ },
                upload_call(BufferTarget::Array, data@),
            ],
    {
        let commands = vec![self.bind(), self.data(data)];
        assert(views(commands@) =~= seq![
            CommandView::BindBuffer { target: BufferTarget::Array, buffer: self@ },
            upload_call(BufferTarget::Array, data@),
        ]);
        commands
    }

    /// The command that uploads `data` to the bound array buffer, replacing
    /// all it held. Each word is the bit pattern of one 32-bit
    /// floating-point component; `size` counts them in bytes.
    pub fn data(&self, data: &Vec<u32>) -> (command: Command)
        requires
            data.len() * WORD_BYTES <= isize::MAX,
        ensures
            command@ == upload_call(BufferTarget::Array, data@),
    {
        upload(BufferTarget::Array, data)
    }

    /// The command that binds the buffer.
    pub fn bind(&self) -> (command: Command)
        ensures
            command@ == (CommandView::BindBuffer { target: BufferTarget::Array, buffer: self@ }),
    {
        Command::BindBuffer { target: BufferTarget::Array, buffer: self.id }
    }

    /// The command that leaves no array buffer bound.
    pub fn unbind(&self) -> (command: Command)
        ensures
            command@ == (CommandView::BindBuffer { target: BufferTarget::Array, buffer: NO_OBJECT }),
    {
        Command::BindBuffer { target: BufferTarget::Array, buffer: NO_OBJECT }
    }

    /// The command that deletes the buffer.
    pub fn delete(&self) -> (command: Command)
        ensures
            command@ == (CommandView::DeleteBuffers { buffer: self@ }),
    {
        Command::DeleteBuffers { buffer: self.id }
    }

    /// Gives the buffer up: unbind first, then delete. The buffer cannot be
    /// used afterwards.
    pub fn release(self) -> (commands: Vec<Command>)
        ensures
            views(commands@) == release_calls(BufferTarget::Array, self@),
    {
        release(BufferTarget::Array, self.id)
    }
}

/// A buffer object that holds vertex indices, known by the name the driver
/// gave it. It is bound at [`BufferTarget::ElementArray`] and nowhere else.
#[derive(Debug, PartialEq, Eq)]
pub struct Ebo {
    id: u32,
}

impl View for Ebo {
    type V = u32;

    /// The name of the buffer object.
    closed spec fn view(&self) -> u32 {
        self.id
    }
}

impl Ebo {
    /// The command that generates the name of a new buffer object.
    pub fn request() -> (command: Command)
        ensures
            command@ == CommandView::GenBuffers,
    {
        Command::GenBuffers
    }

    /// The buffer object that the driver named in `reply`, the answer to
    /// [`Ebo::request`]. Without a name in the reply the buffer is
    /// [`NO_OBJECT`], as it is where the driver generates nothing.
    pub fn gen(reply: &Reply) -> (ebo: Ebo)
        ensures
            ebo@ == reply@.name(),
    {
        Ebo { id: reply.name() }
    }

    /// The name of the buffer object.
    pub fn id(&self) -> (id: u32)
        ensures
            id == self@,
    {
        self.id
    }

    /// The commands that bind the buffer and then upload `indices` to it.
    pub fn set(&self, indices: &Vec<u32>) -> (commands: Vec<Command>)
        requires
            indices.len() * WORD_BYTES <= isize::MAX,
        ensures
            views(commands@) == seq![
                CommandView::BindBuffer { target: BufferTarget::ElementArray, buffer: self@ },
                upload_call(BufferTarget::ElementArray, indices@),
            ],
    {
        let commands = vec![self.bind(), self.data(indices)];
        assert(views(commands@) =~= seq![
            CommandView::BindBuffer { target: BufferTarget::ElementArray, buffer: self@ },
            upload_call(BufferTarget::ElementArray, indices@),
        ]);
        commands
    }

    /// The command that uploads `indices` to the bound element array
    /// buffer, replacing all it held. Each word is one unsigned 32-bit
    /// index; `size` counts them in bytes.
    pub fn data(&self, indices: &Vec<u32>) -> (command: Command)
        requires
            indices.len() * WORD_BYTES <= isize::MAX,
        ensures
            command@ == upload_call(BufferTarget::ElementArray, indices@),
    {
        upload(BufferTarget::ElementArray, indices)
    }

    /// The command that binds the buffer.
    pub fn bind(&self) -> (command: Command)
        ensures
            command@ == (CommandView::BindBuffer {
                target: BufferTarget::ElementArray,
                buffer: self@,
            }),
    {
        Command::BindBuffer { target: BufferTarget::ElementArray, buffer: self.id }
    }

    /// The command that leaves no element array buffer bound.
    pub fn unbind(&self) -> (command: Command)
        ensures
            command@ == (CommandView::BindBuffer { target: BufferTarget::ElementArray, buffer: NO_OBJECT }),
    {
        Command::BindBuffer { target: BufferTarget::ElementArray, buffer: NO_OBJECT }
    }

    /// The command that deletes the buffer.
    pub fn delete(&self) -> (command: Command)
        ensures
            command@ == (CommandView::DeleteBuffers { buffer: self@ }),
    {
        Command::DeleteBuffers { buffer: self.id }
    }

    /// Gives the buffer up: unbind first, then delete. The buffer cannot be
    /// used afterwards.
    pub fn release(self) -> (commands: Vec<Command>)
        ensures
            views(commands@) == release_calls(BufferTarget::ElementArray, self@),
    {
        release(BufferTarget::ElementArray, self.id)
    }
}

} // verus!
