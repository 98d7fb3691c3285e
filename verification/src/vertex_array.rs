//! The vertex array object: how the bytes of the bound array buffer map to
//! the inputs of the vertex stage.

use vstd::prelude::*;
use crate::buffer::WORD_BYTES;
use crate::codes::ComponentType;
use crate::command::{views, Command, CommandView, Reply, NO_OBJECT};

verus! {

/// The slot of the one attribute, the position of a vertex.
pub const POSITION_SLOT: u32 = 0;

/// The number of components of a position.
pub const POSITION_COMPONENTS: i32 = 2;

/// The commands that declare the layout: one attribute at
/// [`POSITION_SLOT`], made of [`POSITION_COMPONENTS`] floating-point
/// components that are not normalized, each vertex following the last
/// without padding, the first at the start of the buffer.
pub open spec fn layout_calls() -> Seq<CommandView> {
    seq![
        CommandView::EnableVertexAttribArray { index: POSITION_SLOT },
        CommandView::VertexAttribPointer {
            index: POSITION_SLOT,
            size: POSITION_COMPONENTS,
            kind: ComponentType::Float,
            normalized: false,
            stride: (POSITION_COMPONENTS * WORD_BYTES) as i32,
            offset: 0,
        },
    ]
}

/// The commands that give up the vertex array `name`: unbind whatever
/// vertex array is bound, then delete it.
pub open spec fn release_calls(name: u32) -> Seq<CommandView> {
    seq![
        CommandView::BindVertexArray { array: NO_OBJECT },
        CommandView::DeleteVertexArrays { array: name },
    ]
}

/// A vertex array object, known by the name the driver gave it.
#[derive(Debug, PartialEq, Eq)]
pub struct Vao {
    id: u32,
}

impl View for Vao {
    type V = u32;

    /// The name of the vertex array object.
    closed spec fn view(&self) -> u32 {
        self.id
    }
}

impl Vao {
    /// The command that generates the name of a new vertex array object.
    pub fn request() -> (command: Command)
        ensures
            command@ == CommandView::GenVertexArrays,
    {
        Command::GenVertexArrays
    }

    /// The vertex array object that the driver named in `reply`, the answer
    /// to [`Vao::request`]. Without a name in the reply the vertex array is
    /// [`NO_OBJECT`], as it is where the driver generates nothing.
    pub fn gen(reply: &Reply) -> (vao: Vao)
        ensures
            vao@ == reply@.name(),
    {
        Vao { id: reply.name() }
    }

    /// The name of the vertex array object.
    pub fn id(&self) -> (id: u32)
        ensures
            id == self@,
    {
        self.id
    }

    /// The commands that bind the vertex array and then declare the layout.
    pub fn set(&self) -> (commands: Vec<Command>)
        ensures
            views(commands@) == seq![CommandView::BindVertexArray { array: self@ }]
                + layout_calls(),
    {
        let mut commands = vec![self.bind()];
        let mut layout = self.setup();
        commands.append(&mut layout);
        assert(views(commands@) =~= seq![CommandView::BindVertexArray { array: self@ }]
            + layout_calls());
        commands
    }

    /// The commands that declare the layout of the bound array buffer.
    pub fn setup(&self) -> (commands: Vec<Command>)
        ensures
            views(commands@) == layout_calls(),
    {
        let stride = POSITION_COMPONENTS * (WORD_BYTES as i32);
        let commands = vec![
            Command::EnableVertexAttribArray { index: POSITION_SLOT },
            Command::VertexAttribPointer {
                index: POSITION_SLOT,
                size: POSITION_COMPONENTS,
                kind: ComponentType::Float,
                normalized: false,
                stride,
                offset: 0,
            },
        ];
        assert(views(commands@) =~= layout_calls());
        commands
    }

    /// The command that binds the vertex array.
    pub fn bind(&self) -> (command: Command)
        ensures
            command@ == (CommandView::BindVertexArray { array: self@ }),
    {
        Command::BindVertexArray { array: self.id }
    }

    /// The command that leaves no vertex array bound.
    pub fn unbind(&self) -> (command: Command)
        ensures
            command@ == (CommandView::BindVertexArray { array: NO_OBJECT }),
    {
        Command::BindVertexArray { array: NO_OBJECT }
    }

    /// The command that deletes the vertex array.
    pub fn delete(&self) -> (command: Command)
        ensures
            command@ == (CommandView::DeleteVertexArrays { array: self@ }),
    {
        Command::DeleteVertexArrays { array: self.id }
    }

    /// Gives the vertex array up: unbind first, then delete. The vertex
    /// array cannot be used afterwards.
    pub fn release(self) -> (commands: Vec<Command>)
        ensures
            views(commands@) == release_calls(self@),
    {
        let commands = vec![self.unbind(), self.delete()];
        assert(views(commands@) =~= release_calls(self@));
        commands
    }
}

} // verus!
