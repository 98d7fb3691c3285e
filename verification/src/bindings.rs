//! A record of what the commands issued so far have left bound.
//!
//! The record follows the commands and nothing else: a bind sets a binding
//! point, deleting an object resets every binding point that held it, and
//! making a program current replaces the one before. It answers what a
//! binding query would, without asking the driver.

use vstd::prelude::*;
use crate::buffer;
use crate::codes::BufferTarget;
use crate::command::{views, Command, CommandView, NO_OBJECT};
use crate::vertex_array;

verus! {

/// The object names held by the binding points.
#[derive(Clone, Copy, Debug, PartialEq, Eq, Structural)]
pub struct Bindings {
    /// The buffer bound for vertex data.
    pub array_buffer: u32,
    /// The buffer bound for vertex indices.
    pub element_array_buffer: u32,
    /// The bound vertex array.
    pub vertex_array: u32,
    /// The program that draws run.
    pub program: u32,
}

impl Bindings {
    /// The record of a context in which nothing has been bound: every
    /// binding point holds [`NO_OBJECT`].
    pub open spec fn unbound() -> Bindings {
        Bindings {
            array_buffer: NO_OBJECT,
            element_array_buffer: NO_OBJECT,
            vertex_array: NO_OBJECT,
            program: NO_OBJECT,
        }
    }

    /// The buffer bound at `target`.
    pub open spec fn spec_buffer(&self, target: BufferTarget) -> u32 {
        match target {
            BufferTarget::Array => self.array_buffer,
            BufferTarget::ElementArray => self.element_array_buffer,
        }
    }

    /// Whether the buffer object `name` is bound at any binding point.
    pub open spec fn spec_holds_buffer(&self, name: u32) -> bool {
        name != NO_OBJECT && (self.array_buffer == name || self.element_array_buffer == name)
    }

    /// The record after one more command.
    pub open spec fn after(self, call: CommandView) -> Bindings {
        match call {
            CommandView::BindBuffer { target: BufferTarget::Array, buffer } => Bindings {
                array_buffer: buffer,
                ..self
            },
            CommandView::BindBuffer { target: BufferTarget::ElementArray, buffer } => Bindings {
                element_array_buffer: buffer,
                ..self
            },
            CommandView::DeleteBuffers { buffer } => Bindings {
                array_buffer: if self.array_buffer == buffer {
                    NO_OBJECT
                } else {
                    self.array_buffer
                },
                element_array_buffer: if self.element_array_buffer == buffer {
                    NO_OBJECT
                } else {
                    self.element_array_buffer
                },
                ..self
            },
            CommandView::BindVertexArray { array } => Bindings { vertex_array: array, ..self },
            CommandView::DeleteVertexArrays { array } => Bindings {
                vertex_array: if self.vertex_array == array {
                    NO_OBJECT
                } else {
                    self.vertex_array
                },
                ..self
            },
            CommandView::UseProgram { program } => Bindings { program, ..self },
            _ => self,
        }
    }

    /// The record after `calls`, one after the other.
    pub open spec fn after_all(self, calls: Seq<CommandView>) -> Bindings
        decreases calls.len(),
    {
        if calls.len() == 0 {
            self
        } else {
            self.after(calls[0]).after_all(calls.drop_first())
        }
    }

    /// The record of a context in which nothing has been bound.
    pub fn new() -> (bindings: Bindings)
        ensures
            bindings == Bindings::unbound(),
    {
        Bindings {
            array_buffer: NO_OBJECT,
            element_array_buffer: NO_OBJECT,
            vertex_array: NO_OBJECT,
            program: NO_OBJECT,
        }
    }

    /// The buffer bound at `target`; [`NO_OBJECT`] where there is none.
    #[verifier::when_used_as_spec(spec_buffer)]
    pub fn buffer(&self, target: BufferTarget) -> (name: u32)
        ensures
            name == self.spec_buffer(target),
    {
        match target {
            BufferTarget::Array => self.array_buffer,
            BufferTarget::ElementArray => self.element_array_buffer,
        }
    }

    /// Whether the buffer object `name` is bound at any binding point.
    #[verifier::when_used_as_spec(spec_holds_buffer)]
    pub fn holds_buffer(&self, name: u32) -> (held: bool)
        ensures
            held == self.spec_holds_buffer(name),
    {
        name != NO_OBJECT && (self.array_buffer == name || self.element_array_buffer == name)
    }

    /// Records one more command.
    pub fn apply(&mut self, command: &Command)
        ensures
            *final(self) == old(self).after(command@),
    {
        match command {
            Command::BindBuffer { target, buffer } => {
                match target {
                    BufferTarget::Array => {
                        self.array_buffer = *buffer;
                    },
                    BufferTarget::ElementArray => {
                        self.element_array_buffer = *buffer;
                    },
                }
            },
            Command::DeleteBuffers { buffer } => {
                if self.array_buffer == *buffer {
                    self.array_buffer = NO_OBJECT;
                }
                if self.element_array_buffer == *buffer {
                    self.element_array_buffer = NO_OBJECT;
                }
            },
            Command::BindVertexArray { array } => {
                self.vertex_array = *array;
            },
            Command::DeleteVertexArrays { array } => {
                if self.vertex_array == *array {
                    self.vertex_array = NO_OBJECT;
                }
            },
            Command::UseProgram { program } => {
                self.program = *program;
            },
            _ => {},
        }
    }

    /// Records `commands`, one after the other.
    pub fn apply_all(&mut self, commands: &Vec<Command>)
        ensures
            *final(self) == old(self).after_all(views(commands@)),
    {
        let mut recorded: usize = 0;
        assert(commands@.skip(0) =~= commands@);
        while recorded < commands.len()
            invariant
                recorded <= commands.len(),
                self.after_all(views(commands@.skip(recorded as int))) == old(self).after_all(
                    views(commands@),
                ),
            decreases commands.len() - recorded,
        {
            let ghost rest = views(commands@.skip(recorded as int));
            assert(rest.len() > 0 && rest[0] == commands@[recorded as int]@);
            assert(rest.drop_first() =~= views(commands@.skip(recorded + 1)));
            self.apply(&commands[recorded]);
            recorded = recorded + 1;
        }
        assert(views(commands@.skip(recorded as int)) =~= Seq::empty());
    }
}

/// The record after two runs of commands is the record after the first,
/// taken through the second.
pub proof fn lemma_after_all_concat(
    before: Bindings,
    first: Seq<CommandView>,
    second: Seq<CommandView>,
)
    ensures
        before.after_all(first + second) == before.after_all(first).after_all(second),
    decreases first.len(),
{
    if first.len() == 0 {
        assert(first + second =~= second);
    } else {
        assert((first + second).drop_first() =~= first.drop_first() + second);
        lemma_after_all_concat(before.after(first[0]), first.drop_first(), second);
    }
}

/// Giving a buffer up leaves it bound nowhere. Whatever was bound before
/// and whatever commands came first, the binding of the buffer among them,
/// once the commands that release the buffer `name` from `target` have
/// followed nothing is bound at `target`, and no binding point holds `name`.
pub proof fn lemma_released_buffer_is_unbound(
    before: Bindings,
    history: Seq<CommandView>,
    target: BufferTarget,
    name: u32,
)
    ensures
        before.after_all(history + buffer::release_calls(target, name)).spec_buffer(target)
            == NO_OBJECT,
        !before.after_all(history + buffer::release_calls(target, name)).spec_holds_buffer(name),
{
    let calls = buffer::release_calls(target, name);
    let reached = before.after_all(history);
    lemma_after_all_concat(before, history, calls);
    assert(calls.drop_first().drop_first() =~= Seq::empty());
    assert(calls.drop_first()[0] == calls[1]);
    assert(reached.after(calls[0]).after_all(calls.drop_first()) == reached.after(calls[0]).after(
        calls[1],
    ).after_all(calls.drop_first().drop_first()));
    assert(reached.after_all(calls) == reached.after(calls[0]).after(calls[1]));
}

/// Giving a vertex array up leaves none bound. Whatever was bound before
/// and whatever commands came first, once the commands that release the
/// vertex array `name` have followed no vertex array is bound.
pub proof fn lemma_released_vertex_array_is_unbound(
    before: Bindings,
    history: Seq<CommandView>,
    name: u32,
)
    ensures
        before.after_all(history + vertex_array::release_calls(name)).vertex_array == NO_OBJECT,
{
    let calls = vertex_array::release_calls(name);
    let reached = before.after_all(history);
    lemma_after_all_concat(before, history, calls);
    assert(calls.drop_first().drop_first() =~= Seq::empty());
    assert(calls.drop_first()[0] == calls[1]);
    assert(reached.after(calls[0]).after_all(calls.drop_first()) == reached.after(calls[0]).after(
        calls[1],
    ).after_all(calls.drop_first().drop_first()));
    assert(reached.after_all(calls) == reached.after(calls[0]).after(calls[1]));
}

} // verus!
