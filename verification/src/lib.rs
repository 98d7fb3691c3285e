//! A triangle pipeline for an OpenGL 3.3 core context, written without I/O.
//!
//! Nothing in this crate touches a window or a graphics driver. Every
//! operation is expressed as the [`command::Command`]s that the driver has to
//! be asked to perform, and every answer of the driver comes back as a
//! [`command::Reply`]. The program that owns the window executes the commands
//! in the order given and feeds the replies back; what to ask next, and what
//! an answer means, is decided here.

pub mod codes;
pub mod command;
pub mod text;
pub mod shader;
pub mod program;
pub mod buffer;
pub mod vertex_array;
pub mod bindings;
pub mod frame;
pub mod event;
pub mod window;

