//! One frame: clear, draw the indexed triangles, present.

use vstd::prelude::*;
use crate::codes::{ClearMask, IndexType, Primitive};
use crate::command::{views, Command, CommandView};

verus! {

/// The red component of the background, 0.25 as a 32-bit float.
pub const CLEAR_RED: u32 = 0x3E80_0000;

/// The green component of the background, 0.3 as a 32-bit float.
pub const CLEAR_GREEN: u32 = 0x3E99_999A;

/// The blue component of the background, 0.3 as a 32-bit float.
pub const CLEAR_BLUE: u32 = 0x3E99_999A;

/// The opacity of the background, 1.0 as a 32-bit float.
pub const CLEAR_ALPHA: u32 = 0x3F80_0000;

/// The one draw of a frame: `count` vertices taken as triangles through
/// unsigned 32-bit indices, from the start of the bound element array
/// buffer.
pub open spec fn draw_call(count: i32) -> CommandView {
    CommandView::DrawElements {
        mode: Primitive::Triangles,
        count,
        index_type: IndexType::UnsignedInt,
        offset: 0,
    }
}

/// The commands of one frame, in order: set the background color, clear
/// the color buffer, draw once, present.
pub open spec fn frame_calls(count: i32) -> Seq<CommandView> {
    seq![
        CommandView::ClearColor {
            red: CLEAR_RED,
            green: CLEAR_GREEN,
            blue: CLEAR_BLUE,
            alpha: CLEAR_ALPHA,
        },
        CommandView::Clear { mask: ClearMask::Color },
        draw_call(count),
        CommandView::SwapWindow,
    ]
}

/// The command that draws `count` indexed vertices.
pub fn draw(count: usize) -> (command: Command)
    requires
        count <= i32::MAX,
    ensures
        command@ == draw_call(count as i32),
{
    Command::DrawElements {
        mode: Primitive::Triangles,
        count: count as i32,
        index_type: IndexType::UnsignedInt,
        offset: 0,
    }
}

/// The commands of one frame that draws `count` indexed vertices.
pub fn frame(count: usize) -> (commands: Vec<Command>)
    requires
        count <= i32::MAX,
    ensures
        views(commands@) == frame_calls(count as i32),
{
    let commands = vec![
        Command::ClearColor {
            red: CLEAR_RED,
            green: CLEAR_GREEN,
            blue: CLEAR_BLUE,
            alpha: CLEAR_ALPHA,
        },
        Command::Clear { mask: ClearMask::Color },
        draw(count),
        Command::SwapWindow,
    ];
    assert(views(commands@) =~= frame_calls(count as i32));
    commands
}

/// A frame draws exactly once: of its commands the third is the indexed
/// draw of `count` vertices, and no other is a draw.
pub proof fn lemma_frame_draws_once(count: i32)
    ensures
        frame_calls(count)[2] == draw_call(count),
        forall|at: int|
            0 <= at < frame_calls(count).len() && frame_calls(count)[at] is DrawElements ==> at
                == 2,
{
}

} // verus!
