use triangle_gl::bindings::Bindings;
use triangle_gl::buffer::{Ebo, Vbo};
use triangle_gl::codes::BufferTarget;
use triangle_gl::command::{Command, Reply, NO_OBJECT};
use triangle_gl::vertex_array::Vao;

#[test]
fn fresh_record_has_nothing_bound() {
    let bindings = Bindings::new();
    assert_eq!(NO_OBJECT, 0);
    assert_eq!(bindings.buffer(BufferTarget::Array), NO_OBJECT);
    assert_eq!(bindings.buffer(BufferTarget::ElementArray), NO_OBJECT);
    assert_eq!(bindings.vertex_array, NO_OBJECT);
    assert_eq!(bindings.program, NO_OBJECT);
    assert!(!bindings.holds_buffer(0));
    assert!(!bindings.holds_buffer(1));
}

#[test]
fn bind_is_recorded_at_its_target_only() {
    let vbo = Vbo::gen(&Reply::Name(4));
    let mut bindings = Bindings::new();
    bindings.apply(&vbo.bind());
    assert_eq!(bindings.buffer(BufferTarget::Array), 4);
    assert_eq!(bindings.buffer(BufferTarget::ElementArray), NO_OBJECT);
    assert!(bindings.holds_buffer(4));
    let ebo = Ebo::gen(&Reply::Name(5));
    bindings.apply(&ebo.bind());
    assert_eq!(bindings.buffer(BufferTarget::Array), 4);
    assert_eq!(bindings.buffer(BufferTarget::ElementArray), 5);
    assert!(bindings.holds_buffer(5));
}

#[test]
fn released_vertex_buffer_is_not_bound() {
    let vbo = Vbo::gen(&Reply::Name(4));
    let mut bindings = Bindings::new();
    bindings.apply_all(&vbo.set(&vec![0, 0]));
    assert_eq!(bindings.buffer(BufferTarget::Array), 4);
    bindings.apply_all(&vbo.release());
    assert_eq!(bindings.buffer(BufferTarget::Array), NO_OBJECT);
    assert!(!bindings.holds_buffer(4));
}

#[test]
fn released_index_buffer_is_not_bound() {
    let ebo = Ebo::gen(&Reply::Name(6));
    let mut bindings = Bindings::new();
    bindings.apply_all(&ebo.set(&vec![0, 1, 2]));
    assert_eq!(bindings.buffer(BufferTarget::ElementArray), 6);
    bindings.apply_all(&ebo.release());
    assert_eq!(bindings.buffer(BufferTarget::ElementArray), NO_OBJECT);
    assert!(!bindings.holds_buffer(6));
}

#[test]
fn released_vertex_array_is_not_bound() {
    let vao = Vao::gen(&Reply::Name(2));
    let mut bindings = Bindings::new();
    bindings.apply_all(&vao.set());
    assert_eq!(bindings.vertex_array, 2);
    bindings.apply_all(&vao.release());
    assert_eq!(bindings.vertex_array, NO_OBJECT);
}

#[test]
fn release_unbinds_whatever_is_bound_at_the_target() {
    let first = Vbo::gen(&Reply::Name(1));
    let second = Vbo::gen(&Reply::Name(2));
    let mut bindings = Bindings::new();
    bindings.apply(&first.bind());
    bindings.apply(&second.bind());
    bindings.apply_all(&first.release());
    assert_eq!(bindings.buffer(BufferTarget::Array), NO_OBJECT);
    assert!(!bindings.holds_buffer(1));
    assert!(!bindings.holds_buffer(2));
}

#[test]
fn deleting_a_buffer_resets_every_point_that_held_it() {
    let mut bindings = Bindings::new();
    bindings.apply(&Command::BindBuffer { target: BufferTarget::Array, buffer: 7 });
    bindings.apply(&Command::BindBuffer { target: BufferTarget::ElementArray, buffer: 7 });
    bindings.apply(&Command::DeleteBuffers { buffer: 7 });
    assert_eq!(bindings, Bindings::new());
}

#[test]
fn deleting_another_object_leaves_the_bindings() {
    let mut bindings = Bindings::new();
    bindings.apply(&Command::BindBuffer { target: BufferTarget::Array, buffer: 7 });
    bindings.apply(&Command::BindVertexArray { array: 3 });
    bindings.apply(&Command::DeleteBuffers { buffer: 8 });
    bindings.apply(&Command::DeleteVertexArrays { array: 4 });
    assert_eq!(bindings.buffer(BufferTarget::Array), 7);
    assert_eq!(bindings.vertex_array, 3);
}

#[test]
fn program_in_use_is_recorded() {
    let mut bindings = Bindings::new();
    bindings.apply(&Command::UseProgram { program: 9 });
    assert_eq!(bindings.program, 9);
    bindings.apply(&Command::DeleteProgram { program: 9 });
    assert_eq!(bindings.program, 9);
    bindings.apply(&Command::UseProgram { program: 0 });
    assert_eq!(bindings.program, NO_OBJECT);
}

#[test]
fn commands_that_bind_nothing_change_nothing() {
    let mut bindings = Bindings::new();
    bindings.apply(&Command::BindBuffer { target: BufferTarget::Array, buffer: 1 });
    let before = bindings;
    bindings.apply_all(&vec![
        Command::GenBuffers,
        Command::CreateProgram,
        Command::LinkProgram { program: 1 },
        Command::DeleteShader { shader: 1 },
        Command::EnableVertexAttribArray { index: 0 },
        Command::SwapWindow,
    ]);
    assert_eq!(bindings, before);
}

#[test]
fn teardown_in_reverse_order_leaves_nothing_bound() {
    let vbo = Vbo::gen(&Reply::Name(1));
    let vao = Vao::gen(&Reply::Name(1));
    let ebo = Ebo::gen(&Reply::Name(2));
    let mut bindings = Bindings::new();
    bindings.apply(&Command::UseProgram { program: 3 });
    bindings.apply_all(&vbo.set(&vec![0; 6]));
    bindings.apply_all(&vao.set());
    bindings.apply_all(&ebo.set(&vec![0, 1, 2]));
    assert_eq!(
        bindings,
        Bindings { array_buffer: 1, element_array_buffer: 2, vertex_array: 1, program: 3 }
    );
    bindings.apply_all(&ebo.release());
    bindings.apply_all(&vao.release());
    bindings.apply_all(&vbo.release());
    assert_eq!(
        bindings,
        Bindings { array_buffer: 0, element_array_buffer: 0, vertex_array: 0, program: 3 }
    );
}
