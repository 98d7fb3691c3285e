use triangle_gl::codes::{ProgramParam, ShaderKind};
use triangle_gl::command::{Command, Reply};
use triangle_gl::program::{LinkError, Program, ProgramBuild};
use triangle_gl::shader::Shader;

/// A compiled shader with the given name.
fn compiled_shader(name: u32, kind: ShaderKind) -> Shader {
    let mut build = Shader::from_source(&[], kind);
    for reply in [Reply::Name(name), Reply::Done, Reply::Done, Reply::Value(1)] {
        build.resume(reply);
    }
    build.finish().unwrap().unwrap()
}

/// Answers each pending command with the next reply until the build asks
/// for nothing more, and returns the commands it asked for.
fn converse_with_linker(build: &mut ProgramBuild, replies: Vec<Reply>) -> Vec<Command> {
    let mut asked = Vec::new();
    let mut replies = replies.into_iter();
    while let Some(command) = build.pending() {
        match replies.next() {
            Some(reply) => {
                asked.push(command);
                build.resume(reply);
            }
            None => break,
        }
    }
    asked
}

#[test]
fn accepted_pair_compiles_and_links() {
    let shaders = vec![compiled_shader(1, ShaderKind::Vertex), compiled_shader(2, ShaderKind::Fragment)];
    let mut build = Program::from_shaders(&shaders);
    let asked = converse_with_linker(
        &mut build,
        vec![Reply::Name(3), Reply::Done, Reply::Done, Reply::Done, Reply::Value(1)],
    );
    assert_eq!(
        asked,
        vec![
            Command::CreateProgram,
            Command::AttachShader { program: 3, shader: 1 },
            Command::AttachShader { program: 3, shader: 2 },
            Command::LinkProgram { program: 3 },
            Command::GetProgramiv { program: 3, param: ProgramParam::LinkStatus, preset: 1 },
        ]
    );
    assert_eq!(build.pending(), None);
    let program = build.finish().unwrap().unwrap();
    assert_eq!(program.id(), 3);
    assert_eq!(program.set(), Command::UseProgram { program: 3 });
}

#[test]
fn unlinkable_pair_fails_with_the_log() {
    let log = b"error: vertex shader output `color` has no matching input\0".to_vec();
    let shaders = vec![compiled_shader(1, ShaderKind::Vertex), compiled_shader(2, ShaderKind::Fragment)];
    let mut build = Program::from_shaders(&shaders);
    let asked = converse_with_linker(
        &mut build,
        vec![
            Reply::Name(3),
            Reply::Done,
            Reply::Done,
            Reply::Done,
            Reply::Value(0),
            Reply::Value(log.len() as i32),
            Reply::Text(log.clone()),
        ],
    );
    assert_eq!(asked.len(), 7);
    assert_eq!(
        asked[5],
        Command::GetProgramiv { program: 3, param: ProgramParam::InfoLogLength, preset: 0 }
    );
    assert_eq!(
        asked[6],
        Command::GetProgramInfoLog {
            program: 3,
            capacity: log.len() as i32,
            buffer: vec![b' '; log.len()],
        }
    );
    let error = build.finish().unwrap().unwrap_err();
    assert!(!error.log.is_empty());
    assert_eq!(
        error,
        LinkError {
            log: String::from("error: vertex shader output `color` has no matching input\0"),
        }
    );
}

#[test]
fn shaders_are_attached_in_the_order_given() {
    let shaders = vec![
        compiled_shader(30, ShaderKind::Fragment),
        compiled_shader(10, ShaderKind::Vertex),
        compiled_shader(20, ShaderKind::Vertex),
    ];
    let mut build = Program::from_shaders(&shaders);
    let asked = converse_with_linker(
        &mut build,
        vec![
            Reply::Name(4),
            Reply::Done,
            Reply::Done,
            Reply::Done,
            Reply::Done,
            Reply::Value(1),
        ],
    );
    assert_eq!(
        asked,
        vec![
            Command::CreateProgram,
            Command::AttachShader { program: 4, shader: 30 },
            Command::AttachShader { program: 4, shader: 10 },
            Command::AttachShader { program: 4, shader: 20 },
            Command::LinkProgram { program: 4 },
            Command::GetProgramiv { program: 4, param: ProgramParam::LinkStatus, preset: 1 },
        ]
    );
    assert_eq!(build.finish().unwrap().unwrap().id(), 4);
}

#[test]
fn no_shaders_still_link() {
    let mut build = Program::from_shaders(&[]);
    let asked = converse_with_linker(&mut build, vec![Reply::Name(6), Reply::Done, Reply::Value(0)]);
    assert_eq!(
        asked,
        vec![
            Command::CreateProgram,
            Command::LinkProgram { program: 6 },
            Command::GetProgramiv { program: 6, param: ProgramParam::LinkStatus, preset: 1 },
        ]
    );
    assert_eq!(
        build.pending(),
        Some(Command::GetProgramiv {
            program: 6,
            param: ProgramParam::InfoLogLength,
            preset: 0,
        })
    );
    assert_eq!(build.finish(), None);
}

#[test]
fn linking_is_not_finished_while_a_command_is_pending() {
    let replies = vec![
        Reply::Name(3),
        Reply::Done,
        Reply::Done,
        Reply::Done,
        Reply::Value(0),
        Reply::Value(2),
    ];
    for given in 0..=replies.len() {
        let shaders = vec![compiled_shader(1, ShaderKind::Vertex), compiled_shader(2, ShaderKind::Fragment)];
        let mut build = Program::from_shaders(&shaders);
        for reply in replies.iter().take(given) {
            build.resume(reply.clone());
        }
        assert!(build.pending().is_some());
        assert_eq!(build.finish(), None);
    }
}

#[test]
fn shaders_may_be_released_once_linked() {
    let shaders = vec![compiled_shader(1, ShaderKind::Vertex), compiled_shader(2, ShaderKind::Fragment)];
    let mut build = Program::from_shaders(&shaders);
    converse_with_linker(
        &mut build,
        vec![Reply::Name(3), Reply::Done, Reply::Done, Reply::Done, Reply::Value(1)],
    );
    let mut released = Vec::new();
    for shader in shaders {
        released.extend(shader.release());
    }
    assert_eq!(
        released,
        vec![Command::DeleteShader { shader: 1 }, Command::DeleteShader { shader: 2 }]
    );
    assert_eq!(build.finish().unwrap().unwrap().id(), 3);
}

#[test]
fn link_log_that_the_driver_does_not_write_stays_blank() {
    let shaders = vec![compiled_shader(1, ShaderKind::Vertex), compiled_shader(2, ShaderKind::Fragment)];
    let mut build = Program::from_shaders(&shaders);
    converse_with_linker(
        &mut build,
        vec![
            Reply::Name(3),
            Reply::Done,
            Reply::Done,
            Reply::Done,
            Reply::Value(0),
            Reply::Value(2),
            Reply::Done,
        ],
    );
    assert_eq!(build.finish(), Some(Err(LinkError { log: String::from("  ") })));
}

#[test]
fn driver_that_writes_nothing_leaves_the_pair_linked() {
    let shaders = vec![compiled_shader(1, ShaderKind::Vertex), compiled_shader(2, ShaderKind::Fragment)];
    let mut build = Program::from_shaders(&shaders);
    converse_with_linker(
        &mut build,
        vec![Reply::Done, Reply::Done, Reply::Done, Reply::Done, Reply::Done],
    );
    assert_eq!(build.pending(), None);
    assert_eq!(build.finish().unwrap().unwrap().id(), 0);
}

#[test]
fn released_program_is_deleted() {
    let mut build = Program::from_shaders(&[]);
    converse_with_linker(&mut build, vec![Reply::Name(8), Reply::Done, Reply::Value(1)]);
    let program = build.finish().unwrap().unwrap();
    assert_eq!(program.release(), vec![Command::DeleteProgram { program: 8 }]);
}
