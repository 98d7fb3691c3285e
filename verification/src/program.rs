//! Linking compiled shaders into a program.

use vstd::prelude::*;
use vstd::utf8::{decode_utf8, valid_utf8};
use crate::codes::{ProgramParam, ShaderKind};
use crate::command::{
    reply_views, views, Command, CommandView, Reply, ReplyView, LENGTH_PRESET, STATUS_PRESET,
};
use crate::shader::{compiled, lemma_accepted_source_compiles, Shader};
use crate::text::{blanks, from_utf8_lossy, log_buffer, log_capacity, lossy_utf8, spec_log_capacity};

verus! {

/// A linked program object, known by the name the driver gave it.
#[derive(Debug, PartialEq, Eq)]
pub struct Program {
    id: u32,
}

impl View for Program {
    type V = u32;

    /// The name of the program object.
    closed spec fn view(&self) -> u32 {
        self.id
    }
}

/// The names of a list of shaders, in the same order.
pub open spec fn shader_names(shaders: Seq<Shader>) -> Seq<u32> {
    shaders.map_values(|shader: Shader| shader@)
}

impl Program {
    /// Starts the linking of `shaders`. Nothing has been asked of the driver
    /// yet. The program keeps no hold on the shaders: they may be released
    /// once the linking has come to its end.
    pub fn from_shaders(shaders: &[Shader]) -> (build: ProgramBuild)
        ensures
            build@ == ProgramBuildView::start(shader_names(shaders@)),
    {
        let mut names: Vec<u32> = Vec::with_capacity(shaders.len());
        let mut taken: usize = 0;
        while taken < shaders.len()
            invariant
                taken <= shaders.len(),
                names@ == shader_names(shaders@.take(taken as int)),
            decreases shaders.len() - taken,
        {
            names.push(shaders[taken].id());
            taken = taken + 1;
            assert(names@ =~= shader_names(shaders@.take(taken as int)));
        }
        assert(shaders@.take(taken as int) =~= shaders@);
        let build = ProgramBuild { shaders: names, answers: Vec::new() };
        assert(reply_views(build.answers@) =~= Seq::empty());
        build
    }

    /// The name of the program object.
    pub fn id(&self) -> (id: u32)
        ensures
            id == self@,
    {
        self.id
    }

    /// The command that makes the program part of the current rendering
    /// state, so that draws run it.
    pub fn set(&self) -> (command: Command)
        ensures
            command@ == (CommandView::UseProgram { program: self@ }),
    {
        Command::UseProgram { program: self.id }
    }

    /// Gives the program object up: the one command that deletes it.
    pub fn release(self) -> (commands: Vec<Command>)
        ensures
            views(commands@) == seq![CommandView::DeleteProgram { program: self@ }],
    {
        let commands = vec![Command::DeleteProgram { program: self.id }];
        assert(views(commands@) =~= seq![CommandView::DeleteProgram { program: self@ }]);
        commands
    }
}

/// A linking that the driver refused, with the log it gave.
#[derive(Clone, Debug, PartialEq, Eq)]
pub struct LinkError {
    pub log: String,
}

/// A linking in progress: the names of the shaders, and what the driver has
/// answered so far.
///
/// The commands of a linking are, in order: create the program object, attach
/// each shader in the order given, link, query the link status. Where the
/// status is zero two more follow: query the length of the information log,
/// and read that many bytes of it.
#[derive(Debug)]
pub struct ProgramBuild {
    shaders: Vec<u32>,
    answers: Vec<Reply>,
}

/// The mathematical value of a [`ProgramBuild`].
pub ghost struct ProgramBuildView {
    pub shaders: Seq<u32>,
    pub answers: Seq<ReplyView>,
}

impl ProgramBuildView {
    /// A linking that has not asked anything yet.
    pub open spec fn start(shaders: Seq<u32>) -> ProgramBuildView {
        ProgramBuildView { shaders, answers: Seq::empty() }
    }

    /// The name the driver gave the program object.
    pub open spec fn program(self) -> u32
        recommends
            self.answers.len() > 0,
    {
        self.answers[0].name()
    }

    /// The link status the driver reported; zero means refused.
    pub open spec fn status(self) -> i32
        recommends
            self.answers.len() > self.shaders.len() + 2,
    {
        self.answers[self.shaders.len() as int + 2].value_or(STATUS_PRESET)
    }

    /// The length the driver reported for the information log.
    pub open spec fn reported_length(self) -> i32
        recommends
            self.answers.len() > self.shaders.len() + 3,
    {
        self.answers[self.shaders.len() as int + 3].value_or(LENGTH_PRESET)
    }

    /// The buffer that the log is read into: as many blanks as the driver
    /// reported, none where it reported a negative length.
    pub open spec fn log_buffer(self) -> Seq<u8>
        recommends
            self.answers.len() > self.shaders.len() + 3,
    {
        blanks(spec_log_capacity(self.reported_length()) as nat)
    }

    /// The command whose answer is awaited, or `None` once the linking has
    /// come to its end.
    pub open spec fn pending(self) -> Option<CommandView> {
        let answered = self.answers.len();
        let attached = self.shaders.len();
        if answered == 0 {
            Some(CommandView::CreateProgram)
        } else if answered <= attached {
            Some(
                CommandView::AttachShader {
                    program: self.program(),
                    shader: self.shaders[answered - 1],
                },
            )
        } else if answered == attached + 1 {
            Some(CommandView::LinkProgram { program: self.program() })
        } else if answered == attached + 2 {
            Some(
                CommandView::GetProgramiv {
                    program: self.program(),
                    param: ProgramParam::LinkStatus,
                    preset: STATUS_PRESET,
                },
            )
        } else if self.status() != 0 {
            None
        } else if answered == attached + 3 {
            Some(
                CommandView::GetProgramiv {
                    program: self.program(),
                    param: ProgramParam::InfoLogLength,
                    preset: LENGTH_PRESET,
                },
            )
        } else if answered == attached + 4 {
            Some(
                CommandView::GetProgramInfoLog {
                    program: self.program(),
                    capacity: spec_log_capacity(self.reported_length()),
                    buffer: self.log_buffer(),
                },
            )
        } else {
            None
        }
    }

    /// How the linking ended: with the name of the linked program object, or
    /// with the bytes of the log, which are what the log buffer held after
    /// the driver had written to it. `None` while a command is pending.
    pub open spec fn outcome(self) -> Option<Result<u32, Seq<u8>>> {
        if self.pending() is Some {
            None
        } else if self.status() != 0 {
            Some(Ok(self.program()))
        } else {
            Some(Err(self.answers[self.shaders.len() as int + 4].text_over(self.log_buffer())))
        }
    }

    /// The linking after the driver has answered the pending command with
    /// `reply`. Once nothing is pending a reply changes nothing.
    pub open spec fn after(self, reply: ReplyView) -> ProgramBuildView {
        if self.pending() is Some {
            ProgramBuildView { answers: self.answers.push(reply), ..self }
        } else {
            self
        }
    }
}

impl View for ProgramBuild {
    type V = ProgramBuildView;

    closed spec fn view(&self) -> ProgramBuildView {
        ProgramBuildView { shaders: self.shaders@, answers: reply_views(self.answers@) }
    }
}

impl ProgramBuild {
    /// The command to perform next, or `None` once the linking has come to
    /// its end.
    pub fn pending(&self) -> (command: Option<Command>)
        ensures
            match command {
                Some(command) => self@.pending() == Some(command@),
                None => self@.pending() is None,
            },
    {
        let answered = self.answers.len();
        let attached = self.shaders.len();
        if answered == 0 {
            return Some(Command::CreateProgram);
        }
        let program = self.answers[0].name();
        if answered <= attached {
            return Some(Command::AttachShader { program, shader: self.shaders[answered - 1] });
        }
        let beyond = answered - attached;
        if beyond == 1 {
            Some(Command::LinkProgram { program })
        } else if beyond == 2 {
            Some(
                Command::GetProgramiv {
                    program,
                    param: ProgramParam::LinkStatus,
                    preset: STATUS_PRESET,
                },
            )
        } else if self.answers[attached + 2].value_or(STATUS_PRESET) != 0 {
            None
        } else if beyond == 3 {
            Some(
                Command::GetProgramiv {
                    program,
                    param: ProgramParam::InfoLogLength,
                    preset: LENGTH_PRESET,
                },
            )
        } else if beyond == 4 {
            let reported = self.answers[attached + 3].value_or(LENGTH_PRESET);
            Some(
                Command::GetProgramInfoLog {
                    program,
                    capacity: log_capacity(reported),
                    buffer: log_buffer(reported),
                },
            )
        } else {
            None
        }
    }

    /// Takes the driver's answer to the pending command. Once nothing is
    /// pending the reply is dropped.
    pub fn resume(&mut self, reply: Reply)
        ensures
            final(self)@ == old(self)@.after(reply@),
    {
        let answered = self.answers.len();
        let attached = self.shaders.len();
        let open = answered <= attached || answered - attached <= 2 || (self.answers[attached
            + 2].value_or(STATUS_PRESET) == 0 && answered - attached <= 4);
        if open {
            self.answers.push(reply);
            assert(reply_views(self.answers@) =~= reply_views(old(self).answers@).push(reply@));
        }
    }

    /// How the linking ended, or `None` while a command is pending.
    ///
    /// It succeeded exactly where the driver reported a link status other
    /// than zero; the program then has the name the driver gave at creation.
    /// Where it failed the error holds the text of what the log buffer held
    /// after the driver had written to it: as many bytes as the driver
    /// reported, not fewer and not more.
    pub fn finish(self) -> (outcome: Option<Result<Program, LinkError>>)
        ensures
            match outcome {
                None => self@.outcome() is None,
                Some(Ok(program)) => self@.outcome() == Some(Ok::<u32, Seq<u8>>(program@)),
                Some(Err(error)) => {
                    &&& self@.outcome() matches Some(Err(bytes))
                    &&& error.log@ == lossy_utf8(bytes)
                    &&& valid_utf8(bytes) ==> error.log@ == decode_utf8(bytes)
                },
            },
    {
        let answered = self.answers.len();
        let attached = self.shaders.len();
        if answered <= attached || answered - attached <= 2 {
            return None;
        }
        if self.answers[attached + 2].value_or(STATUS_PRESET) != 0 {
            return Some(Ok(Program { id: self.answers[0].name() }));
        }
        if answered - attached <= 4 {
            return None;
        }
        let reported = self.answers[attached + 3].value_or(LENGTH_PRESET);
        let bytes = self.answers[attached + 4].text_over(log_buffer(reported));
        Some(Err(LinkError { log: from_utf8_lossy(&bytes) }))
    }
}

/// The linking of a vertex and a fragment shader at the point where the
/// driver, having named the program object `name`, has answered the status
/// query with `status`.
pub open spec fn linked(vertex: u32, fragment: u32, name: u32, status: i32) -> ProgramBuildView {
    ProgramBuildView::start(seq![vertex, fragment]).after(ReplyView::Name(name)).after(
        ReplyView::Done,
    ).after(ReplyView::Done).after(ReplyView::Done).after(ReplyView::Value(status))
}

/// A linking that the driver refuses yields the log it gave, in the length
/// it reported. Where the status is zero and the length query is answered
/// by `length`, the log is read into a buffer of `length` blanks (of none
/// where `length` is negative); whatever `reply` the reading is answered by,
/// the linking has then come to its end with as many bytes as the buffer
/// had; and where the reply carries that many bytes, they are the log, byte
/// for byte.
pub proof fn lemma_refused_pair_reports_log(
    vertex: u32,
    fragment: u32,
    name: u32,
    length: i32,
    reply: ReplyView,
)
    ensures
        linked(vertex, fragment, name, 0).after(ReplyView::Value(length)).pending() == Some(
            CommandView::GetProgramInfoLog {
                program: name,
                capacity: spec_log_capacity(length),
                buffer: blanks(spec_log_capacity(length) as nat),
            },
        ),
        linked(vertex, fragment, name, 0).after(ReplyView::Value(length)).after(reply).outcome()
            == Some(
            Err::<u32, Seq<u8>>(reply.text_over(blanks(spec_log_capacity(length) as nat))),
        ),
        reply.text_over(blanks(spec_log_capacity(length) as nat)).len() == spec_log_capacity(
            length,
        ),
        reply matches ReplyView::Text(log) ==> (log.len() == spec_log_capacity(length)
            ==> reply.text_over(blanks(spec_log_capacity(length) as nat)) == log),
{
    if let ReplyView::Text(log) = reply {
        if log.len() == spec_log_capacity(length) {
            assert(reply.text_over(blanks(spec_log_capacity(length) as nat)) =~= log);
        }
    }
}

/// Sources that the driver accepts compile and link. Where the driver
/// reports a status other than zero for the compilation of a vertex and of
/// a fragment shader and for the linking of the two, both compilations yield
/// the shaders the driver created, and the linking yields the program the
/// driver created: the name that [`Program::set`] then makes current for
/// drawing.
pub proof fn lemma_accepted_sources_link(
    vertex_source: Seq<u8>,
    fragment_source: Seq<u8>,
    vertex: u32,
    fragment: u32,
    program: u32,
    vertex_status: i32,
    fragment_status: i32,
    link_status: i32,
)
    requires
        vertex_status != 0,
        fragment_status != 0,
        link_status != 0,
    ensures
        compiled(ShaderKind::Vertex, vertex_source, vertex, vertex_status).outcome() == Some(
            Ok::<u32, Seq<u8>>(vertex),
        ),
        compiled(ShaderKind::Fragment, fragment_source, fragment, fragment_status).outcome()
            == Some(Ok::<u32, Seq<u8>>(fragment)),
        linked(vertex, fragment, program, link_status).pending() is None,
        linked(vertex, fragment, program, link_status).outcome() == Some(
            Ok::<u32, Seq<u8>>(program),
        ),
{
    lemma_accepted_source_compiles(ShaderKind::Vertex, vertex_source, vertex, vertex_status);
    lemma_accepted_source_compiles(ShaderKind::Fragment, fragment_source, fragment, fragment_status);
}

} // verus!
