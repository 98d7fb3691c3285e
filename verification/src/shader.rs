//! Compiling one shader stage.

use vstd::prelude::*;
use vstd::slice::slice_to_vec;
use vstd::utf8::{decode_utf8, valid_utf8};
use crate::codes::{ShaderKind, ShaderParam};
use crate::command::{
    reply_views, views, Command, CommandView, Reply, ReplyView, LENGTH_PRESET, STATUS_PRESET,
};
use crate::text::{blanks, from_utf8_lossy, log_buffer, log_capacity, lossy_utf8, spec_log_capacity};

verus! {

/// A compiled shader object, known by the name the driver gave it.
#[derive(Debug, PartialEq, Eq)]
pub struct Shader {
    id: u32,
}

impl View for Shader {
    type V = u32;

    /// The name of the shader object.
    closed spec fn view(&self) -> u32 {
        self.id
    }
}

impl Shader {
    /// Starts the compilation of `source`, the text of the stage without a
    /// terminator, for the stage `kind`. Nothing has been asked of the driver
    /// yet.
    pub fn from_source(source: &[u8], kind: ShaderKind) -> (build: ShaderBuild)
        ensures
            build@ == ShaderBuildView::start(kind, source@),
    {
        let build = ShaderBuild { kind, source: slice_to_vec(source), answers: Vec::new() };
        assert(reply_views(build.answers@) =~= Seq::empty());
        build
    }

    /// The name of the shader object.
    pub fn id(&self) -> (id: u32)
        ensures
            id == self@,
    {
        self.id
    }

    /// Gives the shader object up: the one command that deletes it.
    pub fn release(self) -> (commands: Vec<Command>)
        ensures
            views(commands@) == seq![CommandView::DeleteShader { shader: self@ }],
    {
        let commands = vec![Command::DeleteShader { shader: self.id }];
        assert(views(commands@) =~= seq![
            CommandView::DeleteShader { shader: self@ },
        ]);
        commands
    }
}

/// A compilation that the driver refused, with the log it gave.
#[derive(Clone, Debug, PartialEq, Eq)]
pub struct CompileError {
    pub log: String,
}

/// A compilation in progress: the stage, the source, and what the driver has
/// answered so far.
///
/// The commands of a compilation are, in order: create the shader object,
/// hand it the source, compile it, query the compile status. Where the status
/// is zero two more follow: query the length of the information log, and read
/// that many bytes of it.
#[derive(Debug)]
pub struct ShaderBuild {
    kind: ShaderKind,
    source: Vec<u8>,
    answers: Vec<Reply>,
}

/// The mathematical value of a [`ShaderBuild`].
pub ghost struct ShaderBuildView {
    pub kind: ShaderKind,
    pub source: Seq<u8>,
    pub answers: Seq<ReplyView>,
}

impl ShaderBuildView {
    /// A compilation that has not asked anything yet.
    pub open spec fn start(kind: ShaderKind, source: Seq<u8>) -> ShaderBuildView {
        ShaderBuildView { kind, source, answers: Seq::empty() }
    }

    /// The name the driver gave the shader object.
    pub open spec fn shader(self) -> u32
        recommends
            self.answers.len() > 0,
    {
        self.answers[0].name()
    }

    /// The compile status the driver reported; zero means refused.
    pub open spec fn status(self) -> i32
        recommends
            self.answers.len() > 3,
    {
        self.answers[3].value_or(STATUS_PRESET)
    }

    /// The length the driver reported for the information log.
    pub open spec fn reported_length(self) -> i32
        recommends
            self.answers.len() > 4,
    {
        self.answers[4].value_or(LENGTH_PRESET)
    }

    /// The buffer that the log is read into: as many blanks as the driver
    /// reported, none where it reported a negative length.
    pub open spec fn log_buffer(self) -> Seq<u8>
        recommends
            self.answers.len() > 4,
    {
        blanks(spec_log_capacity(self.reported_length()) as nat)
    }

    /// The command whose answer is awaited, or `None` once the compilation
    /// has come to its end.
    pub open spec fn pending(self) -> Option<CommandView> {
        let answered = self.answers.len();
        if answered == 0 {
            Some(CommandView::CreateShader { kind: self.kind })
        } else if answered == 1 {
            Some(CommandView::ShaderSource { shader: self.shader(), source: self.source })
        } else if answered == 2 {
            Some(CommandView::CompileShader { shader: self.shader() })
        } else if answered == 3 {
            Some(
                CommandView::GetShaderiv {
                    shader: self.shader(),
                    param: ShaderParam::CompileStatus,
                    preset: STATUS_PRESET,
                },
            )
        } else if self.status() != 0 {
            None
        } else if answered == 4 {
            Some(
                CommandView::GetShaderiv {
                    shader: self.shader(),
                    param: ShaderParam::InfoLogLength,
                    preset: LENGTH_PRESET,
                },
            )
        } else if answered == 5 {
            Some(
                CommandView::GetShaderInfoLog {
                    shader: self.shader(),
                    capacity: spec_log_capacity(self.reported_length()),
                    buffer: self.log_buffer(),
                },
            )
        } else {
            None
        }
    }

    /// How the compilation ended: with the name of the compiled shader
    /// object, or with the bytes of the log, which are what the log buffer
    /// held after the driver had written to it. `None` while a command is
    /// pending.
    pub open spec fn outcome(self) -> Option<Result<u32, Seq<u8>>> {
        if self.pending() is Some {
            None
        } else if self.status() != 0 {
            Some(Ok(self.shader()))
        } else {
            Some(Err(self.answers[5].text_over(self.log_buffer())))
        }
    }

    /// The compilation after the driver has answered the pending command
    /// with `reply`. Once nothing is pending a reply changes nothing.
    pub open spec fn after(self, reply: ReplyView) -> ShaderBuildView {
        if self.pending() is Some {
            ShaderBuildView { answers: self.answers.push(reply), ..self }
        } else {
            self
        }
    }
}

impl View for ShaderBuild {
    type V = ShaderBuildView;

    closed spec fn view(&self) -> ShaderBuildView {
        ShaderBuildView {
            kind: self.kind,
            source: self.source@,
            answers: reply_views(self.answers@),
        }
    }
}

impl ShaderBuild {
    /// The command to perform next, or `None` once the compilation has come
    /// to its end.
    pub fn pending(&self) -> (command: Option<Command>)
        ensures
            match command {
                Some(command) => self@.pending() == Some(command@),
                None => self@.pending() is None,
            },
    {
        let answered = self.answers.len();
        if answered == 0 {
            return Some(Command::CreateShader { kind: self.kind });
        }
        let shader = self.answers[0].name();
        if answered == 1 {
            Some(Command::ShaderSource { shader, source: self.source.clone() })
        } else if answered == 2 {
            Some(Command::CompileShader { shader })
        } else if answered == 3 {
            Some(
                Command::GetShaderiv {
                    shader,
                    param: ShaderParam::CompileStatus,
                    preset: STATUS_PRESET,
                },
            )
        } else if self.answers[3].value_or(STATUS_PRESET) != 0 {
            None
        } else if answered == 4 {
            Some(
                Command::GetShaderiv {
                    shader,
                    param: ShaderParam::InfoLogLength,
                    preset: LENGTH_PRESET,
                },
            )
        } else if answered == 5 {
            let reported = self.answers[4].value_or(LENGTH_PRESET);
            Some(
                Command::GetShaderInfoLog {
                    shader,
                    capacity: log_capacity(reported),
                    buffer: log_buffer(reported),
                },
            )
        } else {
            None
        }
    }

    /// Takes the driver's answer to the pending command. Once nothing is
    /// pending the reply is dropped.
    pub fn resume(&mut self, reply: Reply)
        ensures
            final(self)@ == old(self)@.after(reply@),
    {
        let answered = self.answers.len();
        let open = answered <= 3 || (self.answers[3].value_or(STATUS_PRESET) == 0 && answered <= 5);
        if open {
            self.answers.push(reply);
            assert(reply_views(self.answers@) =~= reply_views(old(self).answers@).push(reply@));
        }
    }

    /// How the compilation ended, or `None` while a command is pending.
    ///
    /// It succeeded exactly where the driver reported a compile status other
    /// than zero; the shader then has the name the driver gave at creation.
    /// Where it failed the error holds the text of what the log buffer held
    /// after the driver had written to it: as many bytes as the driver
    /// reported, not fewer and not more.
    pub fn finish(self) -> (outcome: Option<Result<Shader, CompileError>>)
        ensures
            match outcome {
                None => self@.outcome() is None,
                Some(Ok(shader)) => self@.outcome() == Some(Ok::<u32, Seq<u8>>(shader@)),
                Some(Err(error)) => {
                    &&& self@.outcome() matches Some(Err(bytes))
                    &&& error.log@ == lossy_utf8(bytes)
                    &&& valid_utf8(bytes) ==> error.log@ == decode_utf8(bytes)
                },
            },
    {
        let answered = self.answers.len();
        if answered <= 3 {
            return None;
        }
        if self.answers[3].value_or(STATUS_PRESET) != 0 {
            return Some(Ok(Shader { id: self.answers[0].name() }));
        }
        if answered <= 5 {
            return None;
        }
        let reported = self.answers[4].value_or(LENGTH_PRESET);
        let bytes = self.answers[5].text_over(log_buffer(reported));
        Some(Err(CompileError { log: from_utf8_lossy(&bytes) }))
    }
}

/// The compilation of `source` at the point where the driver, having named
/// the shader object `name`, has answered the status query with `status`.
pub open spec fn compiled(kind: ShaderKind, source: Seq<u8>, name: u32, status: i32) -> ShaderBuildView {
    ShaderBuildView::start(kind, source).after(ReplyView::Name(name)).after(ReplyView::Done).after(
        ReplyView::Done,
    ).after(ReplyView::Value(status))
}

/// A compilation that the driver accepts yields the shader it created.
/// Where the status is not zero the compilation has come to its end with the
/// shader `name`, and the log is not asked for.
pub proof fn lemma_accepted_source_compiles(
    kind: ShaderKind,
    source: Seq<u8>,
    name: u32,
    status: i32,
)
    requires
        status != 0,
    ensures
        compiled(kind, source, name, status).pending() is None,
        compiled(kind, source, name, status).outcome() == Some(Ok::<u32, Seq<u8>>(name)),
{
}

/// A compilation that the driver refuses yields the log it gave, in the
/// length it reported. Where the status is zero and the length query is
/// answered by `length`, the log is read into a buffer of `length` blanks
/// (of none where `length` is negative); whatever `reply` the reading is
/// answered by, the compilation has then come to its end with as many bytes
/// as the buffer had; and where the reply carries that many bytes, they are
/// the log, byte for byte.
pub proof fn lemma_refused_source_reports_log(
    kind: ShaderKind,
    source: Seq<u8>,
    name: u32,
    length: i32,
    reply: ReplyView,
)
    ensures
        compiled(kind, source, name, 0).after(ReplyView::Value(length)).pending() == Some(
            CommandView::GetShaderInfoLog {
                shader: name,
                capacity: spec_log_capacity(length),
                buffer: blanks(spec_log_capacity(length) as nat),
            },
        ),
        compiled(kind, source, name, 0).after(ReplyView::Value(length)).after(reply).outcome()
            == Some(
            Err::<u32, Seq<u8>>(reply.text_over(blanks(spec_log_capacity(length) as nat))),
        ),
        reply.text_over(blanks(spec_log_capacity(length) as nat)).len() == spec_log_capacity(
            length,
        ),
        reply matches ReplyView::Text(log) ==> (log.len() == spec_log_capacity(length)
            ==> reply.text_over(blanks(spec_log_capacity(length) as nat)) == log),
{
    if let ReplyView::Text(log) = reply {
        if log.len() == spec_log_capacity(length) {
            assert(reply.text_over(blanks(spec_log_capacity(length) as nat)) =~= log);
        }
    }
}

} // verus!
