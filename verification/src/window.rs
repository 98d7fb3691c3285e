//! Opening the window: the steps, their order, and the error of the step
//! that fails.

use vstd::prelude::*;

verus! {

/// The major version of the graphics context that is asked for.
pub const CONTEXT_MAJOR: u8 = 3;

/// The minor version of the graphics context that is asked for.
pub const CONTEXT_MINOR: u8 = 3;

/// The number of steps that open a window.
pub const STEPS: usize = 9;

/// The profile of the graphics context that is asked for.
#[derive(Clone, Copy, Debug, PartialEq, Eq, Structural)]
pub enum Profile {
    /// The core profile: no deprecated functions.
    Core,
}

/// How the presentation of a frame is timed.
#[derive(Clone, Copy, Debug, PartialEq, Eq, Structural)]
pub enum Interval {
    /// In step with the refresh of the display.
    VSync,
}

/// One step of opening a window. The program that owns the platform
/// performs it and says whether it went well.
#[derive(Clone, Copy, Debug, PartialEq, Eq, Structural)]
pub enum SetupStep {
    /// Start the platform layer.
    Platform,
    /// Start its video subsystem.
    Video,
    /// Ask for a graphics context of this version.
    ContextVersion { major: u8, minor: u8 },
    /// Ask for a graphics context of this profile.
    ContextProfile { profile: Profile },
    /// Open a window of this size in pixels, with the title of the setup;
    /// `centered` on the screen, and able to hold a graphics context where
    /// `opengl` is set.
    Window { width: u32, height: u32, centered: bool, opengl: bool },
    /// Create the graphics context of the window.
    Context,
    /// Load the entry points of the graphics interface.
    Functions,
    /// Time the presentation of frames.
    SwapInterval { interval: Interval },
    /// Open the source of input events.
    Events,
}

/// The step in position `at` of the order in which a window of the given
/// size is opened: the platform and its video subsystem; a context of
/// version [`CONTEXT_MAJOR`].[`CONTEXT_MINOR`] and of the core profile; the
/// window, centered and for that context; the context; its entry points;
/// presentation in step with the display; the input events. Every position
/// from the last on holds the last step.
pub open spec fn spec_step_at(at: usize, width: u32, height: u32) -> SetupStep {
    if at == 0 {
        SetupStep::Platform
    } else if at == 1 {
        SetupStep::Video
    } else if at == 2 {
        SetupStep::ContextVersion { major: CONTEXT_MAJOR, minor: CONTEXT_MINOR }
    } else if at == 3 {
        SetupStep::ContextProfile { profile: Profile::Core }
    } else if at == 4 {
        SetupStep::Window { width, height, centered: true, opengl: true }
    } else if at == 5 {
        SetupStep::Context
    } else if at == 6 {
        SetupStep::Functions
    } else if at == 7 {
        SetupStep::SwapInterval { interval: Interval::VSync }
    } else {
        SetupStep::Events
    }
}

/// The step in position `at` of the order in which a window of the given
/// size is opened.
#[verifier::when_used_as_spec(spec_step_at)]
pub fn step_at(at: usize, width: u32, height: u32) -> (step: SetupStep)
    ensures
        step == spec_step_at(at, width, height),
{
    if at == 0 {
        SetupStep::Platform
    } else if at == 1 {
        SetupStep::Video
    } else if at == 2 {
        SetupStep::ContextVersion { major: CONTEXT_MAJOR, minor: CONTEXT_MINOR }
    } else if at == 3 {
        SetupStep::ContextProfile { profile: Profile::Core }
    } else if at == 4 {
        SetupStep::Window { width, height, centered: true, opengl: true }
    } else if at == 5 {
        SetupStep::Context
    } else if at == 6 {
        SetupStep::Functions
    } else if at == 7 {
        SetupStep::SwapInterval { interval: Interval::VSync }
    } else {
        SetupStep::Events
    }
}

/// A window that could not be opened: the step that failed, and what the
/// platform said of it.
#[derive(Clone, Debug, PartialEq, Eq)]
pub struct InitError {
    pub step: SetupStep,
    pub message: String,
}

/// How far the opening of a window has come.
pub ghost enum Progress {
    /// The first `completed` steps went well and no step has failed.
    Going { completed: usize },
    /// The step `step` failed with `message`.
    Failed { step: SetupStep, message: Seq<char> },
}

/// The opening of a window in progress.
///
/// The steps are performed in the order of [`step_at`]. The first one that
/// fails ends the setup: no further step is asked for, and nothing is tried
/// again.
#[derive(Debug)]
pub struct WindowSetup {
    title: String,
    width: u32,
    height: u32,
    completed: usize,
    failure: Option<InitError>,
}

/// The mathematical value of a [`WindowSetup`].
pub ghost struct WindowSetupView {
    pub title: Seq<char>,
    pub width: u32,
    pub height: u32,
    pub progress: Progress,
}

impl WindowSetupView {
    /// A setup of which no step has been performed.
    pub open spec fn start(title: Seq<char>, width: u32, height: u32) -> WindowSetupView {
        WindowSetupView { title, width, height, progress: Progress::Going { completed: 0 } }
    }

    /// The step whose outcome is awaited, or `None` once the setup has come
    /// to its end.
    pub open spec fn pending(self) -> Option<SetupStep> {
        match self.progress {
            Progress::Going { completed } if completed < STEPS => Some(
                spec_step_at(completed, self.width, self.height),
            ),
            _ => None,
        }
    }

    /// How the setup ended: well, or with the step that failed and its
    /// message. `None` while a step is pending.
    pub open spec fn outcome(self) -> Option<Result<(), (SetupStep, Seq<char>)>> {
        match self.progress {
            Progress::Going { completed } => if completed < STEPS {
                None
            } else {
                Some(Ok(()))
            },
            Progress::Failed { step, message } => Some(Err((step, message))),
        }
    }

    /// The setup after the pending step has been performed: `None` says
    /// that it went well, a message that it failed. Once nothing is pending
    /// an outcome changes nothing.
    pub open spec fn after(self, outcome: Option<Seq<char>>) -> WindowSetupView {
        match (self.progress, outcome) {
            (Progress::Going { completed }, None) if completed < STEPS => WindowSetupView {
                progress: Progress::Going { completed: (completed + 1) as usize },
                ..self
            },
            (Progress::Going { completed }, Some(message)) if completed < STEPS => WindowSetupView {
                progress: Progress::Failed {
                    step: spec_step_at(completed, self.width, self.height),
                    message,
                },
                ..self
            },
            _ => self,
        }
    }

    /// The setup after `outcomes`, one after the other.
    pub open spec fn after_all(self, outcomes: Seq<Option<Seq<char>>>) -> WindowSetupView
        decreases outcomes.len(),
    {
        if outcomes.len() == 0 {
            self
        } else {
            self.after(outcomes[0]).after_all(outcomes.drop_first())
        }
    }
}

/// What an outcome of a step says: `None` that it went well, else the
/// message it failed with.
pub open spec fn failure_of(outcome: Result<(), String>) -> Option<Seq<char>> {
    match outcome {
        Ok(_) => None,
        Err(message) => Some(message@),
    }
}

impl View for WindowSetup {
    type V = WindowSetupView;

    closed spec fn view(&self) -> WindowSetupView {
        WindowSetupView {
            title: self.title@,
            width: self.width,
            height: self.height,
            progress: match self.failure {
                Some(error) => Progress::Failed { step: error.step, message: error.message@ },
                None => Progress::Going { completed: self.completed },
            },
        }
    }
}

impl WindowSetup {
    /// Starts the opening of a window with the given title and size in
    /// pixels. No step has been performed yet.
    pub fn new(title: &str, width: u32, height: u32) -> (setup: WindowSetup)
        ensures
            setup@ == WindowSetupView::start(title@, width, height),
    {
        WindowSetup { title: title.to_owned(), width, height, completed: 0, failure: None }
    }

    /// The title of the window.
    pub fn title(&self) -> (title: &str)
        ensures
            title@ == self@.title,
    {
        self.title.as_str()
    }

    /// The width of the window in pixels.
    pub fn width(&self) -> (width: u32)
        ensures
            width == self@.width,
    {
        self.width
    }

    /// The height of the window in pixels.
    pub fn height(&self) -> (height: u32)
        ensures
            height == self@.height,
    {
        self.height
    }

    /// The step to perform next, or `None` once the setup has come to its
    /// end.
    pub fn pending(&self) -> (step: Option<SetupStep>)
        ensures
            step == self@.pending(),
    {
        if self.failure.is_none() && self.completed < STEPS {
            Some(step_at(self.completed, self.width, self.height))
        } else {
            None
        }
    }

    /// Takes the outcome of the pending step. Once nothing is pending the
    /// outcome is dropped.
    pub fn resume(&mut self, outcome: Result<(), String>)
        ensures
            final(self)@ == old(self)@.after(failure_of(outcome)),
    {
        if self.failure.is_none() && self.completed < STEPS {
            match outcome {
                Ok(_) => {
                    self.completed = self.completed + 1;
                },
                Err(message) => {
                    let step = step_at(self.completed, self.width, self.height);
                    self.failure = Some(InitError { step, message });
                },
            }
        }
    }

    /// How the setup ended, or `None` while a step is pending.
    ///
    /// It went well exactly where every step did; else the error names the
    /// first step that failed and holds its message.
    pub fn finish(self) -> (outcome: Option<Result<(), InitError>>)
        ensures
            match outcome {
                None => self@.outcome() is None,
                Some(Ok(_)) => self@.outcome() == Some(Ok::<(), (SetupStep, Seq<char>)>(())),
                Some(Err(error)) => self@.outcome() == Some(
                    Err::<(), (SetupStep, Seq<char>)>((error.step, error.message@)),
                ),
            },
    {
        match self.failure {
            Some(error) => Some(Err(error)),
            None => if self.completed < STEPS {
                None
            } else {
                Some(Ok(()))
            },
        }
    }
}

/// The outcomes of `count` steps that all went well.
pub open spec fn all_well(count: nat) -> Seq<Option<Seq<char>>> {
    Seq::new(count, |at: int| None::<Seq<char>>)
}

/// The steps come in order and the first failure is the end. Where the
/// first `passed` steps of a fresh setup go well, the next step asked for is
/// the one in position `passed`; and where that one then fails with
/// `message`, the setup has ended with that step and that message, and no
/// step is pending.
pub proof fn lemma_first_failure_ends_setup(start: WindowSetupView, passed: usize, message: Seq<char>)
    requires
        start.progress == (Progress::Going { completed: 0 }),
        passed < STEPS,
    ensures
        start.after_all(all_well(passed as nat)).pending() == Some(
            spec_step_at(passed, start.width, start.height),
        ),
        start.after_all(all_well(passed as nat)).after(Some(message)).pending() is None,
        start.after_all(all_well(passed as nat)).after(Some(message)).outcome() == Some(
            Err::<(), (SetupStep, Seq<char>)>(
                (spec_step_at(passed, start.width, start.height), message),
            ),
        ),
{
    lemma_passed_steps(start, passed);
}

/// Where all steps of a fresh setup go well it ends well, after exactly
/// [`STEPS`] steps.
pub proof fn lemma_setup_succeeds(start: WindowSetupView)
    requires
        start.progress == (Progress::Going { completed: 0 }),
    ensures
        start.after_all(all_well(STEPS as nat)).pending() is None,
        start.after_all(all_well(STEPS as nat)).outcome() == Some(
            Ok::<(), (SetupStep, Seq<char>)>(()),
        ),
{
    lemma_passed_steps(start, STEPS);
}

proof fn lemma_passed_steps(start: WindowSetupView, passed: usize)
    requires
        start.progress is Going,
        start.progress->completed + passed <= STEPS,
    ensures
        start.after_all(all_well(passed as nat)) == (WindowSetupView {
            progress: Progress::Going { completed: (start.progress->completed + passed) as usize },
            ..start
        }),
    decreases passed,
{
    if passed > 0 {
        assert(all_well(passed as nat).drop_first() =~= all_well((passed - 1) as nat));
        lemma_passed_steps(start.after(None), (passed - 1) as usize);
    }
}

} // verus!
