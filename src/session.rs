//! The questions asked of the user, what each typed line leads to, and the
//! transcoder invocation that a complete answer yields.
use vstd::prelude::*;

use crate::text::{clean_path, trimmed};

verus! {

/// The two questions, in the order in which they are asked.
#[derive(Clone, Copy, Debug, PartialEq, Eq, Structural)]
pub enum Prompt {
    VideoPath,
    OutputPath,
}

impl Prompt {
    /// The line printed before the answer is read.
    pub fn text(&self) -> (r: &'static str)
        ensures
            *self == Prompt::VideoPath ==> r@ == "Enter video path:"@,
            *self == Prompt::OutputPath ==> r@ == "Enter output path:"@,
    {
        match self {
            Prompt::VideoPath => "Enter video path:",
            Prompt::OutputPath => "Enter output path:",
        }
    }
}

/// Input ended, or could not be read, before the line that was asked for.
#[derive(Clone, Copy, Debug, PartialEq, Eq, Structural)]
pub enum InputError {
    VideoPathUnread,
    OutputPathUnread,
}

impl InputError {
    /// The diagnostic reported before the run stops.
    pub fn message(&self) -> (r: &'static str)
        ensures
            r@ == "Failed to read input"@,
    {
        "Failed to read input"
    }
}

/// A source media file and the file its audio track is written to.
#[derive(Debug)]
pub struct Job {
    pub video_path: String,
    pub output_path: String,
}

/// The name of the transcoding program that carries out a job.
pub const TRANSCODER: &'static str = "ffmpeg";

impl Job {
    /// The arguments handed to the transcoder: read the source, drop its
    /// video stream, write the destination.
    pub fn tool_arguments(&self) -> (r: Vec<String>)
        ensures
            r@.len() == 4,
            r@[0]@ == "-i"@,
            r@[1]@ == self.video_path@,
            r@[2]@ == "-vn"@,
            r@[3]@ == self.output_path@,
    {
        let mut r: Vec<String> = Vec::new();
        r.push("-i".to_owned());
        r.push(self.video_path.clone());
        r.push("-vn".to_owned());
        r.push(self.output_path.clone());
        r
    }
}

/// Where the dialogue stands: which answer is awaited, and what was
/// answered so far.
#[derive(Debug)]
pub enum Session {
    AwaitingVideoPath,
    AwaitingOutputPath { video_path: String },
}

/// What follows a typed line: ask the next question, run the job, or stop
/// with an error.
#[derive(Debug)]
pub enum Step {
    Ask(Session),
    Run(Job),
    Fail(InputError),
}

impl Session {
    /// A dialogue that has asked nothing yet.
    pub fn new() -> (r: Session)
        ensures
            r is AwaitingVideoPath,
    {
        Session::AwaitingVideoPath
    }

    /// The question whose answer is awaited.
    pub fn prompt(&self) -> (r: Prompt)
        ensures
            self is AwaitingVideoPath ==> r == Prompt::VideoPath,
            self is AwaitingOutputPath ==> r == Prompt::OutputPath,
    {
        match self {
            Session::AwaitingVideoPath => Prompt::VideoPath,
            Session::AwaitingOutputPath { .. } => Prompt::OutputPath,
        }
    }

    /// Takes the line typed in answer to `prompt()`, or `None` where input
    /// ended or could not be read. The line is trimmed and kept as it is:
    /// no path is checked here.
    pub fn advance(self, line: Option<&str>) -> (r: Step)
        ensures
            self is AwaitingVideoPath ==> match line {
                Some(l) => (r matches Step::Ask(Session::AwaitingOutputPath { video_path })
                    && video_path@ == trimmed(l@)),
                None => r == Step::Fail(InputError::VideoPathUnread),
            },
            self matches Session::AwaitingOutputPath { video_path: v } ==> match line {
                Some(l) => (r matches Step::Run(job) && job.video_path@ == v@
                    && job.output_path@ == trimmed(l@)),
                None => r == Step::Fail(InputError::OutputPathUnread),
            },
    {
        match self {
            Session::AwaitingVideoPath => match line {
                Some(l) => Step::Ask(Session::AwaitingOutputPath { video_path: clean_path(l) }),
                None => Step::Fail(InputError::VideoPathUnread),
            },
            Session::AwaitingOutputPath { video_path } => match line {
                Some(l) => Step::Run(Job { video_path, output_path: clean_path(l) }),
                None => Step::Fail(InputError::OutputPathUnread),
            },
        }
    }
}

/// The whole dialogue on the two lines that input holds (`None` for one
/// that could not be read): the job, or the error that stops the run
/// before anything is invoked.
pub fn job_from_lines(first: Option<&str>, second: Option<&str>) -> (r: Result<Job, InputError>)
    ensures
        first is None ==> r == Err::<Job, InputError>(InputError::VideoPathUnread),
        first is Some && second is None ==> r == Err::<Job, InputError>(
            InputError::OutputPathUnread,
        ),
        first is Some && second is Some ==> (r matches Ok(job) && job.video_path@ == trimmed(
            first->0@,
        ) && job.output_path@ == trimmed(second->0@)),
{
    let session = Session::new();
    match session.advance(first) {
        Step::Ask(next) => match next.advance(second) {
            Step::Run(job) => Ok(job),
            Step::Fail(e) => Err(e),
            Step::Ask(_) => Err(InputError::OutputPathUnread),
        },
        Step::Fail(e) => Err(e),
        Step::Run(job) => Ok(job),
    }
}

} // verus!
