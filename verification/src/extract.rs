//! The extraction of one input: where its frames go, what the decoder is
//! told, and what to do next.
//!
//! An extraction asks the file system whether its output directory exists,
//! creates it, runs the decoder and reads the exit status. None of that
//! happens here. [`advance`] only decides: given how far the extraction has
//! come and what was answered last, it says what to do next. The caller does
//! it and comes back with the answer.

use vstd::prelude::*;
use crate::discovery::InputSpec;
use crate::path::{file_stem, join, path_join, path_stem};
use crate::text::{decimal, decimal_spec};

verus! {

/// Why an extraction failed.
#[derive(Clone, Copy, Debug, PartialEq, Eq)]
pub enum ExtractError {
    /// The input's path names no file, so there is no stem to name the output
    /// directory after.
    InvalidName,
    /// The output directory could not be created.
    DirectoryCreateError,
    /// The decoder ran and ended with a status other than zero; the status is
    /// absent where a signal ended it.
    DecoderError(Option<i32>),
    /// The decoder could not be started.
    ProcessSpawnError,
}

/// How the extraction of one input ended.
#[derive(Clone, Copy, Debug, PartialEq, Eq)]
pub enum TaskResult {
    /// The decoder ran and ended with status zero.
    Success,
    /// The output directory was there already; nothing was done.
    Skipped,
    /// The extraction failed.
    Failed(ExtractError),
}

/// How far an extraction has come.
#[derive(Clone, Copy, Debug, PartialEq, Eq)]
pub enum Phase {
    /// Nothing has been asked yet.
    Ready,
    /// Asked whether the output directory exists.
    Gating,
    /// Asked for the output directory to be created.
    Creating,
    /// Asked for the decoder to be run.
    Decoding,
    /// The extraction has ended.
    Finished,
}

/// What the caller reports to an extraction.
#[derive(Clone, Copy, Debug, PartialEq, Eq)]
pub enum Event {
    /// The extraction is to begin.
    Start,
    /// Whether the output directory exists.
    Exists(bool),
    /// The output directory was created.
    Created,
    /// The output directory could not be created.
    CreateFailed,
    /// The decoder ran and ended with this status, absent where a signal
    /// ended it.
    Exited(Option<i32>),
    /// The decoder could not be started.
    SpawnFailed,
}

/// What an extraction asks of the caller.
#[derive(Clone, Debug, PartialEq, Eq)]
pub enum Action {
    /// Report with [`Event::Exists`] whether this directory exists.
    CheckExists(String),
    /// Create this directory and its parents; report [`Event::Created`] or
    /// [`Event::CreateFailed`].
    CreateDirectory(String),
    /// Run the decoder with these arguments and wait for it; report
    /// [`Event::Exited`] or [`Event::SpawnFailed`].
    RunDecoder(Vec<String>),
    /// Nothing more: the extraction has ended with this result.
    Finish(TaskResult),
}

/// An [`Action`] as contracts see it.
pub enum ActionView {
    CheckExists(Seq<char>),
    CreateDirectory(Seq<char>),
    RunDecoder(Seq<Seq<char>>),
    Finish(TaskResult),
}

impl View for Action {
    type V = ActionView;

    open spec fn view(&self) -> ActionView {
        match self {
            Action::CheckExists(dir) => ActionView::CheckExists(dir@),
            Action::CreateDirectory(dir) => ActionView::CreateDirectory(dir@),
            Action::RunDecoder(args) => ActionView::RunDecoder(args.deep_view()),
            Action::Finish(result) => ActionView::Finish(*result),
        }
    }
}

/// The directory that receives the frames of the input at `path`: the output
/// root extended by the stem of the input's file name. `None` where the path
/// names no file.
pub open spec fn output_directory_of(path: Seq<char>, output_root: Seq<char>) -> Option<
    Seq<char>,
> {
    match path_stem(path) {
        Some(stem) => Some(path_join(output_root, stem)),
        None => None,
    }
}

/// The pattern after which the decoder names the frames in an output
/// directory: `keyframe_` and a number of five digits, counted from one.
pub open spec fn output_pattern_of(output_dir: Seq<char>) -> Seq<char> {
    path_join(output_dir, "keyframe_%05d.jpg"@)
}

/// The arguments of one decoder run, in order: hardware acceleration chosen
/// by the decoder, the input, a filter that keeps intra-coded frames only,
/// frame timing that follows the frames kept, the image quality, two decoding
/// threads, errors only in the log, and the output pattern.
pub open spec fn decoder_arguments_of(path: Seq<char>, quality: u8, pattern: Seq<char>) -> Seq<
    Seq<char>,
> {
    seq![
        "-hwaccel"@,
        "auto"@,
        "-i"@,
        path,
        "-vf"@,
        "select=eq(pict_type\\,I)"@,
        "-vsync"@,
        "vfr"@,
        "-q:v"@,
        decimal_spec(quality as nat),
        "-threads"@,
        "2"@,
        "-loglevel"@,
        "error"@,
        pattern,
    ]
}

/// The result that an exit status of the decoder stands for: success for
/// zero, a decoder error for anything else.
pub open spec fn exit_result(status: Option<i32>) -> TaskResult {
    if status == Some(0i32) {
        TaskResult::Success
    } else {
        TaskResult::Failed(ExtractError::DecoderError(status))
    }
}

/// The next phase and the next request of an extraction that is in `phase`
/// and is told `event`; `None` where the event is not an answer to what the
/// phase has asked.
///
/// An extraction begins by asking whether its output directory exists. If it
/// does, the extraction ends as skipped. If not, it asks for the directory,
/// then for the decoder, and ends with what the decoder's status says. An
/// input without a file name fails at once, and a directory that cannot be
/// created or a decoder that cannot be started ends the extraction as failed.
pub open spec fn next_step(
    path: Seq<char>,
    output_root: Seq<char>,
    quality: u8,
    phase: Phase,
    event: Event,
) -> Option<(Phase, ActionView)> {
    match output_directory_of(path, output_root) {
        None => match (phase, event) {
            (Phase::Ready, Event::Start) => Some(
                (Phase::Finished, ActionView::Finish(TaskResult::Failed(ExtractError::InvalidName))),
            ),
            _ => None,
        },
        Some(dir) => match (phase, event) {
            (Phase::Ready, Event::Start) => Some((Phase::Gating, ActionView::CheckExists(dir))),
            (Phase::Gating, Event::Exists(true)) => Some(
                (Phase::Finished, ActionView::Finish(TaskResult::Skipped)),
            ),
            (Phase::Gating, Event::Exists(false)) => Some(
                (Phase::Creating, ActionView::CreateDirectory(dir)),
            ),
            (Phase::Creating, Event::Created) => Some(
                (
                    Phase::Decoding,
                    ActionView::RunDecoder(
                        decoder_arguments_of(path, quality, output_pattern_of(dir)),
                    ),
                ),
            ),
            (Phase::Creating, Event::CreateFailed) => Some(
                (
                    Phase::Finished,
                    ActionView::Finish(TaskResult::Failed(ExtractError::DirectoryCreateError)),
                ),
            ),
            (Phase::Decoding, Event::Exited(status)) => Some(
                (Phase::Finished, ActionView::Finish(exit_result(status))),
            ),
            (Phase::Decoding, Event::SpawnFailed) => Some(
                (
                    Phase::Finished,
                    ActionView::Finish(TaskResult::Failed(ExtractError::ProcessSpawnError)),
                ),
            ),
            _ => None,
        },
    }
}

/// The name of the decoder's program.
pub fn decoder_program() -> (program: &'static str)
    ensures
        program@ == "ffmpeg"@,
{
    "ffmpeg"
}

/// Where the frames of the input at `path` go: a directory under
/// `output_root`, named after the stem of the input's file name. Fails with
/// [`ExtractError::InvalidName`] where the path names no file.
pub fn output_directory(path: &str, output_root: &str) -> (dir: Result<String, ExtractError>)
    ensures
        match dir {
            Ok(dir) => output_directory_of(path@, output_root@) == Some(dir@),
            Err(error) => error == ExtractError::InvalidName && output_directory_of(
                path@,
                output_root@,
            ) is None,
        },
{
    match file_stem(path) {
        Some(stem) => Ok(join(output_root, stem.as_str())),
        None => Err(ExtractError::InvalidName),
    }
}

/// The pattern after which the decoder names the frames in `output_dir`.
pub fn output_pattern(output_dir: &str) -> (pattern: String)
    ensures
        pattern@ == output_pattern_of(output_dir@),
{
    join(output_dir, "keyframe_%05d.jpg")
}

/// The arguments with which the decoder extracts the keyframes of the input
/// at `path` into files named after `pattern`.
pub fn decoder_arguments(path: &str, quality: u8, pattern: &str) -> (args: Vec<String>)
    ensures
        args.deep_view() == decoder_arguments_of(path@, quality, pattern@),
{
    let mut args: Vec<String> = Vec::new();
    args.push(String::from_str("-hwaccel"));
    args.push(String::from_str("auto"));
    args.push(String::from_str("-i"));
    args.push(String::from_str(path));
    args.push(String::from_str("-vf"));
    args.push(String::from_str("select=eq(pict_type\\,I)"));
    args.push(String::from_str("-vsync"));
    args.push(String::from_str("vfr"));
    args.push(String::from_str("-q:v"));
    args.push(decimal(quality));
    args.push(String::from_str("-threads"));
    args.push(String::from_str("2"));
    args.push(String::from_str("-loglevel"));
    args.push(String::from_str("error"));
    args.push(String::from_str(pattern));
    args
}

/// Reads the decoder's exit status.
pub fn interpret_exit(status: Option<i32>) -> (result: TaskResult)
    ensures
        result == exit_result(status),
{
    match status {
        Some(code) => if code == 0 {
            TaskResult::Success
        } else {
            TaskResult::Failed(ExtractError::DecoderError(status))
        },
        None => TaskResult::Failed(ExtractError::DecoderError(status)),
    }
}

/// Moves the extraction of `input` one step on: from the phase it is in and
/// the event that the caller reports to the next phase and the next request.
/// Returns `None`, and decides nothing, where the event is not an answer to
/// what the phase has asked.
pub fn advance(
    input: &InputSpec,
    output_root: &str,
    quality: u8,
    phase: Phase,
    event: Event,
) -> (next: Option<(Phase, Action)>)
    ensures
        match next {
            Some((after, action)) => next_step(input@.path, output_root@, quality, phase, event)
                == Some((after, action@)),
            None => next_step(input@.path, output_root@, quality, phase, event) is None,
        },
{
    let path = input.path().as_str();
    match output_directory(path, output_root) {
        Err(error) => match phase {
            Phase::Ready => match event {
                Event::Start => Some((Phase::Finished, Action::Finish(TaskResult::Failed(error)))),
                _ => None,
            },
            _ => None,
        },
        Ok(dir) => match phase {
            Phase::Ready => match event {
                Event::Start => Some((Phase::Gating, Action::CheckExists(dir))),
                _ => None,
            },
            Phase::Gating => match event {
                Event::Exists(exists) => if exists {
                    Some((Phase::Finished, Action::Finish(TaskResult::Skipped)))
                } else {
                    Some((Phase::Creating, Action::CreateDirectory(dir)))
                },
                _ => None,
            },
            Phase::Creating => match event {
                Event::Created => {
                    let pattern = output_pattern(dir.as_str());
                    let args = decoder_arguments(path, quality, pattern.as_str());
                    Some((Phase::Decoding, Action::RunDecoder(args)))
                },
                Event::CreateFailed => Some(
                    (
                        Phase::Finished,
                        Action::Finish(TaskResult::Failed(ExtractError::DirectoryCreateError)),
                    ),
                ),
                _ => None,
            },
            Phase::Decoding => match event {
                Event::Exited(status) => Some(
                    (Phase::Finished, Action::Finish(interpret_exit(status))),
                ),
                Event::SpawnFailed => Some(
                    (
                        Phase::Finished,
                        Action::Finish(TaskResult::Failed(ExtractError::ProcessSpawnError)),
                    ),
                ),
                _ => None,
            },
            Phase::Finished => None,
        },
    }
}

} // verus!
