//! The batch as a whole: its settings, the outcome of each task, and what
//! the outcomes add up to.
//!
//! The caller hands the inputs to its workers and collects one outcome per
//! input. A failed task stops no other task; the batch has failed when at
//! least one task has, and that is decided only when all outcomes are in.

use vstd::prelude::*;
use crate::discovery::{get_video_extensions, parsed_extensions, InputSpec, InputSpecView};
use crate::extract::TaskResult;

verus! {

/// The settings of one batch. They do not change while the batch runs.
#[derive(Debug)]
pub struct BatchConfig {
    input_root: String,
    output_root: String,
    concurrency: usize,
    quality: u8,
    allowed_extensions: Vec<String>,
}

/// A [`BatchConfig`] as contracts see it.
pub struct BatchConfigView {
    pub input_root: Seq<char>,
    pub output_root: Seq<char>,
    pub concurrency: usize,
    pub quality: u8,
    pub allowed_extensions: Seq<Seq<char>>,
}

impl View for BatchConfig {
    type V = BatchConfigView;

    closed spec fn view(&self) -> BatchConfigView {
        BatchConfigView {
            input_root: self.input_root@,
            output_root: self.output_root@,
            concurrency: self.concurrency,
            quality: self.quality,
            allowed_extensions: self.allowed_extensions.deep_view(),
        }
    }
}

impl BatchConfig {
    #[verifier::type_invariant]
    spec fn has_a_worker(&self) -> bool {
        self.concurrency >= 1
    }

    /// Settings for a batch that reads videos under `input_root`, writes
    /// frames under `output_root`, runs at most `concurrency` decoders at a
    /// time, asks the decoder for image quality `quality`, and takes files
    /// whose extension is on the comma-separated list `extensions`.
    ///
    /// There are no settings without a worker: `None` for a concurrency of
    /// zero. The quality is handed to the decoder as it is; whether it is in
    /// the decoder's range is for the decoder to say.
    pub fn new(
        input_root: String,
        output_root: String,
        concurrency: usize,
        quality: u8,
        extensions: &str,
    ) -> (config: Option<BatchConfig>)
        ensures
            config is Some <==> concurrency >= 1,
            config matches Some(made) ==> made@ == (BatchConfigView {
                input_root: input_root@,
                output_root: output_root@,
                concurrency,
                quality,
                allowed_extensions: parsed_extensions(extensions@),
            }),
    {
        if concurrency == 0 {
            return None;
        }
        let allowed_extensions = get_video_extensions(extensions);
        Some(BatchConfig { input_root, output_root, concurrency, quality, allowed_extensions })
    }

    /// The directory whose tree is searched for videos.
    pub fn input_root(&self) -> (root: &String)
        ensures
            root@ == self@.input_root,
    {
        &self.input_root
    }

    /// The directory under which each input gets its output directory.
    pub fn output_root(&self) -> (root: &String)
        ensures
            root@ == self@.output_root,
    {
        &self.output_root
    }

    /// How many decoders may run at the same time; at least one.
    pub fn concurrency(&self) -> (workers: usize)
        ensures
            workers == self@.concurrency,
            workers >= 1,
    {
        proof {
            use_type_invariant(self);
        }
        self.concurrency
    }

    /// The image quality that the decoder is asked for.
    pub fn quality(&self) -> (quality: u8)
        ensures
            quality == self@.quality,
    {
        self.quality
    }

    /// The extensions, in lower case, of the files that the batch takes.
    pub fn allowed_extensions(&self) -> (allowed: &Vec<String>)
        ensures
            allowed.deep_view() == self@.allowed_extensions,
    {
        &self.allowed_extensions
    }
}

/// The number of workers for a requested concurrency on a machine where
/// `detected` processors were found: the request where it names a number, and
/// one worker per processor, but at least one, where it is zero.
pub open spec fn worker_count_of(requested: usize, detected: usize) -> usize {
    if requested >= 1 {
        requested
    } else if detected >= 1 {
        detected
    } else {
        1
    }
}

/// Calls `num_cpus::get`. Trusted, though nothing is claimed of the number
/// that comes back: it is the machine's to say.
#[verifier::external_body]
pub(crate) fn detected_processors() -> usize {
    num_cpus::get()
}

/// Settles the number of workers, given what was requested and how many
/// processors were found.
pub fn worker_count(requested: usize, detected: usize) -> (workers: usize)
    ensures
        workers == worker_count_of(requested, detected),
        workers >= 1,
{
    if requested >= 1 {
        requested
    } else if detected >= 1 {
        detected
    } else {
        1
    }
}

/// Settles the number of workers on this machine: `requested` where it names
/// a number, and one worker per processor of this machine where it is zero.
pub fn workers_for(requested: usize) -> (workers: usize)
    ensures
        workers >= 1,
        requested >= 1 ==> workers == requested,
{
    if requested >= 1 {
        requested
    } else {
        worker_count(requested, detected_processors())
    }
}

/// What became of one input.
#[derive(Clone, Debug, PartialEq, Eq)]
pub struct TaskOutcome {
    /// The input.
    pub input: InputSpec,
    /// How its extraction ended.
    pub result: TaskResult,
}

/// A [`TaskOutcome`] as contracts see it.
pub struct TaskOutcomeView {
    pub input: InputSpecView,
    pub result: TaskResult,
}

impl View for TaskOutcome {
    type V = TaskOutcomeView;

    open spec fn view(&self) -> TaskOutcomeView {
        TaskOutcomeView { input: self.input@, result: self.result }
    }
}

impl DeepView for TaskOutcome {
    type V = TaskOutcomeView;

    open spec fn deep_view(&self) -> TaskOutcomeView {
        self@
    }
}

/// Whether one of the outcomes is a failure.
pub open spec fn any_failed(outcomes: Seq<TaskOutcomeView>) -> bool {
    exists|i: int| 0 <= i < outcomes.len() && (#[trigger] outcomes[i]).result is Failed
}

/// The exit status of a batch with these outcomes: zero where every task
/// succeeded or was skipped, one where a task failed.
pub open spec fn exit_status_of(outcomes: Seq<TaskOutcomeView>) -> i32 {
    if any_failed(outcomes) {
        1
    } else {
        0
    }
}

/// Whether an extraction ended in failure.
pub fn is_failure(result: TaskResult) -> (failed: bool)
    ensures
        failed == (result is Failed),
{
    match result {
        TaskResult::Failed(_) => true,
        _ => false,
    }
}

/// Finds the first task that failed: the position of the first failure
/// among the outcomes, `None` where no task failed.
pub fn first_failure(outcomes: &Vec<TaskOutcome>) -> (first: Option<usize>)
    ensures
        first is None <==> !any_failed(outcomes.deep_view()),
        first matches Some(at) ==> {
            &&& at < outcomes.len()
            &&& outcomes[at as int].result is Failed
            &&& forall|k: int| 0 <= k < at ==> !((#[trigger] outcomes[k]).result is Failed)
        },
{
    let mut i: usize = 0;
    while i < outcomes.len()
        invariant
            i <= outcomes.len(),
            forall|k: int| 0 <= k < i ==> !((#[trigger] outcomes[k]).result is Failed),
        decreases outcomes.len() - i,
    {
        if is_failure(outcomes[i].result) {
            assert(outcomes.deep_view()[i as int].result is Failed);
            return Some(i);
        }
        i = i + 1;
    }
    None
}

/// Lists the tasks that failed: the positions of all failures among the
/// outcomes, in rising order.
pub fn failures(outcomes: &Vec<TaskOutcome>) -> (failed: Vec<usize>)
    ensures
        forall|k: int| 0 <= k < failed.len() ==> (#[trigger] failed[k]) < outcomes.len(),
        forall|k: int|
            0 <= k < failed.len() ==> outcomes[(#[trigger] failed[k]) as int].result is Failed,
        forall|j: int, k: int| 0 <= j < k < failed.len() ==> failed[j] < failed[k],
        forall|i: int|
            0 <= i < outcomes.len() && (#[trigger] outcomes[i]).result is Failed
                ==> failed@.contains(i as usize),
{
    let mut failed: Vec<usize> = Vec::new();
    let mut i: usize = 0;
    while i < outcomes.len()
        invariant
            i <= outcomes.len(),
            forall|k: int| 0 <= k < failed.len() ==> (#[trigger] failed[k]) < i,
            forall|k: int|
                0 <= k < failed.len() ==> outcomes[(#[trigger] failed[k]) as int].result is Failed,
            forall|j: int, k: int| 0 <= j < k < failed.len() ==> failed[j] < failed[k],
            forall|n: int|
                0 <= n < i && (#[trigger] outcomes[n]).result is Failed ==> failed@.contains(
                    n as usize,
                ),
        decreases outcomes.len() - i,
    {
        if is_failure(outcomes[i].result) {
            let ghost before = failed@;
            failed.push(i);
            assert(failed@[before.len() as int] == i);
            assert forall|n: int|
                0 <= n < i + 1 && (#[trigger] outcomes[n]).result is Failed implies failed@.contains(
                n as usize,
            ) by {
                if n < i {
                    let at = choose|at: int| 0 <= at < before.len() && before[at] == n as usize;
                    assert(failed@[at] == n as usize);
                }
            }
        }
        i = i + 1;
    }
    failed
}

/// The exit status with which the batch ends: zero where every task
/// succeeded or was skipped, one where a task failed.
pub fn exit_status(outcomes: &Vec<TaskOutcome>) -> (status: i32)
    ensures
        status == exit_status_of(outcomes.deep_view()),
{
    match first_failure(outcomes) {
        Some(_) => 1,
        None => 0,
    }
}

} // verus!
