//! What holds of every run of a batch.
//!
//! The crate never touches the file system or the decoder, so what a run
//! does to them is stated over a model: the set of directories that exist,
//! and, for each task, what the world would answer if asked to create the
//! output directory and to run the decoder. In the model the tasks of a
//! batch run one after the other. Workers that run them side by side come
//! to the same results as long as no two of them are busy with the same
//! output directory.

use vstd::prelude::*;
use crate::extract::{
    decoder_arguments_of, exit_result, next_step, output_directory_of, output_pattern_of,
    ActionView, Event, ExtractError, Phase, TaskResult,
};

verus! {

/// What the world would answer to the requests of one extraction.
pub struct Replies {
    /// Whether the output directory can be created.
    pub create_ok: bool,
    /// Whether the decoder can be started.
    pub spawn_ok: bool,
    /// The status with which the decoder ends once it has started.
    pub status: Option<i32>,
}

/// What one extraction has come to.
pub struct Run {
    /// How the extraction ended.
    pub result: TaskResult,
    /// The directories that exist afterwards.
    pub dirs: Set<Seq<char>>,
    /// The argument lists with which the decoder was called, in order.
    pub decoder_calls: Seq<Seq<Seq<char>>>,
}

/// What a batch has come to.
pub struct BatchRun {
    /// How each extraction ended, in the order of the inputs.
    pub results: Seq<TaskResult>,
    /// The directories that exist afterwards.
    pub dirs: Set<Seq<char>>,
    /// The argument lists with which the decoder was called, in order.
    pub decoder_calls: Seq<Seq<Seq<char>>>,
}

/// Replies under which nothing goes wrong: the directory can be created, and
/// the decoder starts and ends with status zero.
pub open spec fn healthy(replies: Replies) -> bool {
    replies.create_ok && replies.spawn_ok && replies.status == Some(0i32)
}

/// The world's answer to one request, and the directories that exist after
/// it. Creating a directory adds it; nothing else changes what exists. An
/// extraction that has ended asks for nothing, and what is answered to it is
/// of no account.
pub open spec fn answer(dirs: Set<Seq<char>>, replies: Replies, action: ActionView) -> (
    Event,
    Set<Seq<char>>,
) {
    match action {
        ActionView::CheckExists(dir) => (Event::Exists(dirs.contains(dir)), dirs),
        ActionView::CreateDirectory(dir) => if replies.create_ok {
            (Event::Created, dirs.insert(dir))
        } else {
            (Event::CreateFailed, dirs)
        },
        ActionView::RunDecoder(_) => if replies.spawn_ok {
            (Event::Exited(replies.status), dirs)
        } else {
            (Event::SpawnFailed, dirs)
        },
        ActionView::Finish(_) => (Event::Start, dirs),
    }
}

/// The decoder call that a request amounts to, if any.
pub open spec fn call_of(action: ActionView) -> Seq<Seq<Seq<char>>> {
    match action {
        ActionView::RunDecoder(args) => seq![args],
        _ => Seq::empty(),
    }
}

/// The run that comes of stepping an extraction through the world: from
/// `phase` and `event`, each request is answered by the world and the answer
/// handed back, for at most `steps` steps. `None` where the steps run out or
/// an answer does not fit.
pub open spec fn drive(
    path: Seq<char>,
    output_root: Seq<char>,
    quality: u8,
    phase: Phase,
    event: Event,
    dirs: Set<Seq<char>>,
    replies: Replies,
    steps: nat,
) -> Option<Run>
    decreases steps,
{
    if steps == 0 {
        None
    } else {
        match next_step(path, output_root, quality, phase, event) {
            None => None,
            Some((_, ActionView::Finish(result))) => Some(
                Run { result, dirs, decoder_calls: Seq::empty() },
            ),
            Some((after, action)) => {
                let (reply, dirs_after) = answer(dirs, replies, action);
                match drive(
                    path,
                    output_root,
                    quality,
                    after,
                    reply,
                    dirs_after,
                    replies,
                    (steps - 1) as nat,
                ) {
                    Some(rest) => Some(
                        Run {
                            result: rest.result,
                            dirs: rest.dirs,
                            decoder_calls: call_of(action) + rest.decoder_calls,
                        },
                    ),
                    None => None,
                }
            },
        }
    }
}

/// What the extraction of the input at `path` comes to in a world where
/// `dirs` exist.
///
/// An input without a file name fails and changes nothing. An input whose
/// output directory exists is skipped and changes nothing. Otherwise the
/// directory is asked for. If that fails, so does the extraction. If not,
/// the directory exists from then on, the decoder is called once, and the
/// extraction ends with what came of the call.
pub open spec fn extraction(
    path: Seq<char>,
    output_root: Seq<char>,
    quality: u8,
    dirs: Set<Seq<char>>,
    replies: Replies,
) -> Run {
    match output_directory_of(path, output_root) {
        None => Run {
            result: TaskResult::Failed(ExtractError::InvalidName),
            dirs,
            decoder_calls: Seq::empty(),
        },
        Some(dir) => if dirs.contains(dir) {
            Run { result: TaskResult::Skipped, dirs, decoder_calls: Seq::empty() }
        } else if !replies.create_ok {
            Run {
                result: TaskResult::Failed(ExtractError::DirectoryCreateError),
                dirs,
                decoder_calls: Seq::empty(),
            }
        } else {
            Run {
                result: if replies.spawn_ok {
                    exit_result(replies.status)
                } else {
                    TaskResult::Failed(ExtractError::ProcessSpawnError)
                },
                dirs: dirs.insert(dir),
                decoder_calls: seq![decoder_arguments_of(path, quality, output_pattern_of(dir))],
            }
        },
    }
}

/// What a batch comes to in a world where `dirs` exist: the extractions of
/// its inputs, one after the other, each in the world that the one before
/// has left.
pub open spec fn batch(
    paths: Seq<Seq<char>>,
    output_root: Seq<char>,
    quality: u8,
    dirs: Set<Seq<char>>,
    replies: Seq<Replies>,
) -> BatchRun
    decreases paths.len(),
{
    if paths.len() == 0 {
        BatchRun { results: Seq::empty(), dirs, decoder_calls: Seq::empty() }
    } else {
        let earlier = batch(paths.drop_last(), output_root, quality, dirs, replies.drop_last());
        let last = extraction(paths.last(), output_root, quality, earlier.dirs, replies.last());
        BatchRun {
            results: earlier.results.push(last.result),
            dirs: last.dirs,
            decoder_calls: earlier.decoder_calls + last.decoder_calls,
        }
    }
}

/// An extraction that is stepped through the world, beginning to end, comes
/// to what [`extraction`] says, in four steps at most.
pub proof fn lemma_steps_perform_extraction(
    path: Seq<char>,
    output_root: Seq<char>,
    quality: u8,
    dirs: Set<Seq<char>>,
    replies: Replies,
)
    ensures
        drive(path, output_root, quality, Phase::Ready, Event::Start, dirs, replies, 4) == Some(
            extraction(path, output_root, quality, dirs, replies),
        ),
{
    reveal_with_fuel(drive, 5);
}

/// A batch has one result for each input and takes no directory away.
pub proof fn lemma_batch_keeps_directories(
    paths: Seq<Seq<char>>,
    output_root: Seq<char>,
    quality: u8,
    dirs: Set<Seq<char>>,
    replies: Seq<Replies>,
)
    ensures
        batch(paths, output_root, quality, dirs, replies).results.len() == paths.len(),
        dirs.subset_of(batch(paths, output_root, quality, dirs, replies).dirs),
    decreases paths.len(),
{
    if paths.len() > 0 {
        lemma_batch_keeps_directories(
            paths.drop_last(),
            output_root,
            quality,
            dirs,
            replies.drop_last(),
        );
    }
}

/// Where the first run of a batch leaves its directories: after the batch,
/// the output directory of every input exists, unless the input has no file
/// name or its directory could not be created.
proof fn lemma_batch_leaves_directories(
    paths: Seq<Seq<char>>,
    output_root: Seq<char>,
    quality: u8,
    dirs: Set<Seq<char>>,
    replies: Seq<Replies>,
    i: int,
)
    requires
        replies.len() == paths.len(),
        0 <= i < paths.len(),
    ensures
        ({
            let run = batch(paths, output_root, quality, dirs, replies);
            output_directory_of(paths[i], output_root) matches Some(dir) ==> run.results[i]
                == TaskResult::Failed(ExtractError::DirectoryCreateError) || run.dirs.contains(dir)
        }),
    decreases paths.len(),
{
    lemma_batch_keeps_directories(paths.drop_last(), output_root, quality, dirs, replies.drop_last());
    if i < paths.len() - 1 {
        lemma_batch_leaves_directories(
            paths.drop_last(),
            output_root,
            quality,
            dirs,
            replies.drop_last(),
            i,
        );
    }
}

/// A batch whose output directories all exist does nothing.
proof fn lemma_settled_batch_is_idle(
    paths: Seq<Seq<char>>,
    output_root: Seq<char>,
    quality: u8,
    dirs: Set<Seq<char>>,
    replies: Seq<Replies>,
)
    requires
        replies.len() == paths.len(),
        forall|i: int|
            0 <= i < paths.len() ==> (output_directory_of(#[trigger] paths[i], output_root)
                matches Some(dir) ==> dirs.contains(dir)),
    ensures
        ({
            let run = batch(paths, output_root, quality, dirs, replies);
            &&& run.dirs == dirs
            &&& run.decoder_calls == Seq::<Seq<Seq<char>>>::empty()
            &&& run.results.len() == paths.len()
            &&& forall|i: int|
                0 <= i < paths.len() ==> #[trigger] run.results[i] == (if output_directory_of(
                    paths[i],
                    output_root,
                ) is Some {
                    TaskResult::Skipped
                } else {
                    TaskResult::Failed(ExtractError::InvalidName)
                })
        }),
    decreases paths.len(),
{
    if paths.len() > 0 {
        lemma_settled_batch_is_idle(
            paths.drop_last(),
            output_root,
            quality,
            dirs,
            replies.drop_last(),
        );
    }
}

/// The first tasks of a batch end as they would if the batch went no
/// further, and each task runs in the world that the tasks before it have
/// left.
proof fn lemma_batch_prefix(
    paths: Seq<Seq<char>>,
    output_root: Seq<char>,
    quality: u8,
    dirs: Set<Seq<char>>,
    replies: Seq<Replies>,
    k: int,
)
    requires
        replies.len() == paths.len(),
        0 <= k <= paths.len(),
    ensures
        ({
            let whole = batch(paths, output_root, quality, dirs, replies);
            let part = batch(paths.take(k), output_root, quality, dirs, replies.take(k));
            &&& part.results == whole.results.take(k)
            &&& k < paths.len() ==> whole.results[k] == extraction(
                paths[k],
                output_root,
                quality,
                part.dirs,
                replies[k],
            ).result
        }),
    decreases paths.len(),
{
    lemma_batch_keeps_directories(paths, output_root, quality, dirs, replies);
    if k == paths.len() {
        assert(paths.take(k) == paths);
        assert(replies.take(k) == replies);
    } else {
        let front = paths.drop_last();
        let front_replies = replies.drop_last();
        lemma_batch_prefix(front, output_root, quality, dirs, front_replies, k);
        lemma_batch_keeps_directories(front, output_root, quality, dirs, front_replies);
        assert(front.take(k) == paths.take(k));
        assert(front_replies.take(k) == replies.take(k));
    }
}

/// Two inputs that share an output directory are decoded once.
///
/// Take any batch, any world and any replies. Of two tasks with the same
/// output directory the later one is skipped, unless the earlier one could
/// not create the directory.
pub proof fn lemma_shared_directory_is_decoded_once(
    paths: Seq<Seq<char>>,
    output_root: Seq<char>,
    quality: u8,
    dirs: Set<Seq<char>>,
    replies: Seq<Replies>,
    i: int,
    j: int,
)
    requires
        replies.len() == paths.len(),
        0 <= i < j < paths.len(),
    ensures
        ({
            let run = batch(paths, output_root, quality, dirs, replies);
            output_directory_of(paths[i], output_root) is Some && output_directory_of(
                paths[i],
                output_root,
            ) == output_directory_of(paths[j], output_root) && run.results[i] != TaskResult::Failed(
                ExtractError::DirectoryCreateError,
            ) ==> run.results[j] == TaskResult::Skipped
        }),
{
    lemma_batch_keeps_directories(paths, output_root, quality, dirs, replies);
    lemma_batch_prefix(paths, output_root, quality, dirs, replies, j);
    lemma_batch_leaves_directories(paths.take(j), output_root, quality, dirs, replies.take(j), i);
}

/// Running a batch a second time does nothing.
///
/// Take any batch, any world, and any replies of the world to a first and to
/// a second run. If the first run did not fail to create a directory, then
/// the second run, in the world that the first has left, calls the decoder
/// not once and changes no directory, and each of its tasks is skipped
/// (or, where the input has no file name, fails for that reason as it did the
/// first time).
pub proof fn lemma_second_run_is_idle(
    paths: Seq<Seq<char>>,
    output_root: Seq<char>,
    quality: u8,
    dirs: Set<Seq<char>>,
    first: Seq<Replies>,
    second: Seq<Replies>,
)
    requires
        first.len() == paths.len(),
        second.len() == paths.len(),
    ensures
        ({
            let one = batch(paths, output_root, quality, dirs, first);
            let two = batch(paths, output_root, quality, one.dirs, second);
            (forall|i: int|
                0 <= i < paths.len() ==> #[trigger] one.results[i] != TaskResult::Failed(
                    ExtractError::DirectoryCreateError,
                )) ==> {
                &&& two.decoder_calls.len() == 0
                &&& two.dirs == one.dirs
                &&& two.results.len() == paths.len()
                &&& forall|i: int|
                    0 <= i < paths.len() ==> #[trigger] two.results[i] == (if output_directory_of(
                        paths[i],
                        output_root,
                    ) is Some {
                        TaskResult::Skipped
                    } else {
                        TaskResult::Failed(ExtractError::InvalidName)
                    })
            }
        }),
{
    let one = batch(paths, output_root, quality, dirs, first);
    if forall|i: int|
        0 <= i < paths.len() ==> #[trigger] one.results[i] != TaskResult::Failed(
            ExtractError::DirectoryCreateError,
        ) {
        assert forall|i: int| 0 <= i < paths.len() implies (output_directory_of(
            #[trigger] paths[i],
            output_root,
        ) matches Some(dir) ==> one.dirs.contains(dir)) by {
            lemma_batch_leaves_directories(paths, output_root, quality, dirs, first, i);
        }
        lemma_settled_batch_is_idle(paths, output_root, quality, one.dirs, second);
    }
}

/// A failure stays with the task that failed.
///
/// Take any batch, any world and any replies. A task whose own replies are
/// healthy and whose input has a file name ends as a success or is skipped,
/// and its output directory exists when the batch is over, whatever the
/// other tasks of the batch were told and however they ended.
pub proof fn lemma_failure_is_isolated(
    paths: Seq<Seq<char>>,
    output_root: Seq<char>,
    quality: u8,
    dirs: Set<Seq<char>>,
    replies: Seq<Replies>,
    i: int,
)
    requires
        replies.len() == paths.len(),
        0 <= i < paths.len(),
    ensures
        ({
            let run = batch(paths, output_root, quality, dirs, replies);
            healthy(replies[i]) ==> (output_directory_of(paths[i], output_root) matches Some(dir)
                ==> {
                &&& run.results[i] == TaskResult::Success || run.results[i] == TaskResult::Skipped
                &&& run.dirs.contains(dir)
            })
        }),
    decreases paths.len(),
{
    lemma_batch_keeps_directories(paths.drop_last(), output_root, quality, dirs, replies.drop_last());
    if i < paths.len() - 1 {
        lemma_failure_is_isolated(
            paths.drop_last(),
            output_root,
            quality,
            dirs,
            replies.drop_last(),
            i,
        );
    }
}

} // verus!
