use keyframe_extractor::discovery::InputSpec;
use keyframe_extractor::extract::{
    advance, decoder_arguments, decoder_program, interpret_exit, output_directory,
    output_pattern, Action, Event, ExtractError, Phase, TaskResult,
};
use std::path::MAIN_SEPARATOR;

fn input(path: &str) -> InputSpec {
    InputSpec::new(path.to_string())
}

fn under(parts: &[&str]) -> String {
    parts.join(&MAIN_SEPARATOR.to_string())
}

#[test]
fn decoder_program_is_ffmpeg() {
    assert_eq!(decoder_program(), "ffmpeg");
}

#[test]
fn output_directory_is_named_after_the_stem() {
    assert_eq!(output_directory("videos/clip.mov", "out"), Ok(under(&["out", "clip"])));
    assert_eq!(
        output_directory("a.b/holiday.2024.MP4", "./keyframes_output"),
        Ok(under(&["./keyframes_output", "holiday.2024"]))
    );
}

#[test]
fn output_directory_does_not_depend_on_the_input_directory() {
    assert_eq!(output_directory("a/clip.mp4", "out"), output_directory("b/clip.mov", "out"));
}

#[test]
fn output_directory_needs_a_file_name() {
    assert_eq!(output_directory("videos/..", "out"), Err(ExtractError::InvalidName));
    assert_eq!(output_directory("", "out"), Err(ExtractError::InvalidName));
}

#[test]
fn output_pattern_numbers_the_frames() {
    assert_eq!(output_pattern("out/clip"), under(&["out/clip", "keyframe_%05d.jpg"]));
}

#[test]
fn decoder_arguments_are_exact() {
    let args = decoder_arguments("in/clip.mov", 2, "out/clip/keyframe_%05d.jpg");
    assert_eq!(
        args,
        vec![
            "-hwaccel",
            "auto",
            "-i",
            "in/clip.mov",
            "-vf",
            "select=eq(pict_type\\,I)",
            "-vsync",
            "vfr",
            "-q:v",
            "2",
            "-threads",
            "2",
            "-loglevel",
            "error",
            "out/clip/keyframe_%05d.jpg",
        ]
    );
}

#[test]
fn decoder_arguments_carry_the_quality_in_decimal() {
    assert_eq!(decoder_arguments("a", 31, "p")[9], "31");
    assert_eq!(decoder_arguments("a", 0, "p")[9], "0");
    assert_eq!(decoder_arguments("a", 200, "p")[9], "200");
}

#[test]
fn quality_five_and_clip_mov_reach_the_decoder() {
    let clip = input("clip.mov");
    let created = advance(&clip, "out", 5, Phase::Creating, Event::Created);
    match created {
        Some((Phase::Decoding, Action::RunDecoder(args))) => {
            assert_eq!(args.len(), 15);
            assert_eq!(args[3], "clip.mov");
            assert_eq!(args[8], "-q:v");
            assert_eq!(args[9], "5");
            let tail = format!("{}clip{}keyframe_%05d.jpg", MAIN_SEPARATOR, MAIN_SEPARATOR);
            assert!(args[14].ends_with(&tail));
            assert_eq!(args[14], under(&["out", "clip", "keyframe_%05d.jpg"]));
        }
        other => panic!("unexpected step {:?}", other),
    }
}

#[test]
fn interpret_exit_reads_zero_as_success() {
    assert_eq!(interpret_exit(Some(0)), TaskResult::Success);
}

#[test]
fn interpret_exit_reads_anything_else_as_decoder_error() {
    assert_eq!(
        interpret_exit(Some(1)),
        TaskResult::Failed(ExtractError::DecoderError(Some(1)))
    );
    assert_eq!(
        interpret_exit(Some(-9)),
        TaskResult::Failed(ExtractError::DecoderError(Some(-9)))
    );
    assert_eq!(interpret_exit(None), TaskResult::Failed(ExtractError::DecoderError(None)));
}

#[test]
fn an_extraction_begins_at_the_gate() {
    assert_eq!(
        advance(&input("in/clip.mov"), "out", 2, Phase::Ready, Event::Start),
        Some((Phase::Gating, Action::CheckExists(under(&["out", "clip"]))))
    );
}

#[test]
fn an_input_without_file_name_fails_at_once() {
    assert_eq!(
        advance(&input("in/.."), "out", 2, Phase::Ready, Event::Start),
        Some((Phase::Finished, Action::Finish(TaskResult::Failed(ExtractError::InvalidName))))
    );
}

#[test]
fn an_existing_directory_skips_the_extraction() {
    assert_eq!(
        advance(&input("in/clip.mov"), "out", 2, Phase::Gating, Event::Exists(true)),
        Some((Phase::Finished, Action::Finish(TaskResult::Skipped)))
    );
}

#[test]
fn a_missing_directory_is_created() {
    assert_eq!(
        advance(&input("in/clip.mov"), "out", 2, Phase::Gating, Event::Exists(false)),
        Some((Phase::Creating, Action::CreateDirectory(under(&["out", "clip"]))))
    );
}

#[test]
fn a_directory_that_cannot_be_created_fails_the_extraction() {
    assert_eq!(
        advance(&input("in/clip.mov"), "out", 2, Phase::Creating, Event::CreateFailed),
        Some((
            Phase::Finished,
            Action::Finish(TaskResult::Failed(ExtractError::DirectoryCreateError))
        ))
    );
}

#[test]
fn the_decoder_runs_once_the_directory_is_there() {
    let expected = decoder_arguments(
        "in/clip.mov",
        7,
        &under(&["out", "clip", "keyframe_%05d.jpg"]),
    );
    assert_eq!(
        advance(&input("in/clip.mov"), "out", 7, Phase::Creating, Event::Created),
        Some((Phase::Decoding, Action::RunDecoder(expected)))
    );
}

#[test]
fn a_decoder_that_ends_with_zero_is_a_success() {
    assert_eq!(
        advance(&input("in/clip.mov"), "out", 2, Phase::Decoding, Event::Exited(Some(0))),
        Some((Phase::Finished, Action::Finish(TaskResult::Success)))
    );
}

#[test]
fn a_decoder_that_ends_with_another_status_is_an_error() {
    assert_eq!(
        advance(&input("in/clip.mov"), "out", 2, Phase::Decoding, Event::Exited(Some(69))),
        Some((
            Phase::Finished,
            Action::Finish(TaskResult::Failed(ExtractError::DecoderError(Some(69))))
        ))
    );
    assert_eq!(
        advance(&input("in/clip.mov"), "out", 2, Phase::Decoding, Event::Exited(None)),
        Some((
            Phase::Finished,
            Action::Finish(TaskResult::Failed(ExtractError::DecoderError(None)))
        ))
    );
}

#[test]
fn a_decoder_that_cannot_be_started_is_a_spawn_error() {
    assert_eq!(
        advance(&input("in/clip.mov"), "out", 2, Phase::Decoding, Event::SpawnFailed),
        Some((
            Phase::Finished,
            Action::Finish(TaskResult::Failed(ExtractError::ProcessSpawnError))
        ))
    );
}

#[test]
fn an_event_that_answers_nothing_is_refused() {
    let clip = input("in/clip.mov");
    assert_eq!(advance(&clip, "out", 2, Phase::Ready, Event::Created), None);
    assert_eq!(advance(&clip, "out", 2, Phase::Gating, Event::Start), None);
    assert_eq!(advance(&clip, "out", 2, Phase::Creating, Event::Exists(false)), None);
    assert_eq!(advance(&clip, "out", 2, Phase::Decoding, Event::Created), None);
    assert_eq!(advance(&clip, "out", 2, Phase::Finished, Event::Start), None);
    assert_eq!(advance(&clip, "out", 2, Phase::Finished, Event::Exited(Some(0))), None);
}

#[test]
fn a_phase_that_the_input_cannot_reach_is_refused() {
    let nameless = input("in/..");
    assert_eq!(advance(&nameless, "out", 2, Phase::Gating, Event::Exists(true)), None);
    assert_eq!(advance(&nameless, "out", 2, Phase::Creating, Event::Created), None);
    assert_eq!(advance(&nameless, "out", 2, Phase::Decoding, Event::Exited(Some(0))), None);
}
