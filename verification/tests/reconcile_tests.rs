use streamline::ffprobe::{parse_failure_message, probe_arguments, probe_outcome};
use streamline::models::config::{Config, ConfigProblem};
use streamline::models::file::MediaFile;
use streamline::reconcile::{
    after_run, desired_name, handle_completed_file, launch_mode, replace_policy,
    run_failure_message, FileAction, Launch, Observed, Inquiry, ReconcileError, ReplacePolicy,
    RunReport,
};

fn config(always: bool, smaller: bool) -> Config {
    let mut config = Config::default();
    config.streamline.always_replace = always;
    config.streamline.replace_if_smaller = smaller;
    config.streamline.temporary_suffix = "tmp".to_string();
    config.streamline.max_depth = 3;
    config.ffmpeg.threads_auto_behavior = "default".to_string();
    config
}

fn source() -> MediaFile {
    MediaFile { path: "/media/movie.mkv".to_string(), ..MediaFile::default() }
}

fn seen(source_size: u64, output_size: u64, target_exists: bool) -> Observed {
    Observed { source_size, output_size, target_exists }
}

fn renamed(result: Result<FileAction, ReconcileError>) -> (String, String) {
    match result {
        Ok(FileAction::Rename { from, to }) => (from, to),
        other => panic!("no rename: {:?}", other),
    }
}

#[test]
fn always_replace_renames_over_the_source() {
    let result =
        handle_completed_file(&source(), "/media/movie.mkv.tmp", &config(true, false), &seen(1, 9, true));
    assert_eq!(
        renamed(result),
        ("/media/movie.mkv.tmp".to_string(), "/media/movie.mkv".to_string())
    );
}

#[test]
fn smaller_output_replaces_the_source() {
    let result =
        handle_completed_file(&source(), "/media/movie.mkv.tmp", &config(false, true), &seen(10, 9, false));
    assert_eq!(
        renamed(result),
        ("/media/movie.mkv.tmp".to_string(), "/media/movie.mkv".to_string())
    );
}

#[test]
fn output_that_is_not_smaller_is_removed() {
    for (source_size, output_size) in [(10, 10), (10, 11), (0, 0), (0, u64::MAX)] {
        let result = handle_completed_file(
            &source(),
            "/media/movie.mkv.tmp",
            &config(false, true),
            &seen(source_size, output_size, false),
        );
        match result {
            Ok(FileAction::Remove { path }) => assert_eq!(path, "/media/movie.mkv.tmp"),
            other => panic!("not removed: {:?}", other),
        }
    }
}

#[test]
fn safe_rename_strips_the_suffix() {
    let result =
        handle_completed_file(&source(), "/out/movie.mkv.tmp", &config(false, false), &seen(0, 0, false));
    assert_eq!(renamed(result), ("/out/movie.mkv.tmp".to_string(), "/out/movie.mkv.".to_string()));
}

#[test]
fn safe_rename_refuses_a_taken_name() {
    let result =
        handle_completed_file(&source(), "/out/movie.mkv.tmp", &config(false, false), &seen(5, 1, true));
    match result {
        Err(error) => {
            assert!(matches!(&error, ReconcileError::NameCollision { name } if name == "/out/movie.mkv."));
            assert_eq!(
                error.message(),
                "File already exists and would be overwritten: /out/movie.mkv."
            );
        }
        other => panic!("not refused: {:?}", other),
    }
}

#[test]
fn safe_rename_refuses_an_output_without_the_suffix() {
    let result =
        handle_completed_file(&source(), "/out/movie.mkv", &config(false, false), &seen(5, 1, false));
    match result {
        Err(error) => {
            assert!(matches!(&error, ReconcileError::NotTemporary { name } if name == "/out/movie.mkv"));
            assert_eq!(error.message(), "Output is not marked as unfinished: /out/movie.mkv");
        }
        other => panic!("not refused: {:?}", other),
    }
}

#[test]
fn always_replace_comes_before_replace_if_smaller() {
    assert_eq!(replace_policy(&config(true, true).streamline), ReplacePolicy::Always);
    assert_eq!(replace_policy(&config(true, false).streamline), ReplacePolicy::Always);
    assert_eq!(replace_policy(&config(false, true).streamline), ReplacePolicy::IfSmaller);
    assert_eq!(replace_policy(&config(false, false).streamline), ReplacePolicy::Safe);
}

#[test]
fn desired_name_is_the_output_without_suffix() {
    assert_eq!(desired_name("a.mkv.tmp", &config(false, false)), Some("a.mkv.".to_string()));
    assert_eq!(desired_name("a.mkv", &config(false, false)), None);
}

#[test]
fn failed_run_is_not_reconciled() {
    assert_eq!(after_run(RunReport::SpawnFailed, &config(false, false)), None);
    assert_eq!(after_run(RunReport::ExitFailure, &config(true, false)), None);
    assert_eq!(after_run(RunReport::ExitSuccess, &config(true, false)), Some(Inquiry::Nothing));
    assert_eq!(after_run(RunReport::ExitSuccess, &config(false, true)), Some(Inquiry::Sizes));
    assert_eq!(after_run(RunReport::ExitSuccess, &config(false, false)), Some(Inquiry::Existence));
}

#[test]
fn dry_run_only_announces() {
    let mut settings = config(false, false);
    assert_eq!(launch_mode(&settings), Launch::Run);
    settings.streamline.dry_run = true;
    assert_eq!(launch_mode(&settings), Launch::Announce);
}

#[test]
fn run_failure_message_names_the_call() {
    let arguments = vec!["-i".to_string(), "a.avi".to_string(), "a.mkv.tmp".to_string()];
    assert_eq!(
        run_failure_message("Invalid data", &arguments),
        "Error running ffmpeg: Invalid data -- -i a.avi a.mkv.tmp"
    );
}

#[test]
fn sane_configuration_has_no_problems() {
    let settings = config(false, true);
    assert!(settings.sanity_check().is_empty());
    let mut matching = config(true, false);
    matching.ffmpeg.threads_auto_behavior = "available_parallelism".to_string();
    assert!(matching.sanity_check().is_empty());
}

#[test]
fn every_problem_is_listed_in_order() {
    let mut settings = config(true, true);
    settings.streamline.output_directory = "/out".to_string();
    settings.streamline.max_depth = 0;
    settings.streamline.temporary_suffix = String::new();
    settings.ffmpeg.threads_auto_behavior = "auto".to_string();
    assert_eq!(
        settings.sanity_check(),
        vec![
            ConfigProblem::ReplaceConflict,
            ConfigProblem::ReplaceWithOutputDirectory,
            ConfigProblem::ZeroDepth,
            ConfigProblem::EmptySuffix,
            ConfigProblem::UnknownThreadBehavior,
        ]
    );
}

#[test]
fn single_problems_are_found() {
    let mut settings = config(false, true);
    settings.streamline.output_directory = "/out".to_string();
    assert!(settings.sanity_check().is_empty());
    settings.streamline.always_replace = true;
    assert_eq!(
        settings.sanity_check(),
        vec![ConfigProblem::ReplaceConflict, ConfigProblem::ReplaceWithOutputDirectory]
    );
    let mut shallow = config(false, false);
    shallow.streamline.max_depth = 0;
    assert_eq!(shallow.sanity_check(), vec![ConfigProblem::ZeroDepth]);
    let mut unnamed = config(false, false);
    unnamed.ffmpeg.threads_auto_behavior = String::new();
    assert_eq!(unnamed.sanity_check(), vec![ConfigProblem::UnknownThreadBehavior]);
}

#[test]
fn problem_messages_are_fixed() {
    assert_eq!(
        ConfigProblem::ReplaceConflict.message(),
        "Error: always_replace and replace_if_smaller cannot both be true"
    );
    assert_eq!(
        ConfigProblem::ReplaceWithOutputDirectory.message(),
        "Error: always_replace and output_directory cannot both be set"
    );
    assert_eq!(
        ConfigProblem::ZeroDepth.message(),
        "Error: max_depth cannot be 0 - It must be a sane positive number"
    );
    assert_eq!(ConfigProblem::EmptySuffix.message(), "Error: temporary_suffix cannot be empty");
    assert_eq!(
        ConfigProblem::UnknownThreadBehavior.message(),
        "Error: threads_auto_behavior must be one of: default, available_parallelism"
    );
}

#[test]
fn thread_count_follows_the_behaviour() {
    let mut settings = config(false, false);
    settings.ffmpeg.threads = 4;
    assert_eq!(settings.get_threads(12), 4);
    settings.ffmpeg.threads_auto_behavior = "available_parallelism".to_string();
    assert_eq!(settings.get_threads(12), 12);
    settings.ffmpeg.threads_auto_behavior = "something".to_string();
    assert_eq!(settings.get_threads(12), 4);
}

#[test]
fn probe_arguments_end_with_the_path() {
    assert_eq!(
        probe_arguments("/media/movie.avi"),
        vec![
            "-v",
            "quiet",
            "-show_format",
            "-show_streams",
            "-show_entries",
            "stream_tags:format_tags",
            "-print_format",
            "json",
            "/media/movie.avi",
        ]
    );
}

#[test]
fn probe_outcome_follows_the_exit_status() {
    assert_eq!(probe_outcome(true, "{}".to_string(), "warn".to_string()), Ok("{}".to_string()));
    assert_eq!(
        probe_outcome(false, "{}".to_string(), "no such file".to_string()),
        Err("no such file".to_string())
    );
}

#[test]
fn parse_failure_message_quotes_the_report() {
    assert_eq!(
        parse_failure_message("missing field `streams`", "{}"),
        "Error parsing ffprobe output: missing field `streams`\nOutput: {}"
    );
}
