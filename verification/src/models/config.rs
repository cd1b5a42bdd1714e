//! The target profile and the run's settings.

use vstd::prelude::*;
use crate::text::same_text;

verus! {

/// Everything that is configured for one run. It is built once and then only
/// read.
#[derive(Debug, Default, Clone)]
pub struct Config {
    pub streamline: StreamLine,
    pub ffmpeg: FFmpeg,
    pub video_targets: VideoTargets,
    pub audio_targets: AudioTargets,
    pub subtitles: Subtitles,
    pub filters: Filters,
}

/// Where files are looked for and what becomes of the results.
#[derive(Debug, Default, Clone)]
pub struct StreamLine {
    pub source_directory: String,
    pub exclude_directories: Vec<String>,
    pub recursive: bool,
    pub max_depth: u32,
    pub file_extensions: Vec<String>,
    pub dry_run: bool,
    pub debug: bool,
    pub output_extension: String,
    pub output_format: String,
    pub replace_if_smaller: bool,
    pub always_replace: bool,
    pub temp_directory: String,
    pub temporary_suffix: String,
    pub output_directory: String,
}

/// How the external tools are called.
#[derive(Debug, Default, Clone)]
pub struct FFmpeg {
    pub ffmpeg_path: String,
    pub ffprobe_path: String,
    pub ffprobe_workers: u32,
    pub threads: u32,
    pub threads_auto_behavior: String,
    pub log_level: String,
}

/// What a video stream has to meet. A zero limit and an empty codec list
/// constrain nothing.
#[derive(Debug, Default, Clone)]
pub struct VideoTargets {
    pub codec: Vec<String>,
    pub max_bitrate: u32,
    /// The quality setting; `-1` stands for none.
    pub crf: i32,
    pub ffmpeg_preset: String,
    pub max_width: u32,
    pub max_height: u32,
    /// The highest frame rate, in thousandths of a frame per second.
    pub max_fps_milli: u32,
    pub filters: String,
    pub force_filter: bool,
    pub pix_fmt: String,
    pub tune: String,
    pub x265_params: String,
}

/// What an audio stream has to meet. Empty lists and a zero channel count
/// constrain nothing.
#[derive(Debug, Default, Clone)]
pub struct AudioTargets {
    pub codec: Vec<String>,
    pub language: Vec<String>,
    pub default_language: String,
    pub channel_bitrate: u32,
    pub variable_bitrate: u32,
    pub sample_rate: Vec<u32>,
    pub ffmpeg_profile: String,
    pub filters: String,
    pub force_filter: bool,
    pub channels: u32,
    pub aac_profile: String,
}

/// What is kept of the subtitle streams.
#[derive(Debug, Default, Clone)]
pub struct Subtitles {
    pub codec: Vec<String>,
    pub language: Vec<String>,
    pub default_language: String,
    pub copy_subtitles: bool,
    pub force_subtitles: bool,
}

/// The clean-up filters; a zero strength switches a filter off.
#[derive(Debug, Default, Clone)]
pub struct Filters {
    pub deinterlace: bool,
    pub deblock: u32,
    pub denoise: u32,
}

/// A setting, or a pair of settings, that a run cannot start with.
#[derive(Debug, Clone, Copy, PartialEq, Eq, Structural)]
pub enum ConfigProblem {
    /// Replacing always and replacing only smaller files are both asked for.
    ReplaceConflict,
    /// Replacing always is asked for together with an output directory.
    ReplaceWithOutputDirectory,
    /// The search depth is zero.
    ZeroDepth,
    /// The suffix for unfinished files is empty.
    EmptySuffix,
    /// The thread behaviour is none of the known ones.
    UnknownThreadBehavior,
}

/// One problem where `on` holds, none otherwise.
pub open spec fn problem_if(on: bool, problem: ConfigProblem) -> Seq<ConfigProblem> {
    if on {
        seq![problem]
    } else {
        Seq::empty()
    }
}

fn push_problem_if(list: &mut Vec<ConfigProblem>, on: bool, problem: ConfigProblem)
    ensures
        final(list)@ == old(list)@ + problem_if(on, problem),
{
    if on {
        list.push(problem);
    }
    assert(list@ =~= old(list)@ + problem_if(on, problem));
}

impl ConfigProblem {
    /// The message for the problem.
    pub open spec fn message_text(self) -> Seq<char> {
        match self {
            ConfigProblem::ReplaceConflict =>
                "Error: always_replace and replace_if_smaller cannot both be true"@,
            ConfigProblem::ReplaceWithOutputDirectory =>
                "Error: always_replace and output_directory cannot both be set"@,
            ConfigProblem::ZeroDepth =>
                "Error: max_depth cannot be 0 - It must be a sane positive number"@,
            ConfigProblem::EmptySuffix => "Error: temporary_suffix cannot be empty"@,
            ConfigProblem::UnknownThreadBehavior =>
                "Error: threads_auto_behavior must be one of: default, available_parallelism"@,
        }
    }

    /// Writes the message for the problem.
    pub fn message(&self) -> (text: String)
        ensures
            text@ == self.message_text(),
    {
        match self {
            ConfigProblem::ReplaceConflict =>
                "Error: always_replace and replace_if_smaller cannot both be true".to_owned(),
            ConfigProblem::ReplaceWithOutputDirectory =>
                "Error: always_replace and output_directory cannot both be set".to_owned(),
            ConfigProblem::ZeroDepth =>
                "Error: max_depth cannot be 0 - It must be a sane positive number".to_owned(),
            ConfigProblem::EmptySuffix => "Error: temporary_suffix cannot be empty".to_owned(),
            ConfigProblem::UnknownThreadBehavior =>
                "Error: threads_auto_behavior must be one of: default, available_parallelism".to_owned(),
        }
    }
}

impl Config {
    /// Whether the thread behaviour is one of the two known ones.
    pub open spec fn known_thread_behavior(self) -> bool {
        self.ffmpeg.threads_auto_behavior@ == "default"@ || self.ffmpeg.threads_auto_behavior@
            == "available_parallelism"@
    }

    /// The problems of the configuration, in the order in which they are
    /// looked for.
    pub open spec fn problems(self) -> Seq<ConfigProblem> {
        problem_if(
            self.streamline.always_replace && self.streamline.replace_if_smaller,
            ConfigProblem::ReplaceConflict,
        ) + problem_if(
            self.streamline.always_replace && self.streamline.output_directory@.len() != 0,
            ConfigProblem::ReplaceWithOutputDirectory,
        ) + problem_if(self.streamline.max_depth == 0, ConfigProblem::ZeroDepth) + problem_if(
            self.streamline.temporary_suffix@.len() == 0,
            ConfigProblem::EmptySuffix,
        ) + problem_if(!self.known_thread_behavior(), ConfigProblem::UnknownThreadBehavior)
    }

    /// Whether a run can start with the configuration: replacing always goes
    /// with neither replacing only smaller files nor an output directory, the
    /// search depth is positive, the suffix for unfinished files is not empty,
    /// and the thread behaviour is known.
    pub open spec fn is_sane(self) -> bool {
        &&& !(self.streamline.always_replace && self.streamline.replace_if_smaller)
        &&& !(self.streamline.always_replace && self.streamline.output_directory@.len() != 0)
        &&& self.streamline.max_depth != 0
        &&& self.streamline.temporary_suffix@.len() != 0
        &&& self.known_thread_behavior()
    }

    /// Lists the problems of the configuration. A run may start only where
    /// the list is empty.
    pub fn sanity_check(&self) -> (problems: Vec<ConfigProblem>)
        ensures
            problems@ == self.problems(),
            (problems@.len() == 0) == self.is_sane(),
    {
        let s = &self.streamline;
        let mut problems: Vec<ConfigProblem> = Vec::new();
        push_problem_if(
            &mut problems,
            s.always_replace && s.replace_if_smaller,
            ConfigProblem::ReplaceConflict,
        );
        let ghost first = problems@;
        push_problem_if(
            &mut problems,
            s.always_replace && !s.output_directory.as_str().is_empty(),
            ConfigProblem::ReplaceWithOutputDirectory,
        );
        push_problem_if(&mut problems, s.max_depth == 0, ConfigProblem::ZeroDepth);
        push_problem_if(
            &mut problems,
            s.temporary_suffix.as_str().is_empty(),
            ConfigProblem::EmptySuffix,
        );
        let known = same_text(self.ffmpeg.threads_auto_behavior.as_str(), "default") || same_text(
            self.ffmpeg.threads_auto_behavior.as_str(),
            "available_parallelism",
        );
        push_problem_if(&mut problems, !known, ConfigProblem::UnknownThreadBehavior);
        proof {
            assert(first =~= problem_if(
                s.always_replace && s.replace_if_smaller,
                ConfigProblem::ReplaceConflict,
            ));
            assert(problems@ =~= self.problems());
        }
        problems
    }

    /// The thread count that the transcoder is started with, zero standing
    /// for its own choice: the host's parallelism where the configuration asks
    /// to match it, and the configured count otherwise.
    pub open spec fn threads_for(self, host_parallelism: u32) -> u32 {
        if self.ffmpeg.threads_auto_behavior@ == "available_parallelism"@ {
            host_parallelism
        } else {
            self.ffmpeg.threads
        }
    }

    /// Resolves the thread count for the run.
    pub fn get_threads(&self, host_parallelism: u32) -> (threads: u32)
        ensures
            threads == self.threads_for(host_parallelism),
    {
        if same_text(self.ffmpeg.threads_auto_behavior.as_str(), "available_parallelism") {
            host_parallelism
        } else {
            self.ffmpeg.threads
        }
    }
}

} // verus!
