//! Composing the transcoder's call for a file that misses the profile: where
//! the output goes, the encoding options, the filter chain, and the complete
//! argument list.

use vstd::prelude::*;
use crate::compliance::codec_allowed;
use crate::disposition::{choose_default, default_choice};
use crate::models::config::{Config, Filters, StreamLine, VideoTargets};
use crate::models::file::MediaFile;
use crate::models::media::{Stream, StreamKind};
use crate::padding::{apply_aspect_ratio_corrections, pad_filters};
use crate::text::{
    decimal_string, decimal_text, ends_with, final_segment, join_strings, join_texts,
    last_segment, milli_string, milli_text, push_decimal, signed_decimal_string,
    signed_decimal_text, texts,
};
use crate::tokens::{
    flag, lemma_concat_assoc, push_codec_override, push_flag_if, push_text, push_text_if, single,
};
use crate::tracks::{apply_audio_group, apply_subtitle_group, audio_tokens, subtitle_tokens};
use crate::utils::{get_system_path_separator, is_separator, plain_extension, with_extension};

verus! {

/// The encoding options for the video stream `s`, in their fixed order: a
/// codec where the stream's own is not allowed (the first allowed one), the
/// frame rate and bit rate limits where set, the quality where it is not
/// `-1`, then preset, pixel format, tuning and codec parameters where given.
pub open spec fn video_tokens(s: Stream, t: VideoTargets) -> Seq<Seq<char>> {
    flag(!codec_allowed(t.codec@, s.codec_name@), "-c:v"@, t.codec@[0]@) + flag(
        t.max_fps_milli != 0,
        "-r"@,
        milli_text(t.max_fps_milli as nat),
    ) + flag(t.max_bitrate != 0, "-b:v"@, decimal_text(t.max_bitrate as nat)) + flag(
        t.crf != -1,
        "-crf"@,
        signed_decimal_text(t.crf as int),
    ) + flag(t.ffmpeg_preset@.len() != 0, "-preset"@, t.ffmpeg_preset@) + flag(
        t.pix_fmt@.len() != 0,
        "-pix_fmt"@,
        t.pix_fmt@,
    ) + flag(t.tune@.len() != 0, "-tune"@, t.tune@) + flag(
        t.x265_params@.len() != 0,
        "-x265-params"@,
        t.x265_params@,
    )
}

/// Appends the encoding options for the video stream `info` to `command`.
pub fn apply_video_arguments(info: &Stream, t: &VideoTargets, command: &mut Vec<String>)
    ensures
        texts(final(command)@) == texts(old(command)@) + video_tokens(*info, *t),
{
    let ghost start = texts(command@);
    let ghost codec = flag(!codec_allowed(t.codec@, info.codec_name@), "-c:v"@, t.codec@[0]@);
    let ghost rate = flag(t.max_fps_milli != 0, "-r"@, milli_text(t.max_fps_milli as nat));
    let ghost bits = flag(t.max_bitrate != 0, "-b:v"@, decimal_text(t.max_bitrate as nat));
    let ghost quality = flag(t.crf != -1, "-crf"@, signed_decimal_text(t.crf as int));
    let ghost preset = flag(t.ffmpeg_preset@.len() != 0, "-preset"@, t.ffmpeg_preset@);
    let ghost pixels = flag(t.pix_fmt@.len() != 0, "-pix_fmt"@, t.pix_fmt@);
    let ghost tune = flag(t.tune@.len() != 0, "-tune"@, t.tune@);
    let ghost extra = flag(t.x265_params@.len() != 0, "-x265-params"@, t.x265_params@);

    push_codec_override(command, "-c:v", &t.codec, info.codec_name.as_str());
    push_flag_if(command, t.max_fps_milli != 0, "-r", milli_string(t.max_fps_milli).as_str());
    push_flag_if(command, t.max_bitrate != 0, "-b:v", decimal_string(t.max_bitrate).as_str());
    push_flag_if(command, t.crf != -1, "-crf", signed_decimal_string(t.crf).as_str());
    push_flag_if(command, !t.ffmpeg_preset.as_str().is_empty(), "-preset", t.ffmpeg_preset.as_str());
    push_flag_if(command, !t.pix_fmt.as_str().is_empty(), "-pix_fmt", t.pix_fmt.as_str());
    push_flag_if(command, !t.tune.as_str().is_empty(), "-tune", t.tune.as_str());
    push_flag_if(
        command,
        !t.x265_params.as_str().is_empty(),
        "-x265-params",
        t.x265_params.as_str(),
    );
    proof {
        lemma_concat_assoc(start, codec, rate);
        lemma_concat_assoc(start, codec + rate, bits);
        lemma_concat_assoc(start, codec + rate + bits, quality);
        lemma_concat_assoc(start, codec + rate + bits + quality, preset);
        lemma_concat_assoc(start, codec + rate + bits + quality + preset, pixels);
        lemma_concat_assoc(start, codec + rate + bits + quality + preset + pixels, tune);
        lemma_concat_assoc(start, codec + rate + bits + quality + preset + pixels + tune, extra);
    }
}

/// The clean-up filters that the profile switches on, in the order
/// deinterlace, deblock, denoise.
pub open spec fn cleanup_filters(f: Filters) -> Seq<Seq<char>> {
    single(f.deinterlace, "yadif"@) + single(
        f.deblock > 0,
        "deblock="@ + decimal_text(f.deblock as nat),
    ) + single(f.denoise > 0, "hqdn3d="@ + decimal_text(f.denoise as nat))
}

/// Appends the clean-up filters that the profile switches on to `filters`.
pub fn apply_video_filters(f: &Filters, filters: &mut Vec<String>)
    ensures
        texts(final(filters)@) == texts(old(filters)@) + cleanup_filters(*f),
{
    let ghost start = texts(filters@);
    let mut deblock = "deblock=".to_owned();
    push_decimal(&mut deblock, f.deblock);
    let mut denoise = "hqdn3d=".to_owned();
    push_decimal(&mut denoise, f.denoise);
    let ghost first = single(f.deinterlace, "yadif"@);
    let ghost second = single(f.deblock > 0, deblock@);
    let ghost third = single(f.denoise > 0, denoise@);

    push_text_if(filters, f.deinterlace, "yadif");
    push_text_if(filters, f.deblock > 0, deblock.as_str());
    push_text_if(filters, f.denoise > 0, denoise.as_str());
    proof {
        lemma_concat_assoc(start, first, second);
        lemma_concat_assoc(start, first + second, third);
    }
}

/// Where the transcoder writes for a source whose path, with the output
/// extension in place, is `renamed`: beside the source, or in the output
/// directory under the source's file name where one is configured; in both
/// cases with a point and the suffix for unfinished files at the end.
pub open spec fn staged_path(renamed: Seq<char>, sep: Seq<char>, s: StreamLine) -> Seq<char> {
    if s.output_directory@.len() == 0 {
        renamed + "."@ + s.temporary_suffix@
    } else {
        s.output_directory@ + sep + last_segment(renamed, sep[0]) + "."@ + s.temporary_suffix@
    }
}

/// Composes the path that the transcoder writes to from the source's path
/// with the output extension in place.
pub fn stage_output_path(renamed: &str, sep: &str, s: &StreamLine) -> (path: String)
    requires
        sep@.len() == 1,
    ensures
        path@ == staged_path(renamed@, sep@, *s),
{
    let mut path = String::new();
    if s.output_directory.as_str().is_empty() {
        path.append(renamed);
        assert(path@ =~= renamed@);
    } else {
        path.append(s.output_directory.as_str());
        path.append(sep);
        path.append(final_segment(renamed, sep.get_char(0)).as_str());
        assert(path@ =~= s.output_directory@ + sep@ + last_segment(renamed@, sep@[0]));
    }
    path.append(".");
    path.append(s.temporary_suffix.as_str());
    path
}

/// Whether `path` is where the transcoder writes for some source, under
/// either separator.
pub open spec fn is_staged(path: Seq<char>, s: StreamLine) -> bool {
    exists|renamed: Seq<char>, sep: Seq<char>|
        sep.len() == 1 && is_separator(sep[0]) && path == #[trigger] staged_path(renamed, sep, s)
}

/// Every path that the transcoder writes to ends with the suffix for
/// unfinished files.
pub proof fn lemma_staged_path_is_temporary(renamed: Seq<char>, sep: Seq<char>, s: StreamLine)
    ensures
        ends_with(staged_path(renamed, sep, s), s.temporary_suffix@),
{
    let path = staged_path(renamed, sep, s);
    let suffix = s.temporary_suffix@;
    assert(path.subrange(path.len() - suffix.len(), path.len() as int) =~= suffix);
}

/// Computes the path that the transcoder writes to for the source
/// `input_file`: the source's path with the output extension, moved to the
/// output directory where one is configured, and marked as unfinished.
pub fn get_output_path(input_file: &str, config: &Config) -> (path: String)
    requires
        plain_extension(config.streamline.output_extension@),
    ensures
        is_staged(path@, config.streamline),
        ends_with(path@, config.streamline.temporary_suffix@),
{
    let renamed = with_extension(input_file, config.streamline.output_extension.as_str());
    let sep = get_system_path_separator();
    let path = stage_output_path(renamed.as_str(), sep.as_str(), &config.streamline);
    proof {
        assert(path@ == staged_path(renamed@, sep@, config.streamline));
        lemma_staged_path_is_temporary(renamed@, sep@, config.streamline);
    }
    path
}

/// Why a file could not be processed.
#[derive(Debug, Clone, Copy, PartialEq, Eq, Structural)]
pub enum PlanError {
    /// The file has no video stream, and transcoding needs one.
    NoVideoStreams,
}

impl PlanError {
    /// The message for the error.
    pub open spec fn message_text(self) -> Seq<char> {
        "No video streams found!"@
    }

    /// Writes the message for the error.
    pub fn message(&self) -> (text: String)
        ensures
            text@ == self.message_text(),
    {
        "No video streams found!".to_owned()
    }
}

/// Everything that one call of the transcoder needs, composed before the
/// call is made.
#[derive(Debug, Default, Clone)]
pub struct InvocationPlan {
    /// The argument tokens in order, the output path last.
    pub arguments: Vec<String>,
    /// The filter chain on its own; empty where no filter applies.
    pub filters: String,
    /// Where the transcoder writes.
    pub output_path: String,
}

/// The first stream of `kind` at or after position `from`.
pub open spec fn first_of_kind(streams: Seq<Stream>, kind: StreamKind, from: int) -> Option<usize>
    decreases streams.len() - from,
{
    if from < 0 || from >= streams.len() {
        None
    } else if streams[from].kind_of() == kind {
        Some(from as usize)
    } else {
        first_of_kind(streams, kind, from + 1)
    }
}

/// Finds the first stream of `kind`.
pub fn find_kind(streams: &Vec<Stream>, kind: StreamKind) -> (found: Option<usize>)
    ensures
        found == first_of_kind(streams@, kind, 0),
        found.is_some() ==> found.unwrap() < streams@.len(),
{
    let mut i: usize = 0;
    while i < streams.len()
        invariant
            i <= streams.len(),
            first_of_kind(streams@, kind, 0) == first_of_kind(streams@, kind, i as int),
        decreases streams.len() - i,
    {
        if streams[i].kind() == kind {
            return Some(i);
        }
        i = i + 1;
    }
    None
}

/// The filters for a file whose first video stream is `video`, in order: the
/// clean-up filters, the padding, then the profile's own video and audio
/// filter texts where they are not empty.
pub open spec fn filter_list(video: Stream, config: Config) -> Seq<Seq<char>> {
    cleanup_filters(config.filters) + pad_filters(video, config.video_targets) + single(
        config.video_targets.filters@.len() != 0,
        config.video_targets.filters@,
    ) + single(config.audio_targets.filters@.len() != 0, config.audio_targets.filters@)
}

/// The filter chain: the filters joined by commas.
pub open spec fn filter_chain(video: Stream, config: Config) -> Seq<char> {
    join_texts(filter_list(video, config), ","@)
}

/// The tokens that every call starts with: the input, the error mode, the
/// container format, and the thread count where it is not zero.
pub open spec fn head_tokens(input: Seq<char>, format: Seq<char>, threads: u32) -> Seq<Seq<char>> {
    seq!["-i"@, input, "-xerror"@, "-v"@, "error"@, "-f"@, format] + flag(
        threads != 0,
        "-threads"@,
        decimal_text(threads as nat),
    )
}

/// The complete argument list for a file with a video stream: the head, the
/// options for the first video stream, the filter chain where there is one,
/// the options for the audio streams and for the subtitle streams, and the
/// output path.
pub open spec fn plan_tokens(file: MediaFile, config: Config, threads: u32, output: Seq<char>) -> Seq<
    Seq<char>,
> {
    let streams = file.info.streams@;
    let video = streams[first_of_kind(streams, StreamKind::Video, 0).unwrap() as int];
    head_tokens(file.path@, config.streamline.output_format@, threads) + video_tokens(
        video,
        config.video_targets,
    ) + flag(filter_list(video, config).len() != 0, "-vf"@, filter_chain(video, config))
        + audio_tokens(
        streams,
        config.audio_targets,
        default_choice(streams, StreamKind::Audio, config.audio_targets.default_language@),
        streams.len() as int,
    ) + subtitle_tokens(
        streams,
        config.subtitles,
        default_choice(streams, StreamKind::Subtitle, config.subtitles.default_language@),
        streams.len() as int,
    ) + seq![output]
}

/// Whether `plan` is the plan for `file` with the given thread count and
/// output path.
pub open spec fn is_plan_for(
    plan: InvocationPlan,
    file: MediaFile,
    config: Config,
    threads: u32,
    output: Seq<char>,
) -> bool {
    let streams = file.info.streams@;
    let video = streams[first_of_kind(streams, StreamKind::Video, 0).unwrap() as int];
    &&& texts(plan.arguments@) == plan_tokens(file, config, threads, output)
    &&& plan.filters@ == filter_chain(video, config)
    &&& plan.output_path@ == output
}

fn push_head(command: &mut Vec<String>, input: &str, format: &str, threads: u32)
    requires
        old(command)@.len() == 0,
    ensures
        texts(final(command)@) == head_tokens(input@, format@, threads),
{
    push_text(command, "-i");
    push_text(command, input);
    push_text(command, "-xerror");
    push_text(command, "-v");
    push_text(command, "error");
    push_text(command, "-f");
    push_text(command, format);
    assert(texts(command@) =~= seq!["-i"@, input@, "-xerror"@, "-v"@, "error"@, "-f"@, format@]);
    push_flag_if(command, threads != 0, "-threads", decimal_string(threads).as_str());
}

fn collect_filters(video: &Stream, config: &Config) -> (filters: Vec<String>)
    ensures
        texts(filters@) == filter_list(*video, *config),
{
    let mut filters: Vec<String> = Vec::new();
    apply_video_filters(&config.filters, &mut filters);
    assert(texts(filters@) =~= cleanup_filters(config.filters));
    apply_aspect_ratio_corrections(video, &config.video_targets, &mut filters);
    push_text_if(
        &mut filters,
        !config.video_targets.filters.as_str().is_empty(),
        config.video_targets.filters.as_str(),
    );
    push_text_if(
        &mut filters,
        !config.audio_targets.filters.as_str().is_empty(),
        config.audio_targets.filters.as_str(),
    );
    filters
}

/// Composes the transcoder's call for `file`, writing to `output`.
///
/// A file without a video stream has no plan. For any other file the plan is
/// complete: every token is fixed by the file, the profile, the thread count
/// and the output path.
pub fn synthesize(file: &MediaFile, config: &Config, threads: u32, output: &str) -> (plan: Result<
    InvocationPlan,
    PlanError,
>)
    ensures
        plan.is_err() == first_of_kind(file.info.streams@, StreamKind::Video, 0).is_none(),
        plan.is_ok() ==> is_plan_for(plan.unwrap(), *file, *config, threads, output@),
{
    let streams = &file.info.streams;
    let video = match find_kind(streams, StreamKind::Video) {
        Some(i) => i,
        None => { return Err(PlanError::NoVideoStreams); },
    };
    let mut command: Vec<String> = Vec::new();
    push_head(&mut command, file.path.as_str(), config.streamline.output_format.as_str(), threads);
    apply_video_arguments(&streams[video], &config.video_targets, &mut command);
    let filters = collect_filters(&streams[video], config);
    let chain = join_strings(&filters, ",");
    push_flag_if(&mut command, filters.len() != 0, "-vf", chain.as_str());
    let audio_choice = choose_default(
        streams,
        StreamKind::Audio,
        config.audio_targets.default_language.as_str(),
    );
    apply_audio_group(streams, &config.audio_targets, audio_choice, &mut command);
    let subtitle_choice = choose_default(
        streams,
        StreamKind::Subtitle,
        config.subtitles.default_language.as_str(),
    );
    apply_subtitle_group(streams, &config.subtitles, subtitle_choice, &mut command);
    let ghost before = texts(command@);
    push_text(&mut command, output);
    assert(texts(command@) =~= before + seq![output@]);
    Ok(InvocationPlan { arguments: command, filters: chain, output_path: output.to_owned() })
}

/// Plans the transcoding of `input_file`: works out where the output goes and
/// composes the call. The thread count is the configured one, or
/// `host_parallelism` where the configuration asks to match the host.
///
/// Fails exactly for a file without a video stream.
pub fn process_file(input_file: &MediaFile, config: &Config, host_parallelism: u32) -> (plan: Result<
    InvocationPlan,
    PlanError,
>)
    requires
        plain_extension(config.streamline.output_extension@),
    ensures
        plan.is_err() == first_of_kind(input_file.info.streams@, StreamKind::Video, 0).is_none(),
        plan.is_ok() ==> {
            &&& is_staged(plan.unwrap().output_path@, config.streamline)
            &&& ends_with(plan.unwrap().output_path@, config.streamline.temporary_suffix@)
            &&& is_plan_for(
                plan.unwrap(),
                *input_file,
                *config,
                config.threads_for(host_parallelism),
                plan.unwrap().output_path@,
            )
        },
{
    let output = get_output_path(input_file.path.as_str(), config);
    synthesize(input_file, config, config.get_threads(host_parallelism), output.as_str())
}

/// A file has a plan exactly when one of its streams is a video stream.
pub proof fn lemma_video_stream_needed(streams: Seq<Stream>, from: int)
    requires
        0 <= from,
    ensures
        first_of_kind(streams, StreamKind::Video, from).is_none() <==> (forall|i: int|
            from <= i < streams.len() ==> (#[trigger] streams[i]).kind_of() != StreamKind::Video),
    decreases streams.len() - from,
{
    if from < streams.len() {
        lemma_video_stream_needed(streams, from + 1);
    }
}

} // verus!
