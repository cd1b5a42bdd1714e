use streamline::ffmpeg::{
    apply_video_arguments, apply_video_filters, find_kind, get_output_path, process_file,
    stage_output_path, synthesize, PlanError,
};
use streamline::padding::{apply_aspect_ratio_corrections, aspect_ratio_padding, Pad};
use streamline::tracks::{apply_audio_arguments, apply_subtitle_arguments};
use streamline::models::config::{Config, Filters};
use streamline::models::file::MediaFile;
use streamline::models::media::{FFProbeOutput, FrameRate, Stream, StreamKind};
use streamline::utils::get_system_path_separator;

fn base_config() -> Config {
    let mut config = Config::default();
    config.video_targets.crf = -1;
    config.streamline.output_format = "matroska".to_string();
    config.streamline.output_extension = "mkv".to_string();
    config.streamline.temporary_suffix = "tmp".to_string();
    config.ffmpeg.threads_auto_behavior = "default".to_string();
    config
}

fn video_stream(codec: &str, width: u32, height: u32) -> Stream {
    Stream {
        index: 0,
        codec_type: "video".to_string(),
        codec_name: codec.to_string(),
        width: Some(width),
        height: Some(height),
        avg_frame_rate: FrameRate { numerator: 30, denominator: 1 },
        ..Stream::default()
    }
}

fn audio_stream(index: u32, codec: &str, language: &str, default: bool) -> Stream {
    let mut stream = Stream {
        index,
        codec_type: "audio".to_string(),
        codec_name: codec.to_string(),
        sample_rate: 48000,
        channels: Some(2),
        ..Stream::default()
    };
    stream.tags.language = language.to_string();
    stream.disposition.default = if default { 1 } else { 0 };
    stream
}

fn subtitle_stream(index: u32, language: &str, default: bool) -> Stream {
    let mut stream = audio_stream(index, "subrip", language, default);
    stream.codec_type = "subtitle".to_string();
    stream.channels = None;
    stream.sample_rate = 0;
    stream
}

fn media(streams: Vec<Stream>) -> MediaFile {
    MediaFile {
        path: "/media/in/movie.avi".to_string(),
        info: FFProbeOutput { streams, ..FFProbeOutput::default() },
    }
}

fn words(tokens: &[&str]) -> Vec<String> {
    tokens.iter().map(|t| t.to_string()).collect()
}

#[test]
fn plan_for_hevc_file_overrides_video_codec_only() {
    let mut config = base_config();
    config.video_targets.codec = vec!["h264".to_string()];
    config.audio_targets.codec = vec!["aac".to_string()];
    let file = media(vec![video_stream("hevc", 1920, 1080), audio_stream(1, "aac", "", false)]);
    let plan = synthesize(&file, &config, 0, "/media/in/movie.mkv.tmp").unwrap();
    assert_eq!(
        plan.arguments,
        words(&[
            "-i",
            "/media/in/movie.avi",
            "-xerror",
            "-v",
            "error",
            "-f",
            "matroska",
            "-c:v",
            "h264",
            "/media/in/movie.mkv.tmp",
        ])
    );
    assert!(!plan.arguments.iter().any(|a| a.starts_with("-c:a")));
    assert_eq!(plan.filters, "");
    assert_eq!(plan.output_path, "/media/in/movie.mkv.tmp");
}

#[test]
fn file_without_video_stream_has_no_plan() {
    let config = base_config();
    let file = media(vec![audio_stream(0, "aac", "eng", true)]);
    assert_eq!(synthesize(&file, &config, 4, "out.tmp").unwrap_err(), PlanError::NoVideoStreams);
    assert_eq!(process_file(&file, &config, 8).unwrap_err(), PlanError::NoVideoStreams);
    assert_eq!(synthesize(&media(vec![]), &config, 4, "out.tmp").unwrap_err(), PlanError::NoVideoStreams);
    assert_eq!(PlanError::NoVideoStreams.message(), "No video streams found!");
}

#[test]
fn full_plan_keeps_the_fixed_order() {
    let mut config = base_config();
    config.video_targets.codec = vec!["hevc".to_string(), "h264".to_string()];
    config.video_targets.max_fps_milli = 29970;
    config.video_targets.max_bitrate = 2_500_000;
    config.video_targets.crf = 0;
    config.video_targets.ffmpeg_preset = "slow".to_string();
    config.video_targets.pix_fmt = "yuv420p".to_string();
    config.video_targets.tune = "film".to_string();
    config.video_targets.x265_params = "log-level=error".to_string();
    config.video_targets.max_width = 1280;
    config.video_targets.max_height = 720;
    config.video_targets.filters = "hflip,vflip".to_string();
    config.audio_targets.codec = vec!["aac".to_string()];
    config.audio_targets.sample_rate = vec![44100, 48000];
    config.audio_targets.channels = 2;
    config.audio_targets.language = vec!["eng".to_string(), "deu".to_string()];
    config.audio_targets.default_language = "deu".to_string();
    config.audio_targets.filters = "loudnorm".to_string();
    config.subtitles.language = vec!["eng".to_string()];
    config.subtitles.default_language = "eng".to_string();
    config.filters = Filters { deinterlace: true, deblock: 2, denoise: 3 };
    let mut surround = audio_stream(2, "ac3", "deu", false);
    surround.sample_rate = 96000;
    surround.channels = Some(6);
    let file = media(vec![
        video_stream("mpeg4", 1000, 800),
        audio_stream(1, "aac", "eng", true),
        surround,
        audio_stream(3, "aac", "fra", false),
        subtitle_stream(4, "fra", true),
        subtitle_stream(5, "eng", false),
    ]);
    let plan = synthesize(&file, &config, 6, "/out/movie.mkv.tmp").unwrap();
    assert_eq!(
        plan.arguments,
        words(&[
            "-i",
            "/media/in/movie.avi",
            "-xerror",
            "-v",
            "error",
            "-f",
            "matroska",
            "-threads",
            "6",
            "-c:v",
            "hevc",
            "-r",
            "29.97",
            "-b:v",
            "2500000",
            "-crf",
            "0",
            "-preset",
            "slow",
            "-pix_fmt",
            "yuv420p",
            "-tune",
            "film",
            "-x265-params",
            "log-level=error",
            "-vf",
            "yadif,deblock=2,hqdn3d=3,pad=1280:720:140:0,hflip,vflip,loudnorm",
            "-disposition:a:1",
            "0",
            "-c:a:2",
            "aac",
            "-ar:2",
            "44100",
            "-ac:2",
            "2",
            "-disposition:a:2",
            "default",
            "-map",
            "-0:3",
            "-map",
            "-0:s:4?",
            "-disposition:s:4",
            "0",
            "-disposition:s:5",
            "default",
            "/out/movie.mkv.tmp",
        ])
    );
    assert_eq!(
        plan.filters,
        "yadif,deblock=2,hqdn3d=3,pad=1280:720:140:0,hflip,vflip,loudnorm"
    );
}

#[test]
fn unset_quality_is_told_from_quality_zero() {
    let mut config = base_config();
    let stream = video_stream("h264", 640, 480);
    let mut command = Vec::new();
    apply_video_arguments(&stream, &config.video_targets, &mut command);
    assert!(command.is_empty());
    config.video_targets.crf = 0;
    apply_video_arguments(&stream, &config.video_targets, &mut command);
    assert_eq!(command, words(&["-crf", "0"]));
    config.video_targets.crf = -2;
    let mut negative = Vec::new();
    apply_video_arguments(&stream, &config.video_targets, &mut negative);
    assert_eq!(negative, words(&["-crf", "-2"]));
}

#[test]
fn allowed_codec_means_no_override() {
    let mut config = base_config();
    config.video_targets.codec = vec!["hevc".to_string(), "h264".to_string()];
    let mut command = words(&["kept"]);
    apply_video_arguments(&video_stream("h264", 640, 480), &config.video_targets, &mut command);
    assert_eq!(command, words(&["kept"]));
    apply_video_arguments(&video_stream("vp9", 640, 480), &config.video_targets, &mut command);
    assert_eq!(command, words(&["kept", "-c:v", "hevc"]));
}

#[test]
fn cleanup_filters_follow_the_switches() {
    let mut filters = Vec::new();
    apply_video_filters(&Filters { deinterlace: false, deblock: 0, denoise: 0 }, &mut filters);
    assert!(filters.is_empty());
    apply_video_filters(&Filters { deinterlace: true, deblock: 0, denoise: 4 }, &mut filters);
    assert_eq!(filters, words(&["yadif", "hqdn3d=4"]));
    apply_video_filters(&Filters { deinterlace: false, deblock: 1, denoise: 0 }, &mut filters);
    assert_eq!(filters, words(&["yadif", "hqdn3d=4", "deblock=1"]));
}

#[test]
fn exact_fit_gets_no_padding() {
    let mut config = base_config();
    config.video_targets.max_width = 1280;
    config.video_targets.max_height = 720;
    let stream = video_stream("h264", 1280, 720);
    assert_eq!(aspect_ratio_padding(&stream, &config.video_targets), None);
    let mut filters = Vec::new();
    apply_aspect_ratio_corrections(&stream, &config.video_targets, &mut filters);
    assert!(filters.is_empty());
}

#[test]
fn padding_needs_dimensions_a_limit_and_an_excess() {
    let mut config = base_config();
    let stream = video_stream("h264", 1920, 1080);
    assert_eq!(aspect_ratio_padding(&stream, &config.video_targets), None);
    config.video_targets.max_width = 1920;
    config.video_targets.max_height = 1080;
    assert_eq!(
        aspect_ratio_padding(&video_stream("h264", 640, 480), &config.video_targets),
        None
    );
    let mut blind = video_stream("h264", 4000, 3000);
    blind.height = None;
    assert_eq!(aspect_ratio_padding(&blind, &config.video_targets), None);
    blind.height = Some(3000);
    blind.width = None;
    assert_eq!(aspect_ratio_padding(&blind, &config.video_targets), None);
}

#[test]
fn narrow_picture_is_centred_horizontally() {
    let mut config = base_config();
    config.video_targets.max_width = 1280;
    config.video_targets.max_height = 720;
    let stream = video_stream("h264", 1001, 800);
    assert_eq!(
        aspect_ratio_padding(&stream, &config.video_targets),
        Some(Pad { width: 1280, height: 720, x: 139, y: 0 })
    );
    let mut filters = Vec::new();
    apply_aspect_ratio_corrections(&stream, &config.video_targets, &mut filters);
    assert_eq!(filters, words(&["pad=1280:720:139:0"]));
}

#[test]
fn wide_picture_is_centred_vertically() {
    let mut config = base_config();
    config.video_targets.max_width = 1280;
    config.video_targets.max_height = 720;
    let stream = video_stream("h264", 1920, 535);
    assert_eq!(
        aspect_ratio_padding(&stream, &config.video_targets),
        Some(Pad { width: 1280, height: 720, x: 0, y: 92 })
    );
}

#[test]
fn picture_larger_on_the_padded_axis_is_not_moved() {
    let mut config = base_config();
    config.video_targets.max_width = 1280;
    config.video_targets.max_height = 720;
    let stream = video_stream("h264", 1920, 800);
    assert_eq!(
        aspect_ratio_padding(&stream, &config.video_targets),
        Some(Pad { width: 1280, height: 720, x: 0, y: 0 })
    );
    let mut filters = Vec::new();
    apply_aspect_ratio_corrections(&stream, &config.video_targets, &mut filters);
    assert_eq!(filters, words(&["pad=1280:720:0:0"]));
}

#[test]
fn equal_proportions_pad_the_width() {
    let mut config = base_config();
    config.video_targets.max_width = 1280;
    config.video_targets.max_height = 720;
    let stream = video_stream("h264", 2560, 1440);
    assert_eq!(
        aspect_ratio_padding(&stream, &config.video_targets),
        Some(Pad { width: 1280, height: 720, x: 0, y: 0 })
    );
    let extreme = video_stream("h264", u32::MAX, u32::MAX);
    assert_eq!(
        aspect_ratio_padding(&extreme, &config.video_targets),
        Some(Pad { width: 1280, height: 720, x: 0, y: 0 })
    );
}

#[test]
fn audio_stream_gets_its_overrides() {
    let mut config = base_config();
    config.audio_targets.codec = vec!["aac".to_string(), "opus".to_string()];
    config.audio_targets.sample_rate = vec![48000];
    config.audio_targets.channels = 2;
    config.audio_targets.language = vec!["eng".to_string()];
    let mut stream = audio_stream(3, "dts", "jpn", true);
    stream.sample_rate = 44100;
    stream.channels = Some(6);
    let mut command = Vec::new();
    apply_audio_arguments(&stream, 1, &config.audio_targets, Some(0), &mut command);
    assert_eq!(
        command,
        words(&[
            "-c:a:3",
            "aac",
            "-ar:3",
            "48000",
            "-ac:3",
            "2",
            "-map",
            "-0:3",
            "-disposition:a:3",
            "0",
        ])
    );
}

#[test]
fn fitting_audio_stream_gets_nothing() {
    let mut config = base_config();
    config.audio_targets.codec = vec!["aac".to_string()];
    config.audio_targets.sample_rate = vec![44100, 48000];
    config.audio_targets.channels = 2;
    config.audio_targets.language = vec!["eng".to_string()];
    let mut command = Vec::new();
    apply_audio_arguments(
        &audio_stream(1, "aac", "eng", true),
        1,
        &config.audio_targets,
        Some(1),
        &mut command,
    );
    assert!(command.is_empty());
    apply_audio_arguments(
        &audio_stream(2, "aac", "", false),
        2,
        &config.audio_targets,
        Some(1),
        &mut command,
    );
    assert!(command.is_empty());
}

#[test]
fn unknown_channel_count_is_overridden() {
    let mut config = base_config();
    config.audio_targets.channels = 2;
    let mut stream = audio_stream(1, "aac", "", false);
    stream.channels = None;
    let mut command = Vec::new();
    apply_audio_arguments(&stream, 0, &config.audio_targets, None, &mut command);
    assert_eq!(command, words(&["-ac:1", "2"]));
}

#[test]
fn subtitle_stream_mirrors_audio() {
    let mut config = base_config();
    config.subtitles.language = vec!["eng".to_string()];
    let mut command = Vec::new();
    apply_subtitle_arguments(
        &subtitle_stream(4, "fra", false),
        2,
        &config.subtitles,
        Some(2),
        &mut command,
    );
    assert_eq!(command, words(&["-map", "-0:s:4?", "-disposition:s:4", "default"]));
    let mut second = Vec::new();
    apply_subtitle_arguments(
        &subtitle_stream(5, "eng", true),
        3,
        &config.subtitles,
        Some(2),
        &mut second,
    );
    assert_eq!(second, words(&["-disposition:s:5", "0"]));
}

#[test]
fn at_most_one_audio_stream_ends_as_default() {
    let config = base_config();
    let file = media(vec![
        video_stream("h264", 640, 480),
        audio_stream(1, "aac", "eng", true),
        audio_stream(2, "aac", "deu", true),
        audio_stream(3, "aac", "fra", true),
    ]);
    let plan = synthesize(&file, &config, 0, "out.tmp").unwrap();
    assert_eq!(
        plan.arguments,
        words(&[
            "-i",
            "/media/in/movie.avi",
            "-xerror",
            "-v",
            "error",
            "-f",
            "matroska",
            "-disposition:a:2",
            "0",
            "-disposition:a:3",
            "0",
            "out.tmp",
        ])
    );
}

#[test]
fn first_video_stream_is_the_one_planned_for() {
    let mut config = base_config();
    config.video_targets.codec = vec!["h264".to_string()];
    let file = media(vec![
        audio_stream(0, "aac", "", false),
        video_stream("h264", 640, 480),
        video_stream("mjpeg", 100, 100),
    ]);
    assert_eq!(find_kind(&file.info.streams, StreamKind::Video), Some(1));
    assert_eq!(find_kind(&file.info.streams, StreamKind::Subtitle), None);
    let plan = synthesize(&file, &config, 0, "out.tmp").unwrap();
    assert!(!plan.arguments.contains(&"-c:v".to_string()));
}

#[test]
fn staged_path_stays_beside_the_source() {
    let config = base_config();
    assert_eq!(
        stage_output_path("/media/in/movie.mkv", "/", &config.streamline),
        "/media/in/movie.mkv.tmp"
    );
}

#[test]
fn staged_path_moves_to_the_output_directory() {
    let mut config = base_config();
    config.streamline.output_directory = "/out".to_string();
    assert_eq!(
        stage_output_path("/media/in/movie.mkv", "/", &config.streamline),
        "/out/movie.mkv.tmp"
    );
    assert_eq!(
        stage_output_path("C:\\media\\movie.mkv", "\\", &config.streamline),
        "/out\\movie.mkv.tmp"
    );
    assert_eq!(stage_output_path("movie.mkv", "/", &config.streamline), "/out/movie.mkv.tmp");
}

#[test]
fn output_path_replaces_the_extension() {
    let mut config = base_config();
    let sep = get_system_path_separator();
    let source = format!("media{}in{}movie.avi", sep, sep);
    assert_eq!(get_output_path(&source, &config), format!("media{}in{}movie.mkv.tmp", sep, sep));
    config.streamline.output_directory = "out".to_string();
    assert_eq!(get_output_path(&source, &config), format!("out{}movie.mkv.tmp", sep));
    assert_eq!(get_output_path("plain", &config), format!("out{}plain.mkv.tmp", sep));
}

#[test]
fn process_file_plans_with_the_resolved_thread_count() {
    let mut config = base_config();
    config.ffmpeg.threads = 3;
    let file = media(vec![video_stream("h264", 640, 480)]);
    let plan = process_file(&file, &config, 16).unwrap();
    let sep = get_system_path_separator();
    let output = format!("{}media{}in{}movie.mkv.tmp", sep, sep, sep);
    if sep == "/" {
        assert_eq!(plan.output_path, output);
        assert_eq!(
            plan.arguments,
            words(&[
                "-i",
                "/media/in/movie.avi",
                "-xerror",
                "-v",
                "error",
                "-f",
                "matroska",
                "-threads",
                "3",
                "/media/in/movie.mkv.tmp",
            ])
        );
    }
    config.ffmpeg.threads_auto_behavior = "available_parallelism".to_string();
    let matched = process_file(&file, &config, 16).unwrap();
    assert_eq!(matched.arguments[7], "-threads");
    assert_eq!(matched.arguments[8], "16");
    assert!(matched.output_path.ends_with(".tmp"));
    assert_eq!(matched.arguments.last(), Some(&matched.output_path));
}
