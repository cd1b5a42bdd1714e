use streamline::compliance::{check_file, find_violation, is_codec_allowed, Violation};
use streamline::models::config::Config;
use streamline::models::file::MediaFile;
use streamline::models::media::{FFProbeOutput, FrameRate, Stream};

fn profile() -> Config {
    let mut config = Config::default();
    config.video_targets.crf = -1;
    config
}

fn video(codec: &str, width: u32, height: u32) -> Stream {
    Stream {
        index: 0,
        codec_type: "video".to_string(),
        codec_name: codec.to_string(),
        width: Some(width),
        height: Some(height),
        avg_frame_rate: FrameRate { numerator: 30, denominator: 1 },
        r_frame_rate: FrameRate { numerator: 30, denominator: 1 },
        bit_rate: 4_000_000,
        ..Stream::default()
    }
}

fn audio(index: u32, codec: &str) -> Stream {
    Stream {
        index,
        codec_type: "audio".to_string(),
        codec_name: codec.to_string(),
        sample_rate: 48000,
        ..Stream::default()
    }
}

fn file(streams: Vec<Stream>) -> MediaFile {
    MediaFile {
        path: "/media/movie.avi".to_string(),
        info: FFProbeOutput { streams, ..FFProbeOutput::default() },
    }
}

#[test]
fn file_within_profile_is_compliant() {
    let mut config = profile();
    config.video_targets.codec = vec!["h264".to_string(), "hevc".to_string()];
    config.video_targets.max_width = 1920;
    config.video_targets.max_height = 1080;
    config.video_targets.max_fps_milli = 30000;
    config.video_targets.max_bitrate = 4_000_000;
    config.audio_targets.codec = vec!["aac".to_string()];
    let decision = check_file(&file(vec![video("hevc", 1920, 1080), audio(1, "aac")]), &config);
    assert!(decision.compliant);
    assert!(decision.reasons.is_empty());
}

#[test]
fn unconstrained_profile_accepts_everything() {
    let decision =
        check_file(&file(vec![video("mpeg2video", 9999, 9999), audio(1, "mp2")]), &profile());
    assert!(decision.compliant);
    assert!(decision.reasons.is_empty());
}

#[test]
fn hevc_against_h264_profile_is_rejected_for_its_codec() {
    let mut config = profile();
    config.video_targets.codec = vec!["h264".to_string()];
    config.audio_targets.codec = vec!["aac".to_string()];
    let decision = check_file(&file(vec![video("hevc", 1920, 1080), audio(1, "aac")]), &config);
    assert!(!decision.compliant);
    assert_eq!(decision.reasons, vec!["Codec: hevc not in target list".to_string()]);
}

#[test]
fn force_flag_wins_over_everything() {
    let mut config = profile();
    config.audio_targets.force_filter = true;
    config.video_targets.codec = vec!["h264".to_string()];
    let media = file(vec![video("hevc", 1920, 1080)]);
    assert_eq!(find_violation(&media, &config), Some(Violation::Forced));
    let decision = check_file(&media, &config);
    assert!(!decision.compliant);
    assert_eq!(
        decision.reasons,
        vec!["Force filter enabled - processing all files".to_string()]
    );
    config.audio_targets.force_filter = false;
    config.video_targets.force_filter = true;
    assert_eq!(find_violation(&file(vec![]), &config), Some(Violation::Forced));
}

#[test]
fn oversized_picture_is_rejected() {
    let mut config = profile();
    config.video_targets.max_width = 1280;
    config.video_targets.max_height = 720;
    let media = file(vec![video("h264", 1920, 1080)]);
    assert_eq!(find_violation(&media, &config), Some(Violation::Resolution { stream: 0 }));
    assert_eq!(
        check_file(&media, &config).reasons,
        vec!["Resolution 1920x1080 exceeds target 1280x720".to_string()]
    );
    let fits = file(vec![video("h264", 1280, 720)]);
    assert_eq!(find_violation(&fits, &config), None);
}

#[test]
fn zero_limit_on_one_axis_constrains_only_the_other() {
    let mut config = profile();
    config.video_targets.max_height = 720;
    assert_eq!(find_violation(&file(vec![video("h264", 5000, 720)]), &config), None);
    assert_eq!(
        find_violation(&file(vec![video("h264", 100, 721)]), &config),
        Some(Violation::Resolution { stream: 0 })
    );
}

#[test]
fn missing_dimensions_exceed_nothing() {
    let mut config = profile();
    config.video_targets.max_width = 1280;
    config.video_targets.max_height = 720;
    let mut stream = video("h264", 0, 0);
    stream.width = None;
    stream.height = None;
    assert_eq!(find_violation(&file(vec![stream]), &config), None);
}

#[test]
fn fast_stream_is_rejected() {
    let mut config = profile();
    config.video_targets.max_fps_milli = 29970;
    let media = file(vec![video("h264", 1280, 720)]);
    assert_eq!(find_violation(&media, &config), Some(Violation::FrameRate { stream: 0 }));
    assert_eq!(
        check_file(&media, &config).reasons,
        vec!["FPS: 30/1 exceeds target 29.97".to_string()]
    );
    config.video_targets.max_fps_milli = 30000;
    assert_eq!(find_violation(&media, &config), None);
}

#[test]
fn high_bit_rate_is_rejected() {
    let mut config = profile();
    config.video_targets.max_bitrate = 3_999_999;
    let media = file(vec![video("h264", 1280, 720)]);
    assert_eq!(find_violation(&media, &config), Some(Violation::Bitrate { stream: 0 }));
    assert_eq!(
        check_file(&media, &config).reasons,
        vec!["Bitrate: 4000000 exceeds target 3999999".to_string()]
    );
}

#[test]
fn audio_codec_outside_the_list_is_rejected() {
    let mut config = profile();
    config.audio_targets.codec = vec!["aac".to_string()];
    let media = file(vec![video("h264", 1280, 720), audio(1, "aac"), audio(2, "dts")]);
    assert_eq!(find_violation(&media, &config), Some(Violation::AudioCodec { stream: 2 }));
    assert_eq!(
        check_file(&media, &config).reasons,
        vec!["Codec: dts not in target list".to_string()]
    );
}

#[test]
fn video_violation_is_reported_before_audio() {
    let mut config = profile();
    config.audio_targets.codec = vec!["aac".to_string()];
    config.video_targets.max_bitrate = 1000;
    let media = file(vec![audio(0, "dts"), video("h264", 1280, 720)]);
    assert_eq!(find_violation(&media, &config), Some(Violation::Bitrate { stream: 1 }));
}

#[test]
fn codec_is_checked_before_the_limits() {
    let mut config = profile();
    config.video_targets.codec = vec!["h264".to_string()];
    config.video_targets.max_width = 100;
    config.video_targets.max_bitrate = 1;
    let media = file(vec![video("vp9", 1280, 720)]);
    assert_eq!(find_violation(&media, &config), Some(Violation::VideoCodec { stream: 0 }));
}

#[test]
fn other_streams_are_not_judged() {
    let mut config = profile();
    config.video_targets.codec = vec!["h264".to_string()];
    config.audio_targets.codec = vec!["aac".to_string()];
    let mut data = audio(0, "bin_data");
    data.codec_type = "data".to_string();
    let mut subtitle = audio(1, "subrip");
    subtitle.codec_type = "subtitle".to_string();
    assert_eq!(find_violation(&file(vec![data, subtitle]), &config), None);
}

#[test]
fn empty_allow_list_allows_every_codec() {
    assert!(is_codec_allowed(&vec![], "anything"));
    assert!(is_codec_allowed(&vec!["aac".to_string()], "aac"));
    assert!(!is_codec_allowed(&vec!["aac".to_string()], "ac3"));
}

#[test]
fn describe_marks_unreported_dimensions() {
    let mut config = profile();
    config.video_targets.max_width = 1280;
    config.video_targets.max_height = 720;
    let mut stream = video("h264", 1920, 0);
    stream.height = None;
    let media = file(vec![stream]);
    let violation = Violation::Resolution { stream: 0 };
    assert_eq!(
        violation.describe(&media, &config),
        "Resolution 1920x? exceeds target 1280x720"
    );
}

#[test]
fn file_without_video_stream_is_refused_before_any_rule() {
    let mut config = profile();
    config.audio_targets.codec = vec!["aac".to_string()];
    let only_audio = file(vec![audio(0, "aac")]);
    assert_eq!(
        streamline::orchestrate::examine(&only_audio, &config).unwrap_err(),
        streamline::ffmpeg::PlanError::NoVideoStreams
    );
    let offending = file(vec![audio(0, "dts")]);
    assert!(streamline::orchestrate::examine(&offending, &config).is_err());
    config.video_targets.force_filter = true;
    assert!(streamline::orchestrate::examine(&file(vec![]), &config).is_err());
}

#[test]
fn file_with_video_stream_is_classified() {
    let mut config = profile();
    config.video_targets.codec = vec!["h264".to_string()];
    let good = streamline::orchestrate::examine(&file(vec![video("h264", 640, 480)]), &config).unwrap();
    assert!(good.compliant);
    let bad = streamline::orchestrate::examine(&file(vec![video("hevc", 640, 480)]), &config).unwrap();
    assert!(!bad.compliant);
    assert_eq!(bad.reasons, vec!["Codec: hevc not in target list".to_string()]);
}
