//! Deciding whether a probed file meets the target profile.

use vstd::prelude::*;
use crate::models::config::{Config, VideoTargets};
use crate::models::file::MediaFile;
use crate::models::media::{FrameRate, Stream, StreamKind};
use crate::text::{decimal_text, list_contains, milli_string, milli_text, push_decimal, texts};

verus! {

/// The first rule that a file breaks. `stream` is the position of the
/// offending stream in the file's stream list.
#[derive(Debug, Clone, Copy, PartialEq, Eq, Structural)]
pub enum Violation {
    /// The profile asks for every file to be transcoded.
    Forced,
    /// A video stream's codec is not among the allowed ones.
    VideoCodec { stream: usize },
    /// A video stream is wider or higher than allowed.
    Resolution { stream: usize },
    /// A video stream's frame rate is above the limit.
    FrameRate { stream: usize },
    /// A video stream's bit rate is above the limit.
    Bitrate { stream: usize },
    /// An audio stream's codec is not among the allowed ones.
    AudioCodec { stream: usize },
}

/// The outcome for one file: whether it meets the profile, and if not, why.
#[derive(Debug, Default, Clone)]
pub struct Decision {
    pub compliant: bool,
    /// Readable reasons, for logs only.
    pub reasons: Vec<String>,
}

/// An empty list allows every codec; any other list allows its members.
pub open spec fn codec_allowed(allowed: Seq<String>, codec: Seq<char>) -> bool {
    allowed.len() == 0 || texts(allowed).contains(codec)
}

/// A reported dimension lies above a limit when the limit is set (not zero)
/// and the dimension is larger. A dimension that is not reported lies above
/// nothing.
pub open spec fn above_limit(value: Option<u32>, limit: u32) -> bool {
    limit != 0 && value.is_some() && value.unwrap() > limit
}

/// Whether the profile asks for every file to be transcoded.
pub open spec fn forced(config: Config) -> bool {
    config.video_targets.force_filter || config.audio_targets.force_filter
}

/// The first rule that one video stream breaks, the rules taken in the order
/// codec, resolution, frame rate, bit rate.
pub open spec fn video_violation(s: Stream, t: VideoTargets, pos: usize) -> Option<Violation> {
    if !codec_allowed(t.codec@, s.codec_name@) {
        Some(Violation::VideoCodec { stream: pos })
    } else if above_limit(s.height, t.max_height) || above_limit(s.width, t.max_width) {
        Some(Violation::Resolution { stream: pos })
    } else if t.max_fps_milli != 0 && s.avg_frame_rate.above_milli(t.max_fps_milli) {
        Some(Violation::FrameRate { stream: pos })
    } else if t.max_bitrate != 0 && s.bit_rate > t.max_bitrate {
        Some(Violation::Bitrate { stream: pos })
    } else {
        None
    }
}

/// The violation of the first video stream at or after position `from` that
/// breaks a rule.
pub open spec fn first_video_violation(streams: Seq<Stream>, t: VideoTargets, from: int) -> Option<
    Violation,
>
    decreases streams.len() - from,
{
    if from < 0 || from >= streams.len() {
        None
    } else if streams[from].kind_of() == StreamKind::Video && video_violation(
        streams[from],
        t,
        from as usize,
    ).is_some() {
        video_violation(streams[from], t, from as usize)
    } else {
        first_video_violation(streams, t, from + 1)
    }
}

/// The violation of the first audio stream at or after position `from` whose
/// codec is not allowed.
pub open spec fn first_audio_violation(streams: Seq<Stream>, allowed: Seq<String>, from: int) -> Option<
    Violation,
>
    decreases streams.len() - from,
{
    if from < 0 || from >= streams.len() {
        None
    } else if streams[from].kind_of() == StreamKind::Audio && !codec_allowed(
        allowed,
        streams[from].codec_name@,
    ) {
        Some(Violation::AudioCodec { stream: from as usize })
    } else {
        first_audio_violation(streams, allowed, from + 1)
    }
}

/// The rule that decides a file: the force flag first, then the first
/// offending video stream, then the first offending audio stream.
pub open spec fn violation_of(file: MediaFile, config: Config) -> Option<Violation> {
    let streams = file.info.streams@;
    if forced(config) {
        Some(Violation::Forced)
    } else if first_video_violation(streams, config.video_targets, 0).is_some() {
        first_video_violation(streams, config.video_targets, 0)
    } else {
        first_audio_violation(streams, config.audio_targets.codec@, 0)
    }
}

/// How a dimension reads in a reason: its numeral, or a question mark where
/// it is not reported.
pub open spec fn dimension_text(value: Option<u32>) -> Seq<char> {
    match value {
        Some(v) => decimal_text(v as nat),
        None => "?"@,
    }
}

/// How a frame rate reads in a reason: numerator, slash, denominator.
pub open spec fn rate_text(rate: FrameRate) -> Seq<char> {
    decimal_text(rate.numerator as nat) + "/"@ + decimal_text(rate.denominator as nat)
}

impl Violation {
    /// Whether the violation names a stream that the file has.
    pub open spec fn within(self, file: MediaFile) -> bool {
        match self {
            Violation::Forced => true,
            Violation::VideoCodec { stream } => stream < file.info.streams@.len(),
            Violation::Resolution { stream } => stream < file.info.streams@.len(),
            Violation::FrameRate { stream } => stream < file.info.streams@.len(),
            Violation::Bitrate { stream } => stream < file.info.streams@.len(),
            Violation::AudioCodec { stream } => stream < file.info.streams@.len(),
        }
    }

    /// The readable reason for the violation.
    pub open spec fn reason_text(self, file: MediaFile, config: Config) -> Seq<char> {
        let streams = file.info.streams@;
        let t = config.video_targets;
        match self {
            Violation::Forced => "Force filter enabled - processing all files"@,
            Violation::VideoCodec { stream } => "Codec: "@ + streams[stream as int].codec_name@
                + " not in target list"@,
            Violation::Resolution { stream } => "Resolution "@ + dimension_text(
                streams[stream as int].width,
            ) + "x"@ + dimension_text(streams[stream as int].height) + " exceeds target "@
                + decimal_text(t.max_width as nat) + "x"@ + decimal_text(t.max_height as nat),
            Violation::FrameRate { stream } => "FPS: "@ + rate_text(
                streams[stream as int].avg_frame_rate,
            ) + " exceeds target "@ + milli_text(t.max_fps_milli as nat),
            Violation::Bitrate { stream } => "Bitrate: "@ + decimal_text(
                streams[stream as int].bit_rate as nat,
            ) + " exceeds target "@ + decimal_text(t.max_bitrate as nat),
            Violation::AudioCodec { stream } => "Codec: "@ + streams[stream as int].codec_name@
                + " not in target list"@,
        }
    }

    /// Writes the readable reason for the violation.
    pub fn describe(&self, file: &MediaFile, config: &Config) -> (reason: String)
        requires
            self.within(*file),
        ensures
            reason@ == self.reason_text(*file, *config),
    {
        let t = &config.video_targets;
        match self {
            Violation::Forced => "Force filter enabled - processing all files".to_owned(),
            Violation::VideoCodec { stream } => codec_reason(&file.info.streams[*stream]),
            Violation::AudioCodec { stream } => codec_reason(&file.info.streams[*stream]),
            Violation::Resolution { stream } => {
                let s = &file.info.streams[*stream];
                let mut reason = "Resolution ".to_owned();
                push_dimension(&mut reason, s.width);
                reason.append("x");
                push_dimension(&mut reason, s.height);
                reason.append(" exceeds target ");
                push_decimal(&mut reason, t.max_width);
                reason.append("x");
                push_decimal(&mut reason, t.max_height);
                reason
            },
            Violation::FrameRate { stream } => {
                let s = &file.info.streams[*stream];
                let mut reason = "FPS: ".to_owned();
                push_decimal(&mut reason, s.avg_frame_rate.numerator);
                reason.append("/");
                push_decimal(&mut reason, s.avg_frame_rate.denominator);
                reason.append(" exceeds target ");
                reason.append(milli_string(t.max_fps_milli).as_str());
                assert(reason@ =~= self.reason_text(*file, *config));
                reason
            },
            Violation::Bitrate { stream } => {
                let s = &file.info.streams[*stream];
                let mut reason = "Bitrate: ".to_owned();
                push_decimal(&mut reason, s.bit_rate);
                reason.append(" exceeds target ");
                push_decimal(&mut reason, t.max_bitrate);
                reason
            },
        }
    }
}

fn codec_reason(stream: &Stream) -> (reason: String)
    ensures
        reason@ == "Codec: "@ + stream.codec_name@ + " not in target list"@,
{
    let mut reason = "Codec: ".to_owned();
    reason.append(stream.codec_name.as_str());
    reason.append(" not in target list");
    reason
}

fn push_dimension(out: &mut String, value: Option<u32>)
    ensures
        final(out)@ == old(out)@ + dimension_text(value),
{
    match value {
        Some(v) => push_decimal(out, v),
        None => out.append("?"),
    }
}

/// Tells whether a codec passes an allow list.
pub fn is_codec_allowed(allowed: &Vec<String>, codec: &str) -> (ok: bool)
    ensures
        ok == codec_allowed(allowed@, codec@),
{
    allowed.len() == 0 || list_contains(allowed, codec)
}

fn is_above_limit(value: Option<u32>, limit: u32) -> (above: bool)
    ensures
        above == above_limit(value, limit),
{
    match value {
        Some(v) => limit != 0 && v > limit,
        None => false,
    }
}

fn check_video_stream(s: &Stream, t: &VideoTargets, pos: usize) -> (found: Option<Violation>)
    ensures
        found == video_violation(*s, *t, pos),
{
    if !is_codec_allowed(&t.codec, s.codec_name.as_str()) {
        Some(Violation::VideoCodec { stream: pos })
    } else if is_above_limit(s.height, t.max_height) || is_above_limit(s.width, t.max_width) {
        Some(Violation::Resolution { stream: pos })
    } else if t.max_fps_milli != 0 && s.avg_frame_rate.exceeds_milli(t.max_fps_milli) {
        Some(Violation::FrameRate { stream: pos })
    } else if t.max_bitrate != 0 && s.bit_rate > t.max_bitrate {
        Some(Violation::Bitrate { stream: pos })
    } else {
        None
    }
}

/// Finds the rule that decides a file, if it breaks one.
#[verifier::loop_isolation(false)]
pub fn find_violation(file: &MediaFile, config: &Config) -> (found: Option<Violation>)
    ensures
        found == violation_of(*file, *config),
        found.is_some() ==> found.unwrap().within(*file),
{
    if config.video_targets.force_filter || config.audio_targets.force_filter {
        return Some(Violation::Forced);
    }
    let streams = &file.info.streams;
    let mut i: usize = 0;
    while i < streams.len()
        invariant
            i <= streams.len(),
            first_video_violation(streams@, config.video_targets, 0) == first_video_violation(
                streams@,
                config.video_targets,
                i as int,
            ),
        decreases streams.len() - i,
    {
        if let StreamKind::Video = streams[i].kind() {
            let found = check_video_stream(&streams[i], &config.video_targets, i);
            if found.is_some() {
                return found;
            }
        }
        i = i + 1;
    }
    let mut k: usize = 0;
    while k < streams.len()
        invariant
            k <= streams.len(),
            first_audio_violation(streams@, config.audio_targets.codec@, 0)
                == first_audio_violation(streams@, config.audio_targets.codec@, k as int),
        decreases streams.len() - k,
    {
        if let StreamKind::Audio = streams[k].kind() {
            if !is_codec_allowed(&config.audio_targets.codec, streams[k].codec_name.as_str()) {
                return Some(Violation::AudioCodec { stream: k });
            }
        }
        k = k + 1;
    }
    None
}

/// Classifies a file against the profile.
///
/// The file is compliant exactly when it breaks no rule. Otherwise the one
/// reason given is that of the deciding rule: the force flag before any
/// stream, video streams before audio streams, and within a video stream
/// codec, resolution, frame rate, bit rate in that order.
pub fn check_file(file: &MediaFile, config: &Config) -> (decision: Decision)
    ensures
        decision.compliant == violation_of(*file, *config).is_none(),
        texts(decision.reasons@) == (match violation_of(*file, *config) {
            Some(v) => seq![v.reason_text(*file, *config)],
            None => Seq::<Seq<char>>::empty(),
        }),
{
    let mut reasons: Vec<String> = Vec::new();
    match find_violation(file, config) {
        Some(v) => {
            reasons.push(v.describe(file, config));
            assert(texts(reasons@) =~= seq![v.reason_text(*file, *config)]);
            Decision { compliant: false, reasons }
        },
        None => {
            assert(texts(reasons@) =~= Seq::<Seq<char>>::empty());
            Decision { compliant: true, reasons }
        },
    }
}

/// Whether a stream is within the profile: a video stream breaks no video
/// rule, an audio stream has an allowed codec, and any other stream passes.
pub open spec fn stream_within_profile(s: Stream, config: Config) -> bool {
    match s.kind_of() {
        StreamKind::Video => {
            &&& codec_allowed(config.video_targets.codec@, s.codec_name@)
            &&& !above_limit(s.width, config.video_targets.max_width)
            &&& !above_limit(s.height, config.video_targets.max_height)
            &&& !(config.video_targets.max_fps_milli != 0 && s.avg_frame_rate.above_milli(
                config.video_targets.max_fps_milli,
            ))
            &&& !(config.video_targets.max_bitrate != 0 && s.bit_rate
                > config.video_targets.max_bitrate)
        },
        StreamKind::Audio => codec_allowed(config.audio_targets.codec@, s.codec_name@),
        _ => true,
    }
}

proof fn lemma_no_video_violation(streams: Seq<Stream>, config: Config, from: int)
    requires
        0 <= from,
        forall|i: int| 0 <= i < streams.len() ==> stream_within_profile(#[trigger] streams[i], config),
    ensures
        first_video_violation(streams, config.video_targets, from).is_none(),
    decreases streams.len() - from,
{
    if from < streams.len() {
        assert(stream_within_profile(streams[from], config));
        lemma_no_video_violation(streams, config, from + 1);
    }
}

proof fn lemma_no_audio_violation(streams: Seq<Stream>, config: Config, from: int)
    requires
        0 <= from,
        forall|i: int| 0 <= i < streams.len() ==> stream_within_profile(#[trigger] streams[i], config),
    ensures
        first_audio_violation(streams, config.audio_targets.codec@, from).is_none(),
    decreases streams.len() - from,
{
    if from < streams.len() {
        assert(stream_within_profile(streams[from], config));
        lemma_no_audio_violation(streams, config, from + 1);
    }
}

/// A file is compliant when nothing is forced and every stream is within the
/// profile: each video stream has an allowed codec and stays within the
/// limits on width, height, frame rate and bit rate, and each audio stream
/// has an allowed codec.
pub proof fn lemma_within_profile_is_compliant(file: MediaFile, config: Config)
    requires
        !forced(config),
        forall|i: int|
            0 <= i < file.info.streams@.len() ==> stream_within_profile(
                #[trigger] file.info.streams@[i],
                config,
            ),
    ensures
        violation_of(file, config).is_none(),
{
    lemma_no_video_violation(file.info.streams@, config, 0);
    lemma_no_audio_violation(file.info.streams@, config, 0);
}

/// A file that breaks a rule is never compliant: a forced profile, or one
/// stream outside the profile, is enough.
pub proof fn lemma_outside_profile_is_not_compliant(file: MediaFile, config: Config, i: int)
    requires
        0 <= i < file.info.streams@.len(),
        !stream_within_profile(file.info.streams@[i], config),
    ensures
        violation_of(file, config).is_some(),
{
    let streams = file.info.streams@;
    if !forced(config) {
        if streams[i].kind_of() == StreamKind::Video {
            lemma_video_violation_found(streams, config, 0, i);
        } else {
            lemma_audio_violation_found(streams, config, 0, i);
        }
    }
}

proof fn lemma_video_violation_found(streams: Seq<Stream>, config: Config, from: int, i: int)
    requires
        0 <= from <= i < streams.len(),
        streams[i].kind_of() == StreamKind::Video,
        !stream_within_profile(streams[i], config),
    ensures
        first_video_violation(streams, config.video_targets, from).is_some(),
    decreases i - from,
{
    if from < i {
        lemma_video_violation_found(streams, config, from + 1, i);
    }
}

proof fn lemma_audio_violation_found(streams: Seq<Stream>, config: Config, from: int, i: int)
    requires
        0 <= from <= i < streams.len(),
        streams[i].kind_of() != StreamKind::Video,
        !stream_within_profile(streams[i], config),
    ensures
        first_audio_violation(streams, config.audio_targets.codec@, from).is_some(),
    decreases i - from,
{
    if from < i {
        lemma_audio_violation_found(streams, config, from + 1, i);
    }
}

} // verus!
