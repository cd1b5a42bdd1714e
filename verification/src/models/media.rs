//! Container and stream metadata as the probe reports it.

use vstd::prelude::*;
use crate::text::same_text;

verus! {

/// A frame rate as the ratio of two whole numbers.
///
/// A zero denominator stands for no finite rate: with a zero numerator the
/// rate is undefined and exceeds nothing, with any other numerator it is
/// unbounded and exceeds every limit.
#[derive(Debug, Clone, Copy, PartialEq, Eq)]
pub struct FrameRate {
    pub numerator: u32,
    pub denominator: u32,
}

impl FrameRate {
    /// Whether the rate lies strictly above `limit_milli` thousandths of a
    /// frame per second.
    pub open spec fn above_milli(self, limit_milli: u32) -> bool {
        self.numerator * 1000 > limit_milli * self.denominator
    }

    /// Tells whether the rate lies strictly above `limit_milli` thousandths of
    /// a frame per second.
    pub fn exceeds_milli(&self, limit_milli: u32) -> (above: bool)
        ensures
            above == self.above_milli(limit_milli),
    {
        assert(limit_milli * self.denominator <= 0xFFFF_FFFF * 0xFFFF_FFFF) by (nonlinear_arith)
            requires
                limit_milli <= 0xFFFF_FFFF,
                self.denominator <= 0xFFFF_FFFF,
        ;
        let left: u64 = self.numerator as u64 * 1000;
        let right: u64 = limit_milli as u64 * self.denominator as u64;
        left > right
    }
}

impl Default for FrameRate {
    /// The rate of a stream that reports none: zero frames per second.
    fn default() -> (rate: FrameRate)
        ensures
            rate == (FrameRate { numerator: 0, denominator: 1 }),
    {
        FrameRate { numerator: 0, denominator: 1 }
    }
}

/// The kinds of stream that the planning tells apart.
#[derive(Debug, Clone, Copy, PartialEq, Eq, Structural)]
pub enum StreamKind {
    Video,
    Audio,
    Subtitle,
    Other,
}

/// The whole report on one file.
#[derive(Debug, Default, Clone)]
pub struct FFProbeOutput {
    /// The streams in source order.
    pub streams: Vec<Stream>,
    pub format: Format,
}

/// One stream of a file.
#[derive(Debug, Default, Clone)]
pub struct Stream {
    pub index: u32,
    pub codec_name: String,
    pub codec_long_name: String,
    pub profile: Option<String>,
    pub codec_type: String,
    pub codec_tag_string: String,
    pub codec_tag: String,
    pub width: Option<u32>,
    pub height: Option<u32>,
    pub coded_width: Option<u32>,
    pub coded_height: Option<u32>,
    pub closed_captions: Option<u32>,
    pub film_grain: Option<u32>,
    pub has_b_frames: Option<u32>,
    pub sample_aspect_ratio: Option<String>,
    pub display_aspect_ratio: Option<String>,
    pub pix_fmt: Option<String>,
    pub level: Option<i32>,
    pub color_range: Option<String>,
    pub color_space: Option<String>,
    pub color_transfer: Option<String>,
    pub color_primaries: Option<String>,
    pub chroma_location: Option<String>,
    pub field_order: Option<String>,
    pub refs: Option<u32>,
    pub is_avc: Option<String>,
    pub nal_length_size: Option<String>,
    pub sample_fmt: Option<String>,
    /// Samples per second; zero where the stream reports none.
    pub sample_rate: u32,
    pub channels: Option<u32>,
    pub channel_layout: Option<String>,
    pub bits_per_sample: Option<u32>,
    pub initial_padding: Option<u32>,
    pub id: String,
    pub r_frame_rate: FrameRate,
    pub avg_frame_rate: FrameRate,
    pub time_base: String,
    pub start_pts: i64,
    pub start_time: String,
    pub duration_ts: u64,
    pub duration: String,
    /// Bits per second; zero where the stream reports none.
    pub bit_rate: u32,
    pub bits_per_raw_sample: Option<String>,
    pub nb_frames: Option<String>,
    pub extradata_size: u32,
    pub disposition: Disposition,
    pub tags: Tags,
}

impl Stream {
    /// The kind that the stream's type name stands for.
    pub open spec fn kind_of(self) -> StreamKind {
        if self.codec_type@ == "video"@ {
            StreamKind::Video
        } else if self.codec_type@ == "audio"@ {
            StreamKind::Audio
        } else if self.codec_type@ == "subtitle"@ {
            StreamKind::Subtitle
        } else {
            StreamKind::Other
        }
    }

    /// Whether the container flags the stream as its group's default.
    pub open spec fn flagged_default(self) -> bool {
        self.disposition.default == 1
    }

    /// Tells the stream's kind from its type name.
    pub fn kind(&self) -> (kind: StreamKind)
        ensures
            kind == self.kind_of(),
    {
        if same_text(self.codec_type.as_str(), "video") {
            StreamKind::Video
        } else if same_text(self.codec_type.as_str(), "audio") {
            StreamKind::Audio
        } else if same_text(self.codec_type.as_str(), "subtitle") {
            StreamKind::Subtitle
        } else {
            StreamKind::Other
        }
    }
}

/// The flags that a container sets on a stream, each zero or one.
#[derive(Debug, Default, Clone)]
pub struct Disposition {
    pub default: u32,
    pub dub: u32,
    pub original: u32,
    pub comment: u32,
    pub lyrics: u32,
    pub karaoke: u32,
    pub forced: u32,
    pub hearing_impaired: u32,
    pub visual_impaired: u32,
    pub clean_effects: u32,
    pub attached_pic: u32,
    pub timed_thumbnails: u32,
    pub non_diegetic: u32,
    pub captions: u32,
    pub descriptions: u32,
    pub metadata: u32,
    pub dependent: u32,
    pub still_image: u32,
}

/// The tags of a stream; an empty text is a tag that is not set.
#[derive(Debug, Default, Clone)]
pub struct Tags {
    pub language: String,
    pub handler_name: String,
    pub vendor_id: String,
    pub encoder: Option<String>,
}

/// The container-level part of a report.
#[derive(Debug, Default, Clone)]
pub struct Format {
    pub filename: String,
    pub nb_streams: u32,
    pub nb_programs: u32,
    pub format_name: String,
    pub format_long_name: String,
    pub start_time: String,
    pub duration: String,
    pub size: String,
    pub bit_rate: String,
    pub probe_score: u32,
    pub tags: FormatTags,
}

/// The tags of a container; an empty text is a tag that is not set.
#[derive(Debug, Default, Clone)]
pub struct FormatTags {
    pub major_brand: String,
    pub minor_version: String,
    pub compatible_brands: String,
    pub encoder: String,
}

} // verus!
