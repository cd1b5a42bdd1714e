//! Padding a picture to the target frame without changing its proportions.
//!
//! A picture that is larger than the profile allows on either axis gets a
//! frame of exactly the profile's largest width and height. Nothing is cropped
//! or scaled here: the picture is only moved inside the frame, vertically
//! where it is wider in proportion than the frame, horizontally otherwise.

use vstd::prelude::*;
use crate::models::config::VideoTargets;
use crate::models::media::Stream;
use crate::text::{decimal_text, push_decimal, texts};
use crate::tokens::push_text;

verus! {

/// A padding that brings a picture to the target frame: the frame's width and
/// height, and where the picture's top left corner comes to lie in it.
#[derive(Debug, Clone, Copy, PartialEq, Eq, Structural)]
pub struct Pad {
    pub width: u32,
    pub height: u32,
    pub x: u32,
    pub y: u32,
}

/// Whether padding is called for: the stream reports both dimensions, the
/// profile limits at least one, and the stream is larger than one of the
/// two limits.
pub open spec fn pad_triggered(s: Stream, t: VideoTargets) -> bool {
    &&& s.width.is_some()
    &&& s.height.is_some()
    &&& (t.max_width != 0 || t.max_height != 0)
    &&& (s.width.unwrap() > t.max_width || s.height.unwrap() > t.max_height)
}

/// Whether a picture of `width` by `height` is wider in proportion than a
/// frame of `max_width` by `max_height`.
pub open spec fn wider_than(width: u32, height: u32, max_width: u32, max_height: u32) -> bool {
    width * max_height > max_width * height
}

/// What is missing from `actual` to reach `max`; nothing where `actual` is
/// already the larger.
pub open spec fn shortfall(max: u32, actual: u32) -> u32 {
    if max > actual {
        (max - actual) as u32
    } else {
        0
    }
}

/// The padding for a stream. The frame is always the profile's largest width
/// and height. A picture that is wider in proportion is centred vertically,
/// any other horizontally, by half the shortfall, rounded down.
pub open spec fn pad_for(s: Stream, t: VideoTargets) -> Option<Pad> {
    if !pad_triggered(s, t) {
        None
    } else if wider_than(s.width.unwrap(), s.height.unwrap(), t.max_width, t.max_height) {
        Some(
            Pad {
                width: t.max_width,
                height: t.max_height,
                x: 0,
                y: shortfall(t.max_height, s.height.unwrap()) / 2,
            },
        )
    } else {
        Some(
            Pad {
                width: t.max_width,
                height: t.max_height,
                x: shortfall(t.max_width, s.width.unwrap()) / 2,
                y: 0,
            },
        )
    }
}

/// Computes the padding for a stream, if one is called for.
pub fn aspect_ratio_padding(s: &Stream, t: &VideoTargets) -> (pad: Option<Pad>)
    ensures
        pad == pad_for(*s, *t),
{
    let (width, height) = match (s.width, s.height) {
        (Some(w), Some(h)) => (w, h),
        _ => { return None; },
    };
    if t.max_width == 0 && t.max_height == 0 {
        return None;
    }
    if width <= t.max_width && height <= t.max_height {
        return None;
    }
    assert(width * t.max_height <= 0xFFFF_FFFF * 0xFFFF_FFFF) by (nonlinear_arith)
        requires
            width <= 0xFFFF_FFFF,
            t.max_height <= 0xFFFF_FFFF,
    ;
    assert(t.max_width * height <= 0xFFFF_FFFF * 0xFFFF_FFFF) by (nonlinear_arith)
        requires
            height <= 0xFFFF_FFFF,
            t.max_width <= 0xFFFF_FFFF,
    ;
    let left: u64 = width as u64 * t.max_height as u64;
    let right: u64 = t.max_width as u64 * height as u64;
    if left > right {
        Some(
            Pad {
                width: t.max_width,
                height: t.max_height,
                x: 0,
                y: t.max_height.saturating_sub(height) / 2,
            },
        )
    } else {
        Some(
            Pad {
                width: t.max_width,
                height: t.max_height,
                x: t.max_width.saturating_sub(width) / 2,
                y: 0,
            },
        )
    }
}

/// How a padding reads as a filter.
pub open spec fn pad_text(p: Pad) -> Seq<char> {
    "pad="@ + decimal_text(p.width as nat) + ":"@ + decimal_text(p.height as nat) + ":"@
        + decimal_text(p.x as nat) + ":"@ + decimal_text(p.y as nat)
}

/// The padding filter for a stream: one filter, or none where no padding is
/// called for.
pub open spec fn pad_filters(s: Stream, t: VideoTargets) -> Seq<Seq<char>> {
    match pad_for(s, t) {
        Some(p) => seq![pad_text(p)],
        None => Seq::empty(),
    }
}

/// Appends the padding filter for `stream` to `filters`, where padding is
/// called for.
pub fn apply_aspect_ratio_corrections(stream: &Stream, t: &VideoTargets, filters: &mut Vec<String>)
    ensures
        texts(final(filters)@) == texts(old(filters)@) + pad_filters(*stream, *t),
{
    match aspect_ratio_padding(stream, t) {
        Some(p) => {
            let mut name = "pad=".to_owned();
            push_decimal(&mut name, p.width);
            name.append(":");
            push_decimal(&mut name, p.height);
            name.append(":");
            push_decimal(&mut name, p.x);
            name.append(":");
            push_decimal(&mut name, p.y);
            push_text(filters, name.as_str());
            assert(texts(filters@) =~= texts(old(filters)@) + pad_filters(*stream, *t));
        },
        None => {
            assert(texts(filters@) =~= texts(old(filters)@) + pad_filters(*stream, *t));
        },
    }
}

/// A stream that is exactly as wide and as high as the profile's limits gets
/// no padding.
pub proof fn lemma_exact_fit_needs_no_pad(s: Stream, t: VideoTargets)
    requires
        s.width == Some(t.max_width),
        s.height == Some(t.max_height),
    ensures
        pad_for(s, t).is_none(),
        pad_filters(s, t) == Seq::<Seq<char>>::empty(),
{
}

/// Whenever a stream is padded, the padded frame is exactly the profile's
/// largest width by its largest height, and the picture is moved on one axis
/// only, by half of what it lacks there, rounded down.
pub proof fn lemma_pad_frame_is_target(s: Stream, t: VideoTargets)
    requires
        pad_for(s, t).is_some(),
    ensures
        pad_for(s, t).unwrap().width == t.max_width,
        pad_for(s, t).unwrap().height == t.max_height,
        pad_for(s, t).unwrap().x == 0 || pad_for(s, t).unwrap().y == 0,
        s.width.unwrap() <= t.max_width ==> pad_for(s, t).unwrap().x == 0 || pad_for(
            s,
            t,
        ).unwrap().x == (t.max_width - s.width.unwrap()) / 2,
        s.height.unwrap() <= t.max_height ==> pad_for(s, t).unwrap().y == 0 || pad_for(
            s,
            t,
        ).unwrap().y == (t.max_height - s.height.unwrap()) / 2,
        pad_filters(s, t) == seq![
            "pad="@ + decimal_text(t.max_width as nat) + ":"@ + decimal_text(t.max_height as nat)
                + ":"@ + decimal_text(pad_for(s, t).unwrap().x as nat) + ":"@ + decimal_text(
                pad_for(s, t).unwrap().y as nat,
            ),
        ],
{
}

} // verus!
