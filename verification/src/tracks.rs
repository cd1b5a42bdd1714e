//! The options for the audio and subtitle streams of a file.

use vstd::prelude::*;
use crate::compliance::codec_allowed;
use crate::disposition::{default_mark, mark_for, DefaultMark};
use crate::models::config::{AudioTargets, Subtitles};
use crate::models::media::{Stream, StreamKind};
use crate::text::{decimal_string, decimal_text, list_contains, push_decimal, texts};
use crate::tokens::{flag, lemma_concat_assoc, push_codec_override, push_flag_if};

verus! {

/// Whether a stream is left out for its language: the profile lists
/// languages, the stream names one, and it is not among those listed.
pub open spec fn language_excluded(allowed: Seq<String>, language: Seq<char>) -> bool {
    allowed.len() != 0 && language.len() != 0 && !texts(allowed).contains(language)
}

/// Tells whether a stream is left out for its language.
pub fn is_language_excluded(allowed: &Vec<String>, language: &str) -> (excluded: bool)
    ensures
        excluded == language_excluded(allowed@, language@),
{
    allowed.len() != 0 && !language.is_empty() && !list_contains(allowed, language)
}

/// Tells whether `rate` occurs in `rates`.
pub fn rates_contain(rates: &Vec<u32>, rate: u32) -> (found: bool)
    ensures
        found == rates@.contains(rate),
{
    let mut i: usize = 0;
    while i < rates.len()
        invariant
            i <= rates.len(),
            forall|j: int| 0 <= j < i ==> rates@[j] != rate,
        decreases rates.len() - i,
    {
        if rates[i] == rate {
            assert(rates@[i as int] == rate);
            return true;
        }
        i = i + 1;
    }
    false
}

/// The value that a change of the default flag is written with.
pub open spec fn mark_value(mark: DefaultMark) -> Seq<char> {
    match mark {
        DefaultMark::Raise => "default"@,
        _ => "0"@,
    }
}

/// The tokens for a change of the default flag: the option `name` with
/// `default` to set the flag or `0` to clear it, and nothing to keep it.
pub open spec fn mark_tokens(name: Seq<char>, mark: DefaultMark) -> Seq<Seq<char>> {
    flag(mark != DefaultMark::Keep, name, mark_value(mark))
}

fn push_mark(command: &mut Vec<String>, name: &str, mark: DefaultMark)
    ensures
        texts(final(command)@) == texts(old(command)@) + mark_tokens(name@, mark),
{
    match mark {
        DefaultMark::Raise => push_flag_if(command, true, name, "default"),
        DefaultMark::Clear => push_flag_if(command, true, name, "0"),
        DefaultMark::Keep => push_flag_if(command, false, name, "0"),
    }
}

fn indexed_name(prefix: &str, index: u32) -> (name: String)
    ensures
        name@ == prefix@ + decimal_text(index as nat),
{
    let mut name = prefix.to_owned();
    push_decimal(&mut name, index);
    name
}

/// Whether the sample rate of `s` is replaced: the profile lists rates and
/// the stream's is not among them.
pub open spec fn rate_overridden(s: Stream, t: AudioTargets) -> bool {
    t.sample_rate@.len() != 0 && !t.sample_rate@.contains(s.sample_rate)
}

/// Whether the channel count of `s` is replaced: the profile names a count
/// and the stream does not report that very count.
pub open spec fn channels_overridden(s: Stream, t: AudioTargets) -> bool {
    t.channels != 0 && s.channels != Some(t.channels)
}

/// The options for the audio stream `s` at position `pos`, in their fixed
/// order: the first allowed codec where the stream's own is not allowed, the
/// first listed sample rate where the stream's own is not listed, the
/// profile's channel count where the stream's differs, the stream's removal
/// where its language is left out, and the change of its default flag. Each
/// option names the stream by its source index.
pub open spec fn audio_stream_tokens(s: Stream, pos: usize, t: AudioTargets, choice: Option<usize>) -> Seq<
    Seq<char>,
> {
    flag(
        !codec_allowed(t.codec@, s.codec_name@),
        "-c:a:"@ + decimal_text(s.index as nat),
        t.codec@[0]@,
    ) + flag(
        rate_overridden(s, t),
        "-ar:"@ + decimal_text(s.index as nat),
        decimal_text(t.sample_rate@[0] as nat),
    ) + flag(
        channels_overridden(s, t),
        "-ac:"@ + decimal_text(s.index as nat),
        decimal_text(t.channels as nat),
    ) + flag(
        language_excluded(t.language@, s.tags.language@),
        "-map"@,
        "-0:"@ + decimal_text(s.index as nat),
    ) + mark_tokens("-disposition:a:"@ + decimal_text(s.index as nat), default_mark(s, pos, choice))
}

/// Appends the options for the audio stream `stream` at position `pos` to
/// `command`; `choice` is the group's default stream.
pub fn apply_audio_arguments(
    stream: &Stream,
    pos: usize,
    t: &AudioTargets,
    choice: Option<usize>,
    command: &mut Vec<String>,
)
    ensures
        texts(final(command)@) == texts(old(command)@) + audio_stream_tokens(
            *stream,
            pos,
            *t,
            choice,
        ),
{
    let new_rate = t.sample_rate.len() != 0 && !rates_contain(&t.sample_rate, stream.sample_rate);
    let rate_value = if new_rate {
        decimal_string(t.sample_rate[0])
    } else {
        String::new()
    };
    let new_channels = t.channels != 0 && match stream.channels {
        Some(c) => c != t.channels,
        None => true,
    };
    let excluded = is_language_excluded(&t.language, stream.tags.language.as_str());
    let codec_name = indexed_name("-c:a:", stream.index);
    let rate_name = indexed_name("-ar:", stream.index);
    let channel_name = indexed_name("-ac:", stream.index);
    let map_value = indexed_name("-0:", stream.index);
    let flag_name = indexed_name("-disposition:a:", stream.index);

    let ghost start = texts(command@);
    let ghost codec = flag(!codec_allowed(t.codec@, stream.codec_name@), codec_name@, t.codec@[0]@);
    let ghost rate = flag(new_rate, rate_name@, rate_value@);
    let ghost channels = flag(new_channels, channel_name@, decimal_text(t.channels as nat));
    let ghost removal = flag(excluded, "-map"@, map_value@);
    let ghost mark = mark_tokens(flag_name@, default_mark(*stream, pos, choice));

    push_codec_override(command, codec_name.as_str(), &t.codec, stream.codec_name.as_str());
    push_flag_if(command, new_rate, rate_name.as_str(), rate_value.as_str());
    push_flag_if(command, new_channels, channel_name.as_str(), decimal_string(t.channels).as_str());
    push_flag_if(command, excluded, "-map", map_value.as_str());
    push_mark(command, flag_name.as_str(), mark_for(stream, pos, choice));
    proof {
        lemma_concat_assoc(start, codec, rate);
        lemma_concat_assoc(start, codec + rate, channels);
        lemma_concat_assoc(start, codec + rate + channels, removal);
        lemma_concat_assoc(start, codec + rate + channels + removal, mark);
        assert(rate == flag(
            rate_overridden(*stream, *t),
            rate_name@,
            decimal_text(t.sample_rate@[0] as nat),
        ));
    }
}

/// The options for the subtitle stream `s` at position `pos`: the stream's
/// removal where its language is left out, then the change of its default
/// flag. Each option names the stream by its source index.
pub open spec fn subtitle_stream_tokens(s: Stream, pos: usize, t: Subtitles, choice: Option<usize>) -> Seq<
    Seq<char>,
> {
    flag(
        language_excluded(t.language@, s.tags.language@),
        "-map"@,
        "-0:s:"@ + decimal_text(s.index as nat) + "?"@,
    ) + mark_tokens("-disposition:s:"@ + decimal_text(s.index as nat), default_mark(s, pos, choice))
}

/// Appends the options for the subtitle stream `stream` at position `pos` to
/// `command`; `choice` is the group's default stream.
pub fn apply_subtitle_arguments(
    stream: &Stream,
    pos: usize,
    t: &Subtitles,
    choice: Option<usize>,
    command: &mut Vec<String>,
)
    ensures
        texts(final(command)@) == texts(old(command)@) + subtitle_stream_tokens(
            *stream,
            pos,
            *t,
            choice,
        ),
{
    let ghost start = texts(command@);
    let excluded = is_language_excluded(&t.language, stream.tags.language.as_str());
    let mut map_value = indexed_name("-0:s:", stream.index);
    map_value.append("?");
    push_flag_if(command, excluded, "-map", map_value.as_str());
    let ghost f1 = flag(
        language_excluded(t.language@, stream.tags.language@),
        "-map"@,
        "-0:s:"@ + decimal_text(stream.index as nat) + "?"@,
    );
    let flag_name = indexed_name("-disposition:s:", stream.index);
    push_mark(command, flag_name.as_str(), mark_for(stream, pos, choice));
    proof {
        lemma_concat_assoc(
            start,
            f1,
            mark_tokens(
                "-disposition:s:"@ + decimal_text(stream.index as nat),
                default_mark(*stream, pos, choice),
            ),
        );
    }
}

/// The options for the audio streams among the first `upto` streams, stream
/// by stream in source order.
pub open spec fn audio_tokens(streams: Seq<Stream>, t: AudioTargets, choice: Option<usize>, upto: int) -> Seq<
    Seq<char>,
>
    decreases upto,
{
    if upto <= 0 {
        Seq::empty()
    } else if streams[upto - 1].kind_of() == StreamKind::Audio {
        audio_tokens(streams, t, choice, upto - 1) + audio_stream_tokens(
            streams[upto - 1],
            (upto - 1) as usize,
            t,
            choice,
        )
    } else {
        audio_tokens(streams, t, choice, upto - 1)
    }
}

/// The options for the subtitle streams among the first `upto` streams,
/// stream by stream in source order.
pub open spec fn subtitle_tokens(streams: Seq<Stream>, t: Subtitles, choice: Option<usize>, upto: int) -> Seq<
    Seq<char>,
>
    decreases upto,
{
    if upto <= 0 {
        Seq::empty()
    } else if streams[upto - 1].kind_of() == StreamKind::Subtitle {
        subtitle_tokens(streams, t, choice, upto - 1) + subtitle_stream_tokens(
            streams[upto - 1],
            (upto - 1) as usize,
            t,
            choice,
        )
    } else {
        subtitle_tokens(streams, t, choice, upto - 1)
    }
}

/// Appends the options for every audio stream to `command`, in source order.
pub fn apply_audio_group(
    streams: &Vec<Stream>,
    t: &AudioTargets,
    choice: Option<usize>,
    command: &mut Vec<String>,
)
    ensures
        texts(final(command)@) == texts(old(command)@) + audio_tokens(
            streams@,
            *t,
            choice,
            streams@.len() as int,
        ),
{
    let ghost start = texts(command@);
    assert(texts(command@) =~= start + audio_tokens(streams@, *t, choice, 0));
    let mut i: usize = 0;
    while i < streams.len()
        invariant
            i <= streams.len(),
            texts(command@) == start + audio_tokens(streams@, *t, choice, i as int),
        decreases streams.len() - i,
    {
        if streams[i].kind() == StreamKind::Audio {
            apply_audio_arguments(&streams[i], i, t, choice, command);
            proof {
                lemma_concat_assoc(
                    start,
                    audio_tokens(streams@, *t, choice, i as int),
                    audio_stream_tokens(streams@[i as int], i, *t, choice),
                );
            }
        }
        i = i + 1;
    }
}

/// Appends the options for every subtitle stream to `command`, in source
/// order.
pub fn apply_subtitle_group(
    streams: &Vec<Stream>,
    t: &Subtitles,
    choice: Option<usize>,
    command: &mut Vec<String>,
)
    ensures
        texts(final(command)@) == texts(old(command)@) + subtitle_tokens(
            streams@,
            *t,
            choice,
            streams@.len() as int,
        ),
{
    let ghost start = texts(command@);
    assert(texts(command@) =~= start + subtitle_tokens(streams@, *t, choice, 0));
    let mut i: usize = 0;
    while i < streams.len()
        invariant
            i <= streams.len(),
            texts(command@) == start + subtitle_tokens(streams@, *t, choice, i as int),
        decreases streams.len() - i,
    {
        if streams[i].kind() == StreamKind::Subtitle {
            apply_subtitle_arguments(&streams[i], i, t, choice, command);
            proof {
                lemma_concat_assoc(
                    start,
                    subtitle_tokens(streams@, *t, choice, i as int),
                    subtitle_stream_tokens(streams@[i as int], i, *t, choice),
                );
            }
        }
        i = i + 1;
    }
}

} // verus!
