//! Which stream of a group is the default one in the output.
//!
//! Audio streams form one group and subtitle streams another. In each group
//! at most one stream is the default after transcoding. A stream in the
//! profile's default language is preferred; failing that, the first stream
//! that the container already flags keeps its flag. Every other flagged
//! stream has its flag cleared.

use vstd::prelude::*;
use crate::models::media::{Stream, StreamKind};
use crate::text::same_text;

verus! {

/// What is done to one stream's default flag.
#[derive(Debug, Clone, Copy, PartialEq, Eq, Structural)]
pub enum DefaultMark {
    /// The flag is left as the container has it.
    Keep,
    /// The flag is set.
    Raise,
    /// The flag is cleared.
    Clear,
}

/// The first stream of `kind` at or after position `from` that the container
/// flags as default.
pub open spec fn first_flagged(streams: Seq<Stream>, kind: StreamKind, from: int) -> Option<usize>
    decreases streams.len() - from,
{
    if from < 0 || from >= streams.len() {
        None
    } else if streams[from].kind_of() == kind && streams[from].flagged_default() {
        Some(from as usize)
    } else {
        first_flagged(streams, kind, from + 1)
    }
}

/// The first stream of `kind` at or after position `from` whose language is
/// `language`.
pub open spec fn first_in_language(
    streams: Seq<Stream>,
    kind: StreamKind,
    language: Seq<char>,
    from: int,
) -> Option<usize>
    decreases streams.len() - from,
{
    if from < 0 || from >= streams.len() {
        None
    } else if streams[from].kind_of() == kind && streams[from].tags.language@ == language {
        Some(from as usize)
    } else {
        first_in_language(streams, kind, language, from + 1)
    }
}

/// The stream of `kind` that is the default in the output, by position.
///
/// With a default language that some stream of the group carries, it is the
/// first flagged stream if that one carries the language, and else the first
/// stream that does. Without a default language, or where no stream carries
/// it, it is the first flagged stream. A group without any of these has no
/// default.
pub open spec fn default_choice(streams: Seq<Stream>, kind: StreamKind, language: Seq<char>) -> Option<
    usize,
> {
    let flagged = first_flagged(streams, kind, 0);
    let spoken = first_in_language(streams, kind, language, 0);
    if language.len() == 0 {
        flagged
    } else if flagged.is_some() && streams[flagged.unwrap() as int].tags.language@ == language {
        flagged
    } else if spoken.is_some() {
        spoken
    } else {
        flagged
    }
}

/// What is done to the flag of the stream at `pos`: the chosen stream gets
/// the flag unless it has it, any other stream loses it if it has it.
pub open spec fn default_mark(s: Stream, pos: usize, choice: Option<usize>) -> DefaultMark {
    if choice == Some(pos) {
        if s.flagged_default() {
            DefaultMark::Keep
        } else {
            DefaultMark::Raise
        }
    } else if s.flagged_default() {
        DefaultMark::Clear
    } else {
        DefaultMark::Keep
    }
}

/// Whether the stream at `pos` is flagged as default in the output.
pub open spec fn ends_default(s: Stream, pos: usize, choice: Option<usize>) -> bool {
    match default_mark(s, pos, choice) {
        DefaultMark::Keep => s.flagged_default(),
        DefaultMark::Raise => true,
        DefaultMark::Clear => false,
    }
}

/// Finds the first stream of `kind` that the container flags as default.
pub fn find_flagged(streams: &Vec<Stream>, kind: StreamKind) -> (found: Option<usize>)
    ensures
        found == first_flagged(streams@, kind, 0),
{
    let mut i: usize = 0;
    while i < streams.len()
        invariant
            i <= streams.len(),
            first_flagged(streams@, kind, 0) == first_flagged(streams@, kind, i as int),
        decreases streams.len() - i,
    {
        if streams[i].kind() == kind && streams[i].disposition.default == 1 {
            return Some(i);
        }
        i = i + 1;
    }
    None
}

/// Finds the first stream of `kind` whose language is `language`.
pub fn find_in_language(streams: &Vec<Stream>, kind: StreamKind, language: &str) -> (found: Option<
    usize,
>)
    ensures
        found == first_in_language(streams@, kind, language@, 0),
{
    let mut i: usize = 0;
    while i < streams.len()
        invariant
            i <= streams.len(),
            first_in_language(streams@, kind, language@, 0) == first_in_language(
                streams@,
                kind,
                language@,
                i as int,
            ),
        decreases streams.len() - i,
    {
        if streams[i].kind() == kind && same_text(streams[i].tags.language.as_str(), language) {
            return Some(i);
        }
        i = i + 1;
    }
    None
}

proof fn lemma_flagged_in_range(streams: Seq<Stream>, kind: StreamKind, from: int)
    requires
        0 <= from,
        streams.len() <= usize::MAX,
    ensures
        first_flagged(streams, kind, from).is_some() ==> {
            &&& from <= first_flagged(streams, kind, from).unwrap() < streams.len()
            &&& streams[first_flagged(streams, kind, from).unwrap() as int].kind_of() == kind
            &&& streams[first_flagged(streams, kind, from).unwrap() as int].flagged_default()
        },
    decreases streams.len() - from,
{
    if from < streams.len() {
        lemma_flagged_in_range(streams, kind, from + 1);
    }
}

proof fn lemma_spoken_in_range(streams: Seq<Stream>, kind: StreamKind, language: Seq<char>, from: int)
    requires
        0 <= from,
        streams.len() <= usize::MAX,
    ensures
        first_in_language(streams, kind, language, from).is_some() ==> {
            &&& from <= first_in_language(streams, kind, language, from).unwrap() < streams.len()
            &&& streams[first_in_language(streams, kind, language, from).unwrap() as int].kind_of()
                == kind
            &&& streams[first_in_language(
                streams,
                kind,
                language,
                from,
            ).unwrap() as int].tags.language@ == language
        },
    decreases streams.len() - from,
{
    if from < streams.len() {
        lemma_spoken_in_range(streams, kind, language, from + 1);
    }
}

proof fn lemma_spoken_found(
    streams: Seq<Stream>,
    kind: StreamKind,
    language: Seq<char>,
    from: int,
    i: int,
)
    requires
        0 <= from <= i < streams.len(),
        streams[i].kind_of() == kind,
        streams[i].tags.language@ == language,
    ensures
        first_in_language(streams, kind, language, from).is_some(),
    decreases i - from,
{
    if from < i {
        lemma_spoken_found(streams, kind, language, from + 1, i);
    }
}

proof fn lemma_flagged_found(streams: Seq<Stream>, kind: StreamKind, from: int, i: int)
    requires
        0 <= from <= i < streams.len(),
        streams[i].kind_of() == kind,
        streams[i].flagged_default(),
    ensures
        first_flagged(streams, kind, from).is_some(),
    decreases i - from,
{
    if from < i {
        lemma_flagged_found(streams, kind, from + 1, i);
    }
}

/// Picks the stream of `kind` that is the default in the output.
pub fn choose_default(streams: &Vec<Stream>, kind: StreamKind, language: &str) -> (choice: Option<
    usize,
>)
    ensures
        choice == default_choice(streams@, kind, language@),
        choice.is_some() ==> choice.unwrap() < streams@.len(),
{
    let count = streams.len();
    proof {
        assert(streams@.len() == count);
        lemma_flagged_in_range(streams@, kind, 0);
        lemma_spoken_in_range(streams@, kind, language@, 0);
    }
    let flagged = find_flagged(streams, kind);
    if language.is_empty() {
        return flagged;
    }
    if let Some(i) = flagged {
        if same_text(streams[i].tags.language.as_str(), language) {
            return flagged;
        }
    }
    let spoken = find_in_language(streams, kind, language);
    if spoken.is_some() {
        spoken
    } else {
        flagged
    }
}

/// Decides what is done to the flag of the stream at `pos`.
pub fn mark_for(s: &Stream, pos: usize, choice: Option<usize>) -> (mark: DefaultMark)
    ensures
        mark == default_mark(*s, pos, choice),
{
    let chosen = match choice {
        Some(c) => c == pos,
        None => false,
    };
    let flagged = s.disposition.default == 1;
    if chosen {
        if flagged {
            DefaultMark::Keep
        } else {
            DefaultMark::Raise
        }
    } else if flagged {
        DefaultMark::Clear
    } else {
        DefaultMark::Keep
    }
}

/// Of any two streams, at most one is flagged as default in the output, and
/// at most one has the flag set for it, whatever the container flagged and
/// whatever language the profile names.
pub proof fn lemma_at_most_one_default(
    streams: Seq<Stream>,
    kind: StreamKind,
    language: Seq<char>,
    i: usize,
    j: usize,
)
    requires
        i < streams.len(),
        j < streams.len(),
        i != j,
    ensures
        !(ends_default(streams[i as int], i, default_choice(streams, kind, language))
            && ends_default(streams[j as int], j, default_choice(streams, kind, language))),
        !(default_mark(streams[i as int], i, default_choice(streams, kind, language))
            == DefaultMark::Raise && default_mark(
            streams[j as int],
            j,
            default_choice(streams, kind, language),
        ) == DefaultMark::Raise),
{
}

/// The chosen stream belongs to the group. Where the profile names a default
/// language that some stream of the group carries, the chosen stream carries
/// it; and the group has a default whenever one of its streams is flagged or
/// carries that language.
pub proof fn lemma_default_choice_sound(
    streams: Seq<Stream>,
    kind: StreamKind,
    language: Seq<char>,
    i: int,
)
    requires
        streams.len() <= usize::MAX,
        0 <= i < streams.len(),
        streams[i].kind_of() == kind,
    ensures
        default_choice(streams, kind, language).is_some() ==> {
            &&& default_choice(streams, kind, language).unwrap() < streams.len()
            &&& streams[default_choice(streams, kind, language).unwrap() as int].kind_of() == kind
        },
        language.len() != 0 && streams[i].tags.language@ == language ==> {
            &&& default_choice(streams, kind, language).is_some()
            &&& streams[default_choice(streams, kind, language).unwrap() as int].tags.language@
                == language
        },
        streams[i].flagged_default() ==> default_choice(streams, kind, language).is_some(),
{
    lemma_flagged_in_range(streams, kind, 0);
    lemma_spoken_in_range(streams, kind, language, 0);
    if streams[i].tags.language@ == language {
        lemma_spoken_found(streams, kind, language, 0, i);
    }
    if streams[i].flagged_default() {
        lemma_flagged_found(streams, kind, 0, i);
    }
}

} // verus!
