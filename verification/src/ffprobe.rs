//! Calling the inspector: its arguments and what is made of its answer.

use vstd::prelude::*;
use crate::text::texts;
use crate::tokens::push_text;

verus! {

/// The inspector's arguments for the file at `path`: quiet, the container and
/// the streams with their tags, as JSON.
pub open spec fn probe_tokens(path: Seq<char>) -> Seq<Seq<char>> {
    seq![
        "-v"@,
        "quiet"@,
        "-show_format"@,
        "-show_streams"@,
        "-show_entries"@,
        "stream_tags:format_tags"@,
        "-print_format"@,
        "json"@,
        path,
    ]
}

/// Composes the inspector's arguments for the file at `path`.
pub fn probe_arguments(path: &str) -> (arguments: Vec<String>)
    ensures
        texts(arguments@) == probe_tokens(path@),
{
    let mut arguments: Vec<String> = Vec::new();
    push_text(&mut arguments, "-v");
    push_text(&mut arguments, "quiet");
    push_text(&mut arguments, "-show_format");
    push_text(&mut arguments, "-show_streams");
    push_text(&mut arguments, "-show_entries");
    push_text(&mut arguments, "stream_tags:format_tags");
    push_text(&mut arguments, "-print_format");
    push_text(&mut arguments, "json");
    push_text(&mut arguments, path);
    assert(texts(arguments@) =~= probe_tokens(path@));
    arguments
}

/// What the inspector's run yields: its report where it succeeded, its
/// diagnostics as the error where it did not.
pub fn probe_outcome(success: bool, report: String, diagnostics: String) -> (outcome: Result<
    String,
    String,
>)
    ensures
        outcome == (if success {
            Ok::<String, String>(report)
        } else {
            Err::<String, String>(diagnostics)
        }),
{
    if success {
        Ok(report)
    } else {
        Err(diagnostics)
    }
}

/// The message for a report that could not be read.
pub open spec fn parse_failure_text(error: Seq<char>, report: Seq<char>) -> Seq<char> {
    "Error parsing ffprobe output: "@ + error + "\nOutput: "@ + report
}

/// Writes the message for a report that could not be read.
pub fn parse_failure_message(error: &str, report: &str) -> (text: String)
    ensures
        text@ == parse_failure_text(error@, report@),
{
    let mut text = "Error parsing ffprobe output: ".to_owned();
    text.append(error);
    text.append("\nOutput: ");
    text.append(report);
    text
}

} // verus!
