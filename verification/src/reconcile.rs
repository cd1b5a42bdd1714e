//! What becomes of a finished output: the steps around the transcoder's run
//! and the decision between replacing, discarding and refusing.
//!
//! Nothing here touches a file. The caller observes what a decision needs,
//! hands it in, and carries out the action that comes back.

use vstd::prelude::*;
use crate::models::config::{Config, StreamLine};
use crate::models::file::MediaFile;
use crate::text::{ends_with, join_strings, join_texts, strip_suffix, texts, without_last};

verus! {

/// The three ways to treat a finished output. Exactly one applies to a run.
#[derive(Debug, Clone, Copy, PartialEq, Eq, Structural)]
pub enum ReplacePolicy {
    /// The output always takes the source's place.
    Always,
    /// The output takes the source's place only if it is smaller.
    IfSmaller,
    /// The output gets its final name beside the source, unless that name is
    /// taken.
    Safe,
}

/// What the caller has to find out before the decision can be made.
#[derive(Debug, Clone, Copy, PartialEq, Eq, Structural)]
pub enum Inquiry {
    /// Nothing.
    Nothing,
    /// The sizes of the source and of the output.
    Sizes,
    /// Whether a file exists under the output's final name.
    Existence,
}

/// What the caller found out. Only what the policy's inquiry asks for is read.
#[derive(Debug, Default, Clone, Copy, PartialEq, Eq, Structural)]
pub struct Observed {
    pub source_size: u64,
    pub output_size: u64,
    pub target_exists: bool,
}

/// How the transcoder's run ended.
#[derive(Debug, Clone, Copy, PartialEq, Eq, Structural)]
pub enum RunReport {
    /// The transcoder could not be started.
    SpawnFailed,
    /// It ran and reported failure.
    ExitFailure,
    /// It ran and reported success.
    ExitSuccess,
}

/// What the caller does with a plan.
#[derive(Debug, Clone, Copy, PartialEq, Eq, Structural)]
pub enum Launch {
    /// Log the call that would be made; start nothing and change no file.
    Announce,
    /// Run the transcoder.
    Run,
}

/// An action on the file system that settles a finished output.
#[derive(Debug, Clone)]
pub enum FileAction {
    /// Rename `from` to `to`.
    Rename { from: String, to: String },
    /// Delete `path`.
    Remove { path: String },
}

/// Why a finished output was refused. The output is left where it is.
#[derive(Debug, Clone)]
pub enum ReconcileError {
    /// A file exists under the final name and would be overwritten.
    NameCollision { name: String },
    /// The output's name does not end with the suffix for unfinished files.
    NotTemporary { name: String },
}

/// The decision on a finished output, over plain texts.
pub enum Disposal {
    Rename { from: Seq<char>, to: Seq<char> },
    Remove { path: Seq<char> },
    Collision { name: Seq<char> },
    NotTemporary { name: Seq<char> },
}

/// The decision that a result stands for.
pub open spec fn disposal_of(result: Result<FileAction, ReconcileError>) -> Disposal {
    match result {
        Ok(FileAction::Rename { from, to }) => Disposal::Rename { from: from@, to: to@ },
        Ok(FileAction::Remove { path }) => Disposal::Remove { path: path@ },
        Err(ReconcileError::NameCollision { name }) => Disposal::Collision { name: name@ },
        Err(ReconcileError::NotTemporary { name }) => Disposal::NotTemporary { name: name@ },
    }
}

/// The policy that a configuration selects: replacing always where asked
/// for, else replacing smaller files where asked for, else the safe rename.
pub open spec fn policy_of(s: StreamLine) -> ReplacePolicy {
    if s.always_replace {
        ReplacePolicy::Always
    } else if s.replace_if_smaller {
        ReplacePolicy::IfSmaller
    } else {
        ReplacePolicy::Safe
    }
}

/// What a policy needs to know.
pub open spec fn inquiry_of(policy: ReplacePolicy) -> Inquiry {
    match policy {
        ReplacePolicy::Always => Inquiry::Nothing,
        ReplacePolicy::IfSmaller => Inquiry::Sizes,
        ReplacePolicy::Safe => Inquiry::Existence,
    }
}

/// The decision on the finished output `output` for the source `source`.
///
/// Replacing always renames the output over the source. Replacing smaller
/// files does so only for an output strictly smaller than the source, and
/// deletes any other output. The safe rename gives the output its name
/// without the suffix for unfinished files, and refuses where a file of that
/// name exists or the output does not carry the suffix.
pub open spec fn disposal(source: Seq<char>, output: Seq<char>, s: StreamLine, seen: Observed) -> Disposal {
    match policy_of(s) {
        ReplacePolicy::Always => Disposal::Rename { from: output, to: source },
        ReplacePolicy::IfSmaller => if seen.output_size < seen.source_size {
            Disposal::Rename { from: output, to: source }
        } else {
            Disposal::Remove { path: output }
        },
        ReplacePolicy::Safe => if !ends_with(output, s.temporary_suffix@) {
            Disposal::NotTemporary { name: output }
        } else if seen.target_exists {
            Disposal::Collision { name: without_last(output, s.temporary_suffix@.len()) }
        } else {
            Disposal::Rename { from: output, to: without_last(output, s.temporary_suffix@.len()) }
        },
    }
}

/// Tells which policy the configuration selects.
pub fn replace_policy(s: &StreamLine) -> (policy: ReplacePolicy)
    ensures
        policy == policy_of(*s),
{
    if s.always_replace {
        ReplacePolicy::Always
    } else if s.replace_if_smaller {
        ReplacePolicy::IfSmaller
    } else {
        ReplacePolicy::Safe
    }
}

/// Tells what to do with a plan: in a dry run the call is only announced.
pub fn launch_mode(config: &Config) -> (launch: Launch)
    ensures
        launch == (if config.streamline.dry_run {
            Launch::Announce
        } else {
            Launch::Run
        }),
{
    if config.streamline.dry_run {
        Launch::Announce
    } else {
        Launch::Run
    }
}

/// Tells what follows the transcoder's run. After a success the output is
/// settled, and the result says what has to be observed first. After a
/// failure nothing follows: the output, if any, is left as it is.
pub fn after_run(report: RunReport, config: &Config) -> (next: Option<Inquiry>)
    ensures
        next == (if report == RunReport::ExitSuccess {
            Some(inquiry_of(policy_of(config.streamline)))
        } else {
            None
        }),
{
    match report {
        RunReport::ExitSuccess => Some(
            match replace_policy(&config.streamline) {
                ReplacePolicy::Always => Inquiry::Nothing,
                ReplacePolicy::IfSmaller => Inquiry::Sizes,
                ReplacePolicy::Safe => Inquiry::Existence,
            },
        ),
        _ => None,
    }
}

/// The final name of the output `output_file`: its name without the suffix
/// for unfinished files. There is none where the name does not end with the
/// suffix.
pub fn desired_name(output_file: &str, config: &Config) -> (name: Option<String>)
    ensures
        name.is_some() == ends_with(output_file@, config.streamline.temporary_suffix@),
        name.is_some() ==> name.unwrap()@ == without_last(
            output_file@,
            config.streamline.temporary_suffix@.len(),
        ),
{
    strip_suffix(output_file, config.streamline.temporary_suffix.as_str())
}

/// Decides what becomes of the finished output `output_file` of the source
/// `input_file`, from what the caller observed.
pub fn handle_completed_file(
    input_file: &MediaFile,
    output_file: &str,
    config: &Config,
    seen: &Observed,
) -> (result: Result<FileAction, ReconcileError>)
    ensures
        disposal_of(result) == disposal(input_file.path@, output_file@, config.streamline, *seen),
{
    match replace_policy(&config.streamline) {
        ReplacePolicy::Always => Ok(
            FileAction::Rename { from: output_file.to_owned(), to: input_file.path.clone() },
        ),
        ReplacePolicy::IfSmaller => {
            if seen.output_size < seen.source_size {
                Ok(FileAction::Rename { from: output_file.to_owned(), to: input_file.path.clone() })
            } else {
                Ok(FileAction::Remove { path: output_file.to_owned() })
            }
        },
        ReplacePolicy::Safe => {
            match desired_name(output_file, config) {
                None => Err(ReconcileError::NotTemporary { name: output_file.to_owned() }),
                Some(name) => {
                    if seen.target_exists {
                        Err(ReconcileError::NameCollision { name })
                    } else {
                        Ok(FileAction::Rename { from: output_file.to_owned(), to: name })
                    }
                },
            }
        },
    }
}

impl ReconcileError {
    /// The message for the error.
    pub open spec fn message_text(self) -> Seq<char> {
        match self {
            ReconcileError::NameCollision { name } =>
                "File already exists and would be overwritten: "@ + name@,
            ReconcileError::NotTemporary { name } => "Output is not marked as unfinished: "@ + name@,
        }
    }

    /// Writes the message for the error.
    pub fn message(&self) -> (text: String)
        ensures
            text@ == self.message_text(),
    {
        match self {
            ReconcileError::NameCollision { name } => {
                let mut text = "File already exists and would be overwritten: ".to_owned();
                text.append(name.as_str());
                text
            },
            ReconcileError::NotTemporary { name } => {
                let mut text = "Output is not marked as unfinished: ".to_owned();
                text.append(name.as_str());
                text
            },
        }
    }
}

/// The message for a run that failed: what the transcoder or the system
/// reported, and the call that was made.
pub open spec fn run_failure_text(detail: Seq<char>, arguments: Seq<Seq<char>>) -> Seq<char> {
    "Error running ffmpeg: "@ + detail + " -- "@ + join_texts(arguments, " "@)
}

/// Writes the message for a run that failed.
pub fn run_failure_message(detail: &str, arguments: &Vec<String>) -> (text: String)
    ensures
        text@ == run_failure_text(detail@, texts(arguments@)),
{
    let mut text = "Error running ffmpeg: ".to_owned();
    text.append(detail);
    text.append(" -- ");
    text.append(join_strings(arguments, " ").as_str());
    text
}

/// Under the safe rename nothing is ever deleted, and nothing is renamed onto
/// a name that is taken: where a file exists under the final name, the
/// decision is a refusal, whatever else was observed.
pub proof fn lemma_safe_rename_never_clobbers(
    source: Seq<char>,
    output: Seq<char>,
    s: StreamLine,
    seen: Observed,
)
    requires
        policy_of(s) == ReplacePolicy::Safe,
    ensures
        !(disposal(source, output, s, seen) is Remove),
        seen.target_exists ==> disposal(source, output, s, seen) is Collision || disposal(
            source,
            output,
            s,
            seen,
        ) is NotTemporary,
        disposal(source, output, s, seen) is Rename ==> {
            &&& !seen.target_exists
            &&& disposal(source, output, s, seen)->Rename_from == output
            &&& disposal(source, output, s, seen)->Rename_to + s.temporary_suffix@ == output
        },
{
    if disposal(source, output, s, seen) is Rename {
        let suffix = s.temporary_suffix@;
        assert(without_last(output, suffix.len()) + suffix =~= output);
    }
}

/// Where only smaller outputs replace the source, an output that is as large
/// as the source or larger never does: it is deleted, and the source is not
/// named in the action.
pub proof fn lemma_larger_output_is_discarded(
    source: Seq<char>,
    output: Seq<char>,
    s: StreamLine,
    seen: Observed,
)
    requires
        policy_of(s) == ReplacePolicy::IfSmaller,
        seen.output_size >= seen.source_size,
    ensures
        disposal(source, output, s, seen) == (Disposal::Remove { path: output }),
{
}

/// A configuration that passes the sanity check selects its policy without
/// conflict: at most one of the two replacing settings is on, and replacing
/// always goes without an output directory.
pub proof fn lemma_sane_policy_is_unambiguous(config: Config)
    requires
        config.is_sane(),
    ensures
        !(config.streamline.always_replace && config.streamline.replace_if_smaller),
        config.streamline.always_replace ==> config.streamline.output_directory@.len() == 0,
        policy_of(config.streamline) == ReplacePolicy::IfSmaller
            <==> config.streamline.replace_if_smaller,
        policy_of(config.streamline) == ReplacePolicy::Always <==> config.streamline.always_replace,
{
}

} // verus!
