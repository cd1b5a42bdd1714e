//! The first step for every probed file: is there anything to transcode, and
//! does it have to be.

use vstd::prelude::*;
use crate::compliance::{check_file, violation_of, Decision};
use crate::ffmpeg::{find_kind, first_of_kind, PlanError};
use crate::models::config::Config;
use crate::models::file::MediaFile;
use crate::models::media::StreamKind;
use crate::text::texts;

verus! {

/// Whether a decision is the one that the profile's rules give for a file.
pub open spec fn is_decision_for(decision: Decision, file: MediaFile, config: Config) -> bool {
    &&& decision.compliant == violation_of(file, config).is_none()
    &&& texts(decision.reasons@) == (match violation_of(file, config) {
        Some(v) => seq![v.reason_text(file, config)],
        None => Seq::<Seq<char>>::empty(),
    })
}

/// Examines a probed file before anything is planned for it.
///
/// A file without a video stream is refused, whatever the profile says: it
/// is an error of its own and not a decision, and none of the profile's rules
/// is consulted for it. Every other file is classified against the profile.
pub fn examine(file: &MediaFile, config: &Config) -> (outcome: Result<Decision, PlanError>)
    ensures
        outcome.is_err() == first_of_kind(file.info.streams@, StreamKind::Video, 0).is_none(),
        outcome.is_err() ==> outcome == Err::<Decision, PlanError>(PlanError::NoVideoStreams),
        outcome.is_ok() ==> is_decision_for(outcome.unwrap(), *file, *config),
{
    match find_kind(&file.info.streams, StreamKind::Video) {
        None => Err(PlanError::NoVideoStreams),
        Some(_) => Ok(check_file(file, config)),
    }
}

} // verus!
