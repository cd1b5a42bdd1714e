//! A probed file.

use vstd::prelude::*;
use crate::models::media::FFProbeOutput;

verus! {

/// A source file together with what the probe reported of it.
#[derive(Debug, Default, Clone)]
pub struct MediaFile {
    /// Where the file lies.
    pub path: String,
    /// Its container and streams.
    pub info: FFProbeOutput,
}

} // verus!
