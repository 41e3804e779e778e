//! The paths of the outside tools and working directories that a run uses.

use vstd::prelude::*;

verus! {

/// Where the toolkit, the temp directory, the encoder, the metadata reader
/// and the log file live. Read from configuration and checked at startup.
pub struct Paths {
    pub mkvtoolnix: String,
    pub temp: String,
    pub ffmpeg: String,
    pub mediainfo: String,
    pub log: String,
}

} // verus!
