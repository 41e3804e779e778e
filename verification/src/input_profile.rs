//! The input profile: directories, the name-list path, the index scheme, the
//! processing parameters and the substitutions, with the startup validation
//! that rejects a bad profile before any file is touched.

use vstd::prelude::*;

use crate::file_processor::PadType;
use crate::substitutions::Substitutions;
use crate::unified::{all_title_patterns_valid, TrackPredicate, UnifiedParams};

verus! {

/// The regex sub-rules of a predicate all compile.
pub open spec fn predicate_patterns_valid(p: &TrackPredicate) -> bool {
    match p {
        TrackPredicate::Title(t) => all_title_patterns_valid(t.filters@),
        _ => true,
    }
}

/// A predicate passes parameter validation: an index or language filter may
/// not have an empty accepted set.
pub open spec fn filter_params_valid(p: &TrackPredicate) -> bool {
    match p {
        TrackPredicate::Index(i) => i.ids@.len() > 0,
        TrackPredicate::Language(l) => l.ids@.len() > 0,
        TrackPredicate::Title(_) => true,
        TrackPredicate::Any => true,
    }
}

/// Everything a run is configured with.
pub struct InputProfile {
    /// The directory containing the input media files.
    pub input_dir: String,
    /// The directory the processed files are saved into.
    pub output_dir: String,
    /// The path of the output names file.
    pub output_names_file_path: String,
    /// The index that the output names should start from.
    pub start_from: Option<usize>,
    /// The padding applied to the index.
    pub index_pad_type: Option<PadType>,
    /// The processing parameters applied to each media file.
    pub processing_params: UnifiedParams,
    /// The substitutions applied when sanitizing the file titles.
    pub substitutions: Substitutions,
}

impl InputProfile {
    /// Compile the regular expressions of every track predicate. True exactly
    /// when every pattern compiles; a malformed pattern rejects the startup.
    pub fn initialize_filters(&mut self) -> (r: bool)
        ensures
            r == (predicate_patterns_valid(&old(self).processing_params.audio_tracks.predicate)
                && predicate_patterns_valid(&old(self).processing_params.subtitle_tracks.predicate)
                && predicate_patterns_valid(&old(self).processing_params.video_tracks.predicate)),
            r ==> final(self).processing_params.wf(),
    {
        let audio_ok = self.processing_params.audio_tracks.predicate.initialize_regex();
        if !audio_ok {
            return false;
        }
        let subtitle_ok = self.processing_params.subtitle_tracks.predicate.initialize_regex();
        if !subtitle_ok {
            return false;
        }
        let video_ok = self.processing_params.video_tracks.predicate.initialize_regex();
        video_ok
    }

    /// An index scheme needs both a start index and a pad type, or neither.
    pub fn validate_index_params(&self) -> (r: bool)
        ensures
            r == ((self.start_from is Some && self.index_pad_type is Some) || (self.start_from
                is None && self.index_pad_type is None)),
    {
        (self.start_from.is_some() && self.index_pad_type.is_some()) || (self.start_from.is_none()
            && self.index_pad_type.is_none())
    }

    /// Validate the filter parameters of every category.
    pub fn validate_filter_params(&self) -> (r: bool)
        ensures
            r == (filter_params_valid(&self.processing_params.audio_tracks.predicate)
                && filter_params_valid(&self.processing_params.subtitle_tracks.predicate)
                && filter_params_valid(&self.processing_params.video_tracks.predicate)),
    {
        let audio_valid = match &self.processing_params.audio_tracks.predicate {
            TrackPredicate::Index(i) => !i.is_empty(),
            TrackPredicate::Language(l) => !l.is_empty(),
            TrackPredicate::Title(_) => true,
            TrackPredicate::Any => true,
        };
        let subtitle_valid = match &self.processing_params.subtitle_tracks.predicate {
            TrackPredicate::Index(i) => !i.is_empty(),
            TrackPredicate::Language(l) => !l.is_empty(),
            TrackPredicate::Title(_) => true,
            TrackPredicate::Any => true,
        };
        let video_valid = match &self.processing_params.video_tracks.predicate {
            TrackPredicate::Index(i) => !i.is_empty(),
            TrackPredicate::Language(l) => !l.is_empty(),
            TrackPredicate::Title(_) => true,
            TrackPredicate::Any => true,
        };
        audio_valid && subtitle_valid && video_valid
    }
}

} // verus!
