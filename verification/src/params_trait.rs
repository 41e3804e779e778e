//! The common shape of per-category conversion parameters: validation and the
//! encoder argument list.

use vstd::prelude::*;

use crate::media_file::MediaFileTrack;

verus! {

pub trait ConversionParams {
    /// The parameter combinations this implementation handles.
    spec fn params_wf(&self) -> bool;

    /// Whether the parameters are a valid combination.
    spec fn valid_spec(&self) -> bool;

    /// The encoder argument list the parameters produce.
    spec fn ffmpeg_args_spec(
        &self,
        track: &MediaFileTrack,
        file_in: Seq<char>,
        file_out: Seq<char>,
    ) -> Seq<Seq<char>>;

    /// Validate the specified codec parameters.
    fn validate(&self) -> (r: bool)
        requires
            self.params_wf(),
        ensures
            r == self.valid_spec(),
    ;

    /// Build the encoder argument list, or nothing when the parameters are
    /// not a valid combination.
    fn as_ffmpeg_argument_list(
        &self,
        track: &MediaFileTrack,
        file_in: &str,
        file_out: &str,
    ) -> (r: Option<Vec<String>>)
        requires
            self.params_wf(),
        ensures
            r is Some <==> self.valid_spec(),
            r is Some ==> r->0.deep_view() == self.ffmpeg_args_spec(track, file_in@, file_out@),
    ;
}

} // verus!
