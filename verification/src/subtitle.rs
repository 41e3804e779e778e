//! Subtitle conversion parameters. Conversion itself is an explicit
//! placeholder: only the empty request is accepted.

use vstd::prelude::*;

use crate::media_file::MediaFileTrack;
use crate::params_trait::ConversionParams;

verus! {

#[derive(Clone, Copy, Debug, PartialEq, Eq, Structural)]
pub enum SubtitleCodec {
    Unset,
}

/// The display name of a subtitle codec.
pub open spec fn subtitle_codec_name_spec(c: SubtitleCodec) -> Seq<char> {
    match c {
        SubtitleCodec::Unset => "none"@,
    }
}

impl SubtitleCodec {
    /// The display name of the subtitle codec.
    pub fn name(&self) -> (r: String)
        ensures
            r@ == subtitle_codec_name_spec(*self),
    {
        match self {
            SubtitleCodec::Unset => "none".to_owned(),
        }
    }
}

#[derive(Clone)]
pub struct SubtitleParams {
    /// The subtitle codec to be used for the conversion.
    pub codec: Option<SubtitleCodec>,
}

impl ConversionParams for SubtitleParams {
    open spec fn params_wf(&self) -> bool {
        true
    }

    open spec fn valid_spec(&self) -> bool {
        true
    }

    open spec fn ffmpeg_args_spec(
        &self,
        track: &MediaFileTrack,
        file_in: Seq<char>,
        file_out: Seq<char>,
    ) -> Seq<Seq<char>> {
        Seq::empty()
    }

    fn validate(&self) -> (r: bool) {
        true
    }

    fn as_ffmpeg_argument_list(
        &self,
        track: &MediaFileTrack,
        file_in: &str,
        file_out: &str,
    ) -> (r: Option<Vec<String>>) {
        let v: Vec<String> = Vec::new();
        assert(v.deep_view() =~= Seq::<Seq<char>>::empty());
        Some(v)
    }
}

} // verus!
