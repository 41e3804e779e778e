//! Video conversion parameters. Conversion itself is an explicit placeholder:
//! only the empty request is accepted.

use vstd::prelude::*;

use crate::media_file::MediaFileTrack;
use crate::params_trait::ConversionParams;

verus! {

#[derive(Clone, Copy, Debug, PartialEq, Eq, Structural)]
pub enum VideoCodec {
    Unset,
}

/// The display name of a video codec.
pub open spec fn video_codec_name_spec(c: VideoCodec) -> Seq<char> {
    match c {
        VideoCodec::Unset => "none"@,
    }
}

impl VideoCodec {
    /// The display name of the video codec.
    pub fn name(&self) -> (r: String)
        ensures
            r@ == video_codec_name_spec(*self),
    {
        match self {
            VideoCodec::Unset => "none".to_owned(),
        }
    }
}

#[derive(Clone)]
pub struct VideoConvertParams {
    /// The video codec to be used for the conversion.
    pub codec: Option<VideoCodec>,
}

impl ConversionParams for VideoConvertParams {
    open spec fn params_wf(&self) -> bool {
        true
    }

    open spec fn valid_spec(&self) -> bool {
        true
    }

    open spec fn ffmpeg_args_spec(
        &self,
        track: &MediaFileTrack,
        file_in: Seq<char>,
        file_out: Seq<char>,
    ) -> Seq<Seq<char>> {
        Seq::empty()
    }

    fn validate(&self) -> (r: bool) {
        true
    }

    fn as_ffmpeg_argument_list(
        &self,
        track: &MediaFileTrack,
        file_in: &str,
        file_out: &str,
    ) -> (r: Option<Vec<String>>) {
        let v: Vec<String> = Vec::new();
        assert(v.deep_view() =~= Seq::<Seq<char>>::empty());
        Some(v)
    }
}

} // verus!
