//! The wide container codec enumeration and track categories.

use vstd::prelude::*;
use vstd::string::StringExecFns;

verus! {

#[derive(Clone, Copy, Debug, PartialEq, Eq, Structural)]
pub enum Codec {
    Aac,
    Ac3,
    Acm,
    AdvancedSsa,
    Alac,
    Avs,
    Dts,
    DvbSubtitle,
    FfV1,
    Flac,
    H264,
    Hdmv,
    Hevc,
    Kate,
    Ms,
    Mp1,
    Mp2,
    Mp3,
    Musepack,
    Opus,
    Pcm,
    ProRes,
    QuickTime,
    Raw,
    RealAudio,
    RealVideo,
    SubStationAlpha,
    SubTextUtf8,
    SubtitleBitmap,
    Theora,
    TheTrueAudio,
    Unknown,
    VobSub,
    Vp8,
    Vp9,
    WavPack4,
    WebVtt,
}

impl Default for Codec {
    fn default() -> (r: Self)
        ensures
            r == Codec::Unknown,
    {
        Codec::Unknown
    }
}

#[derive(Clone, Copy, Debug, PartialEq, Eq, Structural)]
pub enum TrackType {
    Audio,
    Button,
    General,
    Video,
    Subtitle,
    Other,
}

impl Default for TrackType {
    fn default() -> (r: Self)
        ensures
            r == TrackType::Other,
    {
        TrackType::Other
    }
}

/// The lowercase display name of a track category.
pub open spec fn track_type_name_spec(t: TrackType) -> Seq<char> {
    match t {
        TrackType::Audio => "audio"@,
        TrackType::Button => "button"@,
        TrackType::General => "general"@,
        TrackType::Video => "video"@,
        TrackType::Subtitle => "subtitle"@,
        TrackType::Other => "other"@,
    }
}

impl TrackType {
    /// The lowercase display name of the track category.
    pub fn name(&self) -> (r: String)
        ensures
            r@ == track_type_name_spec(*self),
    {
        match self {
            TrackType::Audio => "audio".to_owned(),
            TrackType::Button => "button".to_owned(),
            TrackType::General => "general".to_owned(),
            TrackType::Video => "video".to_owned(),
            TrackType::Subtitle => "subtitle".to_owned(),
            TrackType::Other => "other".to_owned(),
        }
    }
}

} // verus!
