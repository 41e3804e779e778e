//! The shape of one metadata record per media file: a list of tracks with
//! their category, codec and language, plus helpers that map the raw metadata
//! fields into plain values.

use vstd::prelude::*;
use vstd::string::StrSliceExecFns;
use vstd::string::StringExecFns;

use crate::strutil;
use crate::strutil::{all_digits, digits_val, int_dec_spec, lower_of, split_spec, str_eq};

verus! {

broadcast use vstd::string::group_string_axioms;

#[derive(Clone, Copy, Debug, PartialEq, Eq, Structural)]
pub enum TrackType {
    Audio,
    Button,
    General,
    Video,
    Subtitle,
    Other,
}

impl Default for TrackType {
    fn default() -> (r: Self)
        ensures
            r == TrackType::Other,
    {
        TrackType::Other
    }
}

/// The lowercase display name of a track category.
pub open spec fn track_type_name_spec(t: TrackType) -> Seq<char> {
    match t {
        TrackType::Audio => "audio"@,
        TrackType::Button => "button"@,
        TrackType::General => "general"@,
        TrackType::Video => "video"@,
        TrackType::Subtitle => "subtitle"@,
        TrackType::Other => "other"@,
    }
}

impl TrackType {
    /// The lowercase display name of the track category.
    pub fn name(&self) -> (r: String)
        ensures
            r@ == track_type_name_spec(*self),
    {
        match self {
            TrackType::Audio => "audio".to_owned(),
            TrackType::Button => "button".to_owned(),
            TrackType::General => "general".to_owned(),
            TrackType::Video => "video".to_owned(),
            TrackType::Subtitle => "subtitle".to_owned(),
            TrackType::Other => "other".to_owned(),
        }
    }
}

#[derive(Clone, Copy, Debug, PartialEq, Eq, Structural)]
pub enum Codec {
    Aac,
    Ac3,
    Acm,
    AdvancedSsa,
    Alac,
    Avs,
    Dts,
    DvbSubtitle,
    FfV1,
    Flac,
    H264,
    Hdmv,
    Hevc,
    Kate,
    Ms,
    Mp1,
    Mp2,
    Mp3,
    Musepack,
    Opus,
    Pcm,
    ProRes,
    QuickTime,
    Raw,
    RealAudio,
    RealVideo,
    SubStationAlpha,
    SubTextUtf8,
    SubtitleBitmap,
    Theora,
    TheTrueAudio,
    Unknown,
    VobSub,
    Vp8,
    Vp9,
    WavPack4,
    WebVtt,
}

impl Default for Codec {
    fn default() -> (r: Self)
        ensures
            r == Codec::Unknown,
    {
        Codec::Unknown
    }
}

/// The file extension used when a track with the given codec is extracted.
pub open spec fn codec_extension_spec(c: Codec) -> Seq<char> {
    match c {
        Codec::Aac => "aac"@,
        Codec::Ac3 => "ac3"@,
        Codec::Acm => "acm"@,
        Codec::AdvancedSsa => "ass"@,
        Codec::Alac => "m4a"@,
        Codec::Avs => "avs"@,
        Codec::Dts => "dts"@,
        Codec::FfV1 => "ffv1"@,
        Codec::Flac => "flac"@,
        Codec::H264 => "h264"@,
        Codec::Hevc => "hevc"@,
        Codec::Ms => "m2ts"@,
        Codec::Mp1 => "mp1"@,
        Codec::Mp2 => "mp2"@,
        Codec::Mp3 => "mp3"@,
        Codec::Musepack => "mpc"@,
        Codec::Opus => "opus"@,
        Codec::Pcm => "pcm"@,
        Codec::ProRes => "prores"@,
        Codec::QuickTime => "mov"@,
        Codec::Raw => "raw"@,
        Codec::RealAudio => "ra"@,
        Codec::RealVideo => "rm"@,
        Codec::SubStationAlpha => "ssa"@,
        Codec::DvbSubtitle => "srt"@,
        Codec::Kate => "srt"@,
        Codec::Hdmv => "srt"@,
        Codec::SubTextUtf8 => "srt"@,
        Codec::SubtitleBitmap => "bmp"@,
        Codec::Theora => "ogg"@,
        Codec::TheTrueAudio => "ta1"@,
        Codec::Unknown => "unknown"@,
        Codec::VobSub => "sub"@,
        Codec::Vp8 => "vp8"@,
        Codec::Vp9 => "vp9"@,
        Codec::WavPack4 => "wv"@,
        Codec::WebVtt => "vtt"@,
    }
}

/// Structured metadata for one media file.
pub struct MediaInfo {
    /// The data pertaining to the media file.
    pub media: MediaInfoMedia,
}

/// The track list of one media file.
pub struct MediaInfoMedia {
    /// A list of tracks that are found within the media file.
    pub tracks: Vec<MediaInfoTrack>,
}

/// Extra information carried on the general pseudo-track.
#[derive(Clone)]
pub struct MediaInfoExtra {
    /// A list of attachments that are found within the media file.
    pub attachments: Vec<String>,
}

impl Default for MediaInfoExtra {
    fn default() -> (r: Self)
        ensures
            r.attachments@.len() == 0,
    {
        MediaInfoExtra { attachments: Vec::new() }
    }
}

/// One track of a media file, as read from the metadata record.
pub struct MediaInfoTrack {
    /// The track type field. `TrackType::General` indicates general
    /// information about the file rather than a real track.
    pub track_type: TrackType,
    /// The index of the track; general tracks have no index and get -1.
    pub id: i32,
    /// The track's codec, mapped from the container codec ID.
    pub codec: Codec,
    /// The track's language ID.
    pub language: String,
    /// Is the track selected by default?
    pub default: bool,
    /// Extra information; only meaningful on the general pseudo-track.
    pub extra_info: MediaInfoExtra,
}

impl MediaInfoTrack {
    /// Get the formatted output name for this track:
    /// "type_id_language.extension".
    pub fn get_out_file_name(&self) -> (r: String)
        ensures
            r@ == track_type_name_spec(self.track_type) + "_"@ + int_dec_spec(self.id as int)
                + "_"@ + self.language@ + "."@ + codec_extension_spec(self.codec),
    {
        let mut out = self.track_type.name();
        out.append("_");
        let id_str = strutil::i32_to_string(self.id);
        out.append(id_str.as_str());
        out.append("_");
        out.append(self.language.as_str());
        out.append(".");
        let ext = MediaInfoTrack::get_extension_from_codec(&self.codec);
        out.append(ext.as_str());
        assert(out@ =~= track_type_name_spec(self.track_type) + "_"@ + int_dec_spec(
            self.id as int,
        ) + "_"@ + self.language@ + "."@ + codec_extension_spec(self.codec));
        out
    }

    /// Get the file extension associated with a specific codec ID.
    pub fn get_extension_from_codec(codec: &Codec) -> (r: String)
        ensures
            r@ == codec_extension_spec(*codec),
    {
        match codec {
            Codec::Aac => "aac".to_owned(),
            Codec::Ac3 => "ac3".to_owned(),
            Codec::Acm => "acm".to_owned(),
            Codec::AdvancedSsa => "ass".to_owned(),
            Codec::Alac => "m4a".to_owned(),
            Codec::Avs => "avs".to_owned(),
            Codec::Dts => "dts".to_owned(),
            Codec::FfV1 => "ffv1".to_owned(),
            Codec::Flac => "flac".to_owned(),
            Codec::H264 => "h264".to_owned(),
            Codec::Hevc => "hevc".to_owned(),
            Codec::Ms => "m2ts".to_owned(),
            Codec::Mp1 => "mp1".to_owned(),
            Codec::Mp2 => "mp2".to_owned(),
            Codec::Mp3 => "mp3".to_owned(),
            Codec::Musepack => "mpc".to_owned(),
            Codec::Opus => "opus".to_owned(),
            Codec::Pcm => "pcm".to_owned(),
            Codec::ProRes => "prores".to_owned(),
            Codec::QuickTime => "mov".to_owned(),
            Codec::Raw => "raw".to_owned(),
            Codec::RealAudio => "ra".to_owned(),
            Codec::RealVideo => "rm".to_owned(),
            Codec::SubStationAlpha => "ssa".to_owned(),
            Codec::DvbSubtitle => "srt".to_owned(),
            Codec::Kate => "srt".to_owned(),
            Codec::Hdmv => "srt".to_owned(),
            Codec::SubTextUtf8 => "srt".to_owned(),
            Codec::SubtitleBitmap => "bmp".to_owned(),
            Codec::Theora => "ogg".to_owned(),
            Codec::TheTrueAudio => "ta1".to_owned(),
            Codec::Unknown => "unknown".to_owned(),
            Codec::VobSub => "sub".to_owned(),
            Codec::Vp8 => "vp8".to_owned(),
            Codec::Vp9 => "vp9".to_owned(),
            Codec::WavPack4 => "wv".to_owned(),
            Codec::WebVtt => "vtt".to_owned(),
        }
    }
}

/// The codec for a container codec ID string; unrecognized IDs map to Unknown.
pub open spec fn codec_of_id_spec(id: Seq<char>) -> Codec {
    if id == "V_MS/VFW/FOURCC"@ {
        Codec::Ms
    } else if id == "V_UNCOMPRESSED"@ {
        Codec::Raw
    } else if id == "V_MPEG4/ISO/SP"@ || id == "V_MPEG4/ISO/ASP"@ || id == "V_MPEG4/ISO/AP"@ || id
        == "V_MPEG4/MS/V3"@ || id == "V_MPEG4/ISO/AVC"@ {
        Codec::H264
    } else if id == "V_MPEGH/ISO/HEVC"@ {
        Codec::Hevc
    } else if id == "V_MPEG1"@ {
        Codec::Mp1
    } else if id == "V_MPEG2"@ {
        Codec::Mp2
    } else if id == "V_AVS2"@ {
        Codec::Avs
    } else if id == "V_REAL/RV10"@ || id == "V_REAL/RV20"@ || id == "V_REAL/RV30"@ || id
        == "V_REAL/RV40"@ {
        Codec::RealVideo
    } else if id == "V_QUICKTIME"@ {
        Codec::QuickTime
    } else if id == "V_THEORA"@ {
        Codec::Theora
    } else if id == "V_PRORES"@ {
        Codec::ProRes
    } else if id == "V_VP8"@ {
        Codec::Vp8
    } else if id == "V_VP9"@ {
        Codec::Vp9
    } else if id == "V_FFV1"@ {
        Codec::FfV1
    } else if id == "A_MPEG/L3"@ {
        Codec::Mp3
    } else if id == "A_MPEG/L2"@ || id == "A_MPEG/L1"@ {
        Codec::Mp2
    } else if id == "A_PCM/INT/BIG"@ || id == "A_PCM/INT/LIT"@ || id == "A_PCM/FLOAT/IEEE"@ {
        Codec::Pcm
    } else if id == "A_MPC"@ {
        Codec::Musepack
    } else if id == "A_AC3"@ || id == "A_AC3/BSID9"@ || id == "A_AC3/BSID10"@ {
        Codec::Ac3
    } else if id == "A_ALAC"@ {
        Codec::Alac
    } else if id == "A_DTS"@ || id == "A_DTS/EXPRESS"@ || id == "A_DTS/LOSSLESS"@ {
        Codec::Dts
    } else if id == "A_VORBIS"@ {
        Codec::Opus
    } else if id == "A_FLAC"@ {
        Codec::Flac
    } else if id == "A_REAL/14_4"@ || id == "A_REAL/28_8"@ || id == "A_REAL/COOK"@ || id
        == "A_REAL/SIPR"@ || id == "A_REAL/RALF"@ || id == "A_REAL/ATRC"@ {
        Codec::RealAudio
    } else if id == "A_MS/ACM"@ {
        Codec::Acm
    } else if id == "A_AAC/MPEG2/MAIN"@ || id == "A_AAC/MPEG2/LC"@ || id == "A_AAC/MPEG2/LC/SBR"@
        || id == "A_AAC/MPEG2/SSR"@ || id == "A_AAC/MPEG4/MAIN"@ || id == "A_AAC/MPEG4/LC"@ || id
        == "A_AAC/MPEG4/LC/SBR"@ || id == "A_AAC/MPEG4/SSR"@ || id == "A_AAC/MPEG4/LTP"@ {
        Codec::Aac
    } else if id == "A_QUICKTIME"@ || id == "A_QUICKTIME/QDMC"@ || id == "A_QUICKTIME/QDM2"@ {
        Codec::QuickTime
    } else if id == "A_TTA1"@ {
        Codec::TheTrueAudio
    } else if id == "A_WAVPACK4"@ {
        Codec::WavPack4
    } else if id == "S_TEXT/UTF8"@ {
        Codec::SubTextUtf8
    } else if id == "S_TEXT/SSA"@ {
        Codec::SubStationAlpha
    } else if id == "S_TEXT/ASS"@ {
        Codec::AdvancedSsa
    } else if id == "S_TEXT/WEBVTT"@ {
        Codec::WebVtt
    } else if id == "S_IMAGE/BMP"@ {
        Codec::SubtitleBitmap
    } else if id == "S_DVBSUB"@ {
        Codec::DvbSubtitle
    } else if id == "S_VOBSUB"@ {
        Codec::VobSub
    } else if id == "S_HDMV/PGS"@ || id == "S_HDMV/TEXTST"@ {
        Codec::Hdmv
    } else if id == "S_KATE"@ {
        Codec::Kate
    } else {
        Codec::Unknown
    }
}

/// Map a container codec ID string into the codec enumeration; unrecognized
/// IDs map to `Codec::Unknown`.
pub fn string_to_codec_enum(id: &str) -> (r: Codec)
    ensures
        r == codec_of_id_spec(id@),
{
    if str_eq(id, "V_MS/VFW/FOURCC") {
        Codec::Ms
    } else if str_eq(id, "V_UNCOMPRESSED") {
        Codec::Raw
    } else if str_eq(id, "V_MPEG4/ISO/SP") || str_eq(id, "V_MPEG4/ISO/ASP") || str_eq(
        id,
        "V_MPEG4/ISO/AP",
    ) || str_eq(id, "V_MPEG4/MS/V3") || str_eq(id, "V_MPEG4/ISO/AVC") {
        Codec::H264
    } else if str_eq(id, "V_MPEGH/ISO/HEVC") {
        Codec::Hevc
    } else if str_eq(id, "V_MPEG1") {
        Codec::Mp1
    } else if str_eq(id, "V_MPEG2") {
        Codec::Mp2
    } else if str_eq(id, "V_AVS2") {
        Codec::Avs
    } else if str_eq(id, "V_REAL/RV10") || str_eq(id, "V_REAL/RV20") || str_eq(id, "V_REAL/RV30")
        || str_eq(id, "V_REAL/RV40") {
        Codec::RealVideo
    } else if str_eq(id, "V_QUICKTIME") {
        Codec::QuickTime
    } else if str_eq(id, "V_THEORA") {
        Codec::Theora
    } else if str_eq(id, "V_PRORES") {
        Codec::ProRes
    } else if str_eq(id, "V_VP8") {
        Codec::Vp8
    } else if str_eq(id, "V_VP9") {
        Codec::Vp9
    } else if str_eq(id, "V_FFV1") {
        Codec::FfV1
    } else if str_eq(id, "A_MPEG/L3") {
        Codec::Mp3
    } else if str_eq(id, "A_MPEG/L2") || str_eq(id, "A_MPEG/L1") {
        Codec::Mp2
    } else if str_eq(id, "A_PCM/INT/BIG") || str_eq(id, "A_PCM/INT/LIT") || str_eq(
        id,
        "A_PCM/FLOAT/IEEE",
    ) {
        Codec::Pcm
    } else if str_eq(id, "A_MPC") {
        Codec::Musepack
    } else if str_eq(id, "A_AC3") || str_eq(id, "A_AC3/BSID9") || str_eq(id, "A_AC3/BSID10") {
        Codec::Ac3
    } else if str_eq(id, "A_ALAC") {
        Codec::Alac
    } else if str_eq(id, "A_DTS") || str_eq(id, "A_DTS/EXPRESS") || str_eq(id, "A_DTS/LOSSLESS") {
        Codec::Dts
    } else if str_eq(id, "A_VORBIS") {
        Codec::Opus
    } else if str_eq(id, "A_FLAC") {
        Codec::Flac
    } else if str_eq(id, "A_REAL/14_4") || str_eq(id, "A_REAL/28_8") || str_eq(id, "A_REAL/COOK")
        || str_eq(id, "A_REAL/SIPR") || str_eq(id, "A_REAL/RALF") || str_eq(id, "A_REAL/ATRC") {
        Codec::RealAudio
    } else if str_eq(id, "A_MS/ACM") {
        Codec::Acm
    } else if str_eq(id, "A_AAC/MPEG2/MAIN") || str_eq(id, "A_AAC/MPEG2/LC") || str_eq(
        id,
        "A_AAC/MPEG2/LC/SBR",
    ) || str_eq(id, "A_AAC/MPEG2/SSR") || str_eq(id, "A_AAC/MPEG4/MAIN") || str_eq(
        id,
        "A_AAC/MPEG4/LC",
    ) || str_eq(id, "A_AAC/MPEG4/LC/SBR") || str_eq(id, "A_AAC/MPEG4/SSR") || str_eq(
        id,
        "A_AAC/MPEG4/LTP",
    ) {
        Codec::Aac
    } else if str_eq(id, "A_QUICKTIME") || str_eq(id, "A_QUICKTIME/QDMC") || str_eq(
        id,
        "A_QUICKTIME/QDM2",
    ) {
        Codec::QuickTime
    } else if str_eq(id, "A_TTA1") {
        Codec::TheTrueAudio
    } else if str_eq(id, "A_WAVPACK4") {
        Codec::WavPack4
    } else if str_eq(id, "S_TEXT/UTF8") {
        Codec::SubTextUtf8
    } else if str_eq(id, "S_TEXT/SSA") {
        Codec::SubStationAlpha
    } else if str_eq(id, "S_TEXT/ASS") {
        Codec::AdvancedSsa
    } else if str_eq(id, "S_TEXT/WEBVTT") {
        Codec::WebVtt
    } else if str_eq(id, "S_IMAGE/BMP") {
        Codec::SubtitleBitmap
    } else if str_eq(id, "S_DVBSUB") {
        Codec::DvbSubtitle
    } else if str_eq(id, "S_VOBSUB") {
        Codec::VobSub
    } else if str_eq(id, "S_HDMV/PGS") || str_eq(id, "S_HDMV/TEXTST") {
        Codec::Hdmv
    } else if str_eq(id, "S_KATE") {
        Codec::Kate
    } else {
        Codec::Unknown
    }
}

/// Parse a signed decimal string. Returns None when the string is empty,
/// holds a non-digit after the optional minus sign, or does not fit an i32.
pub fn string_to_i32(s: &str) -> (r: Option<i32>)
    ensures
        r is Some <==> (s@.len() > 0 && (if s@[0] == '-' {
            s@.len() > 1 && all_digits(s@.skip(1)) && digits_val(s@.skip(1)) <= 0x8000_0000
        } else {
            all_digits(s@) && digits_val(s@) <= 0x7FFF_FFFF
        })),
        r is Some ==> r->0 as int == (if s@[0] == '-' {
            -digits_val(s@.skip(1))
        } else {
            digits_val(s@)
        }),
{
    let len = s.unicode_len();
    if len == 0 {
        return None;
    }
    if s.get_char(0) == '-' {
        let rest = s.substring_char(1, len);
        assert(rest@ =~= s@.skip(1));
        match strutil::parse_u32(rest) {
            Some(m) => {
                if m <= 0x8000_0000 {
                    let v: i64 = -(m as i64);
                    assert(i32::MIN <= v <= i32::MAX);
                    Some(v as i32)
                } else {
                    None
                }
            },
            None => None,
        }
    } else {
        match strutil::parse_u32(s) {
            Some(m) => {
                if m <= 0x7FFF_FFFF {
                    Some(m as i32)
                } else {
                    None
                }
            },
            None => None,
        }
    }
}

/// Map a metadata language field into the track language: the undefined
/// sentinel is replaced with the default language.
pub fn string_to_language_id(s: &str) -> (r: String)
    ensures
        s@ == "und"@ ==> r@ == "en"@,
        s@ != "und"@ ==> r@ == s@,
{
    if str_eq(s, "und") {
        default_track_language()
    } else {
        s.to_owned()
    }
}

/// Map a yes/no metadata field into a boolean, ignoring letter case. Returns
/// None for any other value.
pub fn yes_no_to_bool(s: &str) -> (r: Option<bool>)
    ensures
        r == Some(true) <==> lower_of(s@) == "yes"@,
        r == Some(false) <==> lower_of(s@) == "no"@,
        r is None <==> (lower_of(s@) != "yes"@ && lower_of(s@) != "no"@),
{
    proof {
        reveal_strlit("yes");
        reveal_strlit("no");
        assert("yes"@.len() == 3);
        assert("no"@.len() == 2);
        assert("yes"@ != "no"@);
    }
    let l = strutil::to_lowercase(s);
    if str_eq(l.as_str(), "yes") {
        Some(true)
    } else if str_eq(l.as_str(), "no") {
        Some(false)
    } else {
        None
    }
}

/// Split the delimited attachments field of the general track into a list.
pub fn attachment_string_to_vector(s: &str) -> (r: Vec<String>)
    ensures
        r.deep_view() == split_spec(s@, " / "@),
{
    strutil::split_str(s, " / ")
}

/// The index given to tracks that carry none.
pub fn default_track_index() -> (r: i32)
    ensures
        r == -1,
{
    -1
}

/// The language given to tracks that carry none.
pub fn default_track_language() -> (r: String)
    ensures
        r@ == "en"@,
{
    "en".to_owned()
}

} // verus!
