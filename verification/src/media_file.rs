//! One media file flowing through the pipeline: its tracks, attachments, the
//! per-category retention counters and the accumulated muxing arguments.

use vstd::prelude::*;
use vstd::string::StrSliceExecFns;
use vstd::string::StringExecFns;

use crate::audio::AudioCodec;
use crate::params_trait::ConversionParams;
use crate::strutil;
use crate::strutil::{dec_spec, lower_of, str_eq};
use crate::unified::{track_predicate_match_spec, PredicateFilterMatch, TrackPredicate, UnifiedParams};
use crate::utils;
use vstd::pervasive::VecAdditionalExecFns;

verus! {

broadcast use vstd::string::group_string_axioms;

#[derive(Clone, Copy, Debug, PartialEq, Eq, Structural)]
pub enum Codec {
    Aac,
    Ac3,
    AdvancedSsa,
    Dts,
    DvbSubtitle,
    Eac3,
    FfV1,
    Flac,
    H264,
    Hdmv,
    Hevc,
    Mp3,
    Opus,
    SubStationAlpha,
    SubtitleTextUtf8,
    SubtitleBitmap,
    Unknown,
    Vp8,
    Vp9,
    WebVtt,
}

impl Default for Codec {
    fn default() -> (r: Self)
        ensures
            r == Codec::Unknown,
    {
        Codec::Unknown
    }
}

/// The codec that an audio conversion target maps to.
pub open spec fn codec_of_audio_spec(ac: AudioCodec) -> Codec {
    match ac {
        AudioCodec::Aac => Codec::Aac,
        AudioCodec::AacLibfdk => Codec::Aac,
        AudioCodec::Ac3 => Codec::Ac3,
        AudioCodec::Flac => Codec::Flac,
        AudioCodec::Mp3Lame => Codec::Mp3,
        AudioCodec::Mp3Shine => Codec::Mp3,
        AudioCodec::Opus => Codec::Opus,
        AudioCodec::Vorbis => Codec::Opus,
    }
}

impl From<AudioCodec> for Codec {
    fn from(ac: AudioCodec) -> (r: Self)
        ensures
            r == codec_of_audio_spec(ac),
    {
        match ac {
            AudioCodec::Aac => Codec::Aac,
            AudioCodec::AacLibfdk => Codec::Aac,
            AudioCodec::Ac3 => Codec::Ac3,
            AudioCodec::Flac => Codec::Flac,
            AudioCodec::Mp3Lame => Codec::Mp3,
            AudioCodec::Mp3Shine => Codec::Mp3,
            AudioCodec::Opus => Codec::Opus,
            AudioCodec::Vorbis => Codec::Opus,
        }
    }
}

impl vstd::std_specs::convert::FromSpecImpl<AudioCodec> for Codec {
    open spec fn obeys_from_spec() -> bool {
        true
    }

    open spec fn from_spec(ac: AudioCodec) -> Codec {
        codec_of_audio_spec(ac)
    }
}

/// The stage that a hook command is attached to.
#[derive(Clone, Copy, Debug, PartialEq, Eq, Structural)]
pub enum RunCommandType {
    /// A command that should be executed prior to converting the tracks.
    PreConvert,
    /// A command that should be executed prior to muxing the output file.
    PreMux,
    /// A command that should be executed after converting the tracks.
    PostConvert,
    /// A command that should be executed after muxing the output file.
    PostMux,
}

/// What a track's delay is measured relative to.
#[derive(Clone, Copy, Debug, PartialEq, Eq, Structural)]
pub enum DelaySource {
    Container,
    /// No delay source was given.
    Absent,
    Stream,
}

impl Default for DelaySource {
    fn default() -> (r: Self)
        ensures
            r == DelaySource::Absent,
    {
        DelaySource::Absent
    }
}

#[derive(Clone, Copy, Debug, PartialEq, Eq, Structural, Hash)]
pub enum TrackType {
    /// An audio track.
    Audio,
    /// A button track.
    Button,
    /// A general data pseudo-track.
    General,
    /// A menu track; chapters are typically reported this way.
    Menu,
    /// A track that does not fit into any of the other categories.
    Other,
    /// A subtitle track.
    Subtitle,
    /// A video track.
    Video,
}

impl Default for TrackType {
    fn default() -> (r: Self)
        ensures
            r == TrackType::Other,
    {
        TrackType::Other
    }
}

/// The lowercase display name of a track category.
pub open spec fn track_type_name_spec(t: TrackType) -> Seq<char> {
    match t {
        TrackType::Audio => "audio"@,
        TrackType::Button => "button"@,
        TrackType::General => "general"@,
        TrackType::Menu => "menu"@,
        TrackType::Other => "other"@,
        TrackType::Subtitle => "subtitle"@,
        TrackType::Video => "video"@,
    }
}

impl TrackType {
    /// The lowercase display name of the track category.
    pub fn name(&self) -> (r: String)
        ensures
            r@ == track_type_name_spec(*self),
    {
        match self {
            TrackType::Audio => "audio".to_owned(),
            TrackType::Button => "button".to_owned(),
            TrackType::General => "general".to_owned(),
            TrackType::Menu => "menu".to_owned(),
            TrackType::Other => "other".to_owned(),
            TrackType::Subtitle => "subtitle".to_owned(),
            TrackType::Video => "video".to_owned(),
        }
    }
}

/// The codec for a container codec ID string, or nothing for an unrecognized
/// ID; the strictness policy decides whether an unknown codec is fatal.
pub open spec fn codec_of_id_spec(id: Seq<char>) -> Option<Codec> {
    if id == "V_MPEG4/ISO/SP"@ || id == "V_MPEG4/ISO/ASP"@ || id == "V_MPEG4/ISO/AP"@ || id
        == "V_MPEG4/MS/V3"@ || id == "V_MPEG4/ISO/AVC"@ {
        Option::Some(Codec::H264)
    } else if id == "V_MPEGH/ISO/HEVC"@ {
        Option::Some(Codec::Hevc)
    } else if id == "V_VP8"@ {
        Option::Some(Codec::Vp8)
    } else if id == "V_VP9"@ {
        Option::Some(Codec::Vp9)
    } else if id == "V_FFV1"@ {
        Option::Some(Codec::FfV1)
    } else if id == "A_MPEG/L2"@ {
        Option::Some(Codec::Aac)
    } else if id == "A_MPEG/L3"@ {
        Option::Some(Codec::Mp3)
    } else if id == "A_AC3"@ || id == "A_AC3/BSID9"@ || id == "A_AC3/BSID10"@ {
        Option::Some(Codec::Ac3)
    } else if id == "A_DTS"@ || id == "A_DTS/EXPRESS"@ || id == "A_DTS/LOSSLESS"@ {
        Option::Some(Codec::Dts)
    } else if id == "A_VORBIS"@ || id == "A_OPUS"@ {
        Option::Some(Codec::Opus)
    } else if id == "A_FLAC"@ {
        Option::Some(Codec::Flac)
    } else if id == "A_AAC/MPEG2/MAIN"@ || id == "A_AAC/MPEG2/LC"@ || id == "A_AAC/MPEG2/LC/SBR"@
        || id == "A_AAC/MPEG2/SSR"@ || id == "A_AAC/MPEG4/MAIN"@ || id == "A_AAC/MPEG4/LC"@ || id
        == "A_AAC/MPEG4/LC/SBR"@ || id == "A_AAC/MPEG4/SSR"@ || id == "A_AAC/MPEG4/LTP"@ || id
        == "A_AAC-1"@ || id == "A_AAC-2"@ {
        Option::Some(Codec::Aac)
    } else if id == "A_EAC3"@ {
        Option::Some(Codec::Eac3)
    } else if id == "S_TEXT/UTF8"@ {
        Option::Some(Codec::SubtitleTextUtf8)
    } else if id == "S_TEXT/SSA"@ {
        Option::Some(Codec::SubStationAlpha)
    } else if id == "S_TEXT/ASS"@ {
        Option::Some(Codec::AdvancedSsa)
    } else if id == "S_IMAGE/BMP"@ {
        Option::Some(Codec::SubtitleBitmap)
    } else if id == "S_DVBSUB"@ {
        Option::Some(Codec::DvbSubtitle)
    } else if id == "S_HDMV/PGS"@ || id == "S_HDMV/TEXTST"@ {
        Option::Some(Codec::Hdmv)
    } else if id == "S_TEXT/WEBVTT"@ {
        Option::Some(Codec::WebVtt)
    } else {
        Option::None
    }
}

/// Map a container codec ID string into the codec enumeration; an
/// unrecognized ID yields nothing and the caller decides whether that is
/// fatal.
pub fn string_to_codec_enum(id: &str) -> (r: Option<Codec>)
    ensures
        r == codec_of_id_spec(id@),
{
    if str_eq(id, "V_MPEG4/ISO/SP") || str_eq(id, "V_MPEG4/ISO/ASP") || str_eq(
        id,
        "V_MPEG4/ISO/AP",
    ) || str_eq(id, "V_MPEG4/MS/V3") || str_eq(id, "V_MPEG4/ISO/AVC") {
        Some(Codec::H264)
    } else if str_eq(id, "V_MPEGH/ISO/HEVC") {
        Some(Codec::Hevc)
    } else if str_eq(id, "V_VP8") {
        Some(Codec::Vp8)
    } else if str_eq(id, "V_VP9") {
        Some(Codec::Vp9)
    } else if str_eq(id, "V_FFV1") {
        Some(Codec::FfV1)
    } else if str_eq(id, "A_MPEG/L2") {
        Some(Codec::Aac)
    } else if str_eq(id, "A_MPEG/L3") {
        Some(Codec::Mp3)
    } else if str_eq(id, "A_AC3") || str_eq(id, "A_AC3/BSID9") || str_eq(id, "A_AC3/BSID10") {
        Some(Codec::Ac3)
    } else if str_eq(id, "A_DTS") || str_eq(id, "A_DTS/EXPRESS") || str_eq(id, "A_DTS/LOSSLESS") {
        Some(Codec::Dts)
    } else if str_eq(id, "A_VORBIS") || str_eq(id, "A_OPUS") {
        Some(Codec::Opus)
    } else if str_eq(id, "A_FLAC") {
        Some(Codec::Flac)
    } else if str_eq(id, "A_AAC/MPEG2/MAIN") || str_eq(id, "A_AAC/MPEG2/LC") || str_eq(
        id,
        "A_AAC/MPEG2/LC/SBR",
    ) || str_eq(id, "A_AAC/MPEG2/SSR") || str_eq(id, "A_AAC/MPEG4/MAIN") || str_eq(
        id,
        "A_AAC/MPEG4/LC",
    ) || str_eq(id, "A_AAC/MPEG4/LC/SBR") || str_eq(id, "A_AAC/MPEG4/SSR") || str_eq(
        id,
        "A_AAC/MPEG4/LTP",
    ) || str_eq(id, "A_AAC-1") || str_eq(id, "A_AAC-2") {
        Some(Codec::Aac)
    } else if str_eq(id, "A_EAC3") {
        Some(Codec::Eac3)
    } else if str_eq(id, "S_TEXT/UTF8") {
        Some(Codec::SubtitleTextUtf8)
    } else if str_eq(id, "S_TEXT/SSA") {
        Some(Codec::SubStationAlpha)
    } else if str_eq(id, "S_TEXT/ASS") {
        Some(Codec::AdvancedSsa)
    } else if str_eq(id, "S_IMAGE/BMP") {
        Some(Codec::SubtitleBitmap)
    } else if str_eq(id, "S_DVBSUB") {
        Some(Codec::DvbSubtitle)
    } else if str_eq(id, "S_HDMV/PGS") || str_eq(id, "S_HDMV/TEXTST") {
        Some(Codec::Hdmv)
    } else if str_eq(id, "S_TEXT/WEBVTT") {
        Some(Codec::WebVtt)
    } else {
        None
    }
}

/// Parse an unsigned metadata field. Returns None when the string is empty,
/// holds a non-digit, or does not fit.
pub fn string_to_u32(s: &str) -> (r: Option<u32>)
    ensures
        r is Some <==> (s@.len() > 0 && strutil::all_digits(s@) && strutil::digits_val(s@)
            <= u32::MAX),
        r is Some ==> r->0 as int == strutil::digits_val(s@),
{
    strutil::parse_u32(s)
}

/// The language given to tracks that carry none: the undefined sentinel.
pub fn default_track_language() -> (r: String)
    ensures
        r@ == "und"@,
{
    "und".to_owned()
}

/// Extra information carried on the general pseudo-track.
#[derive(Clone)]
pub struct MediaInfoExtra {
    /// A list of attachments that are found within the media file.
    pub attachments: Vec<String>,
}

impl Default for MediaInfoExtra {
    fn default() -> (r: Self)
        ensures
            r.attachments@.len() == 0,
    {
        MediaInfoExtra { attachments: Vec::new() }
    }
}

/// The file extension used when a track with the given codec is extracted.
pub open spec fn extension_of_codec_spec(c: Codec) -> Seq<char> {
    match c {
        Codec::Aac => "aac"@,
        Codec::Ac3 => "ac3"@,
        Codec::AdvancedSsa => "ass"@,
        Codec::Dts => "dts"@,
        Codec::Eac3 => "eac3"@,
        Codec::FfV1 => "ffv1"@,
        Codec::Flac => "flac"@,
        Codec::H264 => "h264"@,
        Codec::Hevc => "hevc"@,
        Codec::Mp3 => "mp3"@,
        Codec::Opus => "opus"@,
        Codec::SubStationAlpha => "ssa"@,
        Codec::DvbSubtitle => "srt"@,
        Codec::Hdmv => "srt"@,
        Codec::SubtitleTextUtf8 => "srt"@,
        Codec::SubtitleBitmap => "bmp"@,
        Codec::Unknown => "unknown"@,
        Codec::Vp8 => "vp8"@,
        Codec::Vp9 => "vp9"@,
        Codec::WebVtt => "vtt"@,
    }
}

/// One track of a media file.
#[derive(Clone)]
pub struct MediaFileTrack {
    /// The track type field; `TrackType::General` indicates general
    /// information about the file rather than a real track.
    pub track_type: TrackType,
    /// The index of the track; general tracks have none and get 0 here.
    pub id: u32,
    /// The track's codec, mapped from the container codec ID.
    pub codec: Codec,
    /// The number of channels; only meaningful for audio tracks.
    pub channels: u32,
    /// The delay of the track, in milliseconds.
    pub delay: i32,
    /// What the delay is relative to, when there is one.
    pub delay_source: DelaySource,
    /// The track's title, or an empty string.
    pub title: String,
    /// The track's language ID; "und" when undefined.
    pub language: String,
    /// The width of the track; only meaningful for video tracks.
    pub width: u32,
    /// The height of the track; only meaningful for video tracks.
    pub height: u32,
    /// The bit depth of the track; only meaningful for video tracks.
    pub bit_depth: u32,
    /// Extra information; only meaningful on the general pseudo-track.
    pub extra_info: MediaInfoExtra,
    /// The id of the media file this track belongs to.
    pub file_id: usize,
}

/// The mathematical value of one track.
pub ghost struct TrackView {
    pub track_type: TrackType,
    pub id: u32,
    pub codec: Codec,
    pub channels: u32,
    pub delay: i32,
    pub delay_source: DelaySource,
    pub title: Seq<char>,
    pub language: Seq<char>,
    pub width: u32,
    pub height: u32,
    pub bit_depth: u32,
    pub attachments: Seq<Seq<char>>,
    pub file_id: usize,
}

impl View for MediaFileTrack {
    type V = TrackView;

    open spec fn view(&self) -> TrackView {
        TrackView {
            track_type: self.track_type,
            id: self.id,
            codec: self.codec,
            channels: self.channels,
            delay: self.delay,
            delay_source: self.delay_source,
            title: self.title@,
            language: self.language@,
            width: self.width,
            height: self.height,
            bit_depth: self.bit_depth,
            attachments: self.extra_info.attachments.deep_view(),
            file_id: self.file_id,
        }
    }
}

impl DeepView for MediaFileTrack {
    type V = TrackView;

    open spec fn deep_view(&self) -> TrackView {
        self.view()
    }
}

/// "type_id_language.extension" for a track.
pub open spec fn out_file_name_spec(t: TrackView) -> Seq<char> {
    track_type_name_spec(t.track_type) + "_"@ + dec_spec(t.id as int) + "_"@ + t.language + "."@
        + extension_of_codec_spec(t.codec)
}

/// The path a track is extracted to, below the temp directory of its file.
pub open spec fn input_file_path_spec(t: TrackView, temp_dir: Seq<char>) -> Seq<char> {
    utils::push_segment_spec(temp_dir, dec_spec(t.file_id as int)) + "\\tracks\\"@
        + out_file_name_spec(t)
}

impl MediaFileTrack {
    /// Get the output name for this track.
    pub fn get_out_file_name(&self) -> (r: String)
        ensures
            r@ == out_file_name_spec(self@),
    {
        let mut out = self.track_type.name();
        out.append("_");
        let id_str = strutil::u32_to_string(self.id);
        out.append(id_str.as_str());
        out.append("_");
        out.append(self.language.as_str());
        out.append(".");
        let ext = MediaFileTrack::get_extension_from_codec(&self.codec);
        out.append(ext.as_str());
        assert(out@ =~= out_file_name_spec(self@));
        out
    }

    /// Get the path to the extracted (original) media track below the temp
    /// directory.
    pub fn get_input_file_path(&self, temp_dir: &str) -> (r: String)
        ensures
            r@ == input_file_path_spec(self@, temp_dir@),
    {
        let id_str = strutil::usize_to_string(self.file_id);
        let mut segs: Vec<String> = Vec::new();
        segs.push(id_str);
        let mut out = utils::join_path_segments(temp_dir, &segs);
        proof {
            assert(segs.deep_view() =~= seq![dec_spec(self.file_id as int)]);
            assert(utils::join_segments_spec(temp_dir@, segs.deep_view(), 0)
                == utils::join_segments_spec(
                utils::push_segment_spec(temp_dir@, dec_spec(self.file_id as int)),
                segs.deep_view(),
                1,
            ));
        }
        out.append("\\tracks\\");
        let name = self.get_out_file_name();
        out.append(name.as_str());
        assert(out@ =~= input_file_path_spec(self@, temp_dir@));
        out
    }

    /// Get the expected path of the re-encoded media track: the input path
    /// with the extension of the requested output codec.
    pub fn get_output_file_path(&self, out_codec: &Codec, temp_dir: &str) -> (r: String)
        ensures
            r@ == utils::swap_extension_spec(
                input_file_path_spec(self@, temp_dir@),
                extension_of_codec_spec(*out_codec),
            ),
    {
        let in_path = self.get_input_file_path(temp_dir);
        let ext = MediaFileTrack::get_extension_from_codec(out_codec);
        utils::swap_file_extension(in_path.as_str(), ext.as_str())
    }

    /// An equal copy of the track.
    pub fn duplicate(&self) -> (r: MediaFileTrack)
        ensures
            r@ == self@,
    {
        let r = MediaFileTrack {
            track_type: self.track_type,
            id: self.id,
            codec: self.codec,
            channels: self.channels,
            delay: self.delay,
            delay_source: self.delay_source,
            title: self.title.clone(),
            language: self.language.clone(),
            width: self.width,
            height: self.height,
            bit_depth: self.bit_depth,
            extra_info: MediaInfoExtra {
                attachments: clone_string_vec(&self.extra_info.attachments),
            },
            file_id: self.file_id,
        };
        assert(r@ =~= self@);
        r
    }

    /// The same track with another codec.
    pub fn with_codec(&self, codec: Codec) -> (r: MediaFileTrack)
        ensures
            r@ == (TrackView { codec, ..self@ }),
    {
        let r = MediaFileTrack {
            track_type: self.track_type,
            id: self.id,
            codec,
            channels: self.channels,
            delay: self.delay,
            delay_source: self.delay_source,
            title: self.title.clone(),
            language: self.language.clone(),
            width: self.width,
            height: self.height,
            bit_depth: self.bit_depth,
            extra_info: MediaInfoExtra {
                attachments: clone_string_vec(&self.extra_info.attachments),
            },
            file_id: self.file_id,
        };
        assert(r@ =~= (TrackView { codec, ..self@ }));
        r
    }

    /// The same track with another language.
    pub fn with_language(&self, language: String) -> (r: MediaFileTrack)
        ensures
            r@ == (TrackView { language: language@, ..self@ }),
    {
        let r = MediaFileTrack {
            track_type: self.track_type,
            id: self.id,
            codec: self.codec,
            channels: self.channels,
            delay: self.delay,
            delay_source: self.delay_source,
            title: self.title.clone(),
            language,
            width: self.width,
            height: self.height,
            bit_depth: self.bit_depth,
            extra_info: MediaInfoExtra {
                attachments: clone_string_vec(&self.extra_info.attachments),
            },
            file_id: self.file_id,
        };
        assert(r@ =~= (TrackView { language: r.language@, ..self@ }));
        r
    }

    /// Get the file extension associated with a specific codec ID.
    pub fn get_extension_from_codec(codec: &Codec) -> (r: String)
        ensures
            r@ == extension_of_codec_spec(*codec),
    {
        match codec {
            Codec::Aac => "aac".to_owned(),
            Codec::Ac3 => "ac3".to_owned(),
            Codec::AdvancedSsa => "ass".to_owned(),
            Codec::Dts => "dts".to_owned(),
            Codec::Eac3 => "eac3".to_owned(),
            Codec::FfV1 => "ffv1".to_owned(),
            Codec::Flac => "flac".to_owned(),
            Codec::H264 => "h264".to_owned(),
            Codec::Hevc => "hevc".to_owned(),
            Codec::Mp3 => "mp3".to_owned(),
            Codec::Opus => "opus".to_owned(),
            Codec::SubStationAlpha => "ssa".to_owned(),
            Codec::DvbSubtitle => "srt".to_owned(),
            Codec::Hdmv => "srt".to_owned(),
            Codec::SubtitleTextUtf8 => "srt".to_owned(),
            Codec::SubtitleBitmap => "bmp".to_owned(),
            Codec::Unknown => "unknown".to_owned(),
            Codec::Vp8 => "vp8".to_owned(),
            Codec::Vp9 => "vp9".to_owned(),
            Codec::WebVtt => "vtt".to_owned(),
        }
    }
}

/// An equal copy of a list of strings.
pub fn clone_string_vec(v: &Vec<String>) -> (r: Vec<String>)
    ensures
        r.deep_view() == v.deep_view(),
{
    let count = v.len();
    let mut out: Vec<String> = Vec::new();
    let mut i: usize = 0;
    while i < count
        invariant
            count == v@.len(),
            i <= count,
            out@.len() == i,
            forall|k: int| 0 <= k < i ==> out.deep_view()[k] == v.deep_view()[k],
        decreases count - i,
    {
        out.push(v[i].clone());
        assert(out.deep_view()[i as int] == v.deep_view()[i as int]);
        i = i + 1;
    }
    assert(out.deep_view() =~= v.deep_view());
    out
}

/// The track list of one media file.
pub struct MediaFileInfo {
    /// A list of tracks that are found within the media file.
    pub tracks: Vec<MediaFileTrack>,
}

/// How many tracks of each category have been kept.
#[derive(Clone, Copy, Debug, PartialEq, Eq, Structural)]
pub struct TrackCounts {
    pub audio: usize,
    pub button: usize,
    pub general: usize,
    pub menu: usize,
    pub other_tracks: usize,
    pub subtitle: usize,
    pub video: usize,
}

impl TrackCounts {
    /// The counter belonging to a category.
    pub open spec fn spec_get(self, t: TrackType) -> int {
        match t {
            TrackType::Audio => self.audio as int,
            TrackType::Button => self.button as int,
            TrackType::General => self.general as int,
            TrackType::Menu => self.menu as int,
            TrackType::Other => self.other_tracks as int,
            TrackType::Subtitle => self.subtitle as int,
            TrackType::Video => self.video as int,
        }
    }

    /// All counters are zero.
    pub open spec fn spec_all_zero(self) -> bool {
        forall|t: TrackType| self.spec_get(t) == 0
    }

    pub fn new() -> (r: Self)
        ensures
            r.spec_all_zero(),
    {
        let r = TrackCounts {
            audio: 0,
            button: 0,
            general: 0,
            menu: 0,
            other_tracks: 0,
            subtitle: 0,
            video: 0,
        };
        assert forall|t: TrackType| r.spec_get(t) == 0 by {}
        r
    }

    /// Read the counter of one category.
    pub fn get(&self, t: &TrackType) -> (r: usize)
        ensures
            r as int == self.spec_get(*t),
    {
        match t {
            TrackType::Audio => self.audio,
            TrackType::Button => self.button,
            TrackType::General => self.general,
            TrackType::Menu => self.menu,
            TrackType::Other => self.other_tracks,
            TrackType::Subtitle => self.subtitle,
            TrackType::Video => self.video,
        }
    }

    /// Add one to the counter of one category.
    pub fn increment(&mut self, t: &TrackType)
        requires
            old(self).spec_get(*t) < usize::MAX,
        ensures
            final(self).spec_get(*t) == old(self).spec_get(*t) + 1,
            forall|u: TrackType| u != *t ==> final(self).spec_get(u) == old(self).spec_get(u),
    {
        match t {
            TrackType::Audio => {
                self.audio = self.audio + 1;
            },
            TrackType::Button => {
                self.button = self.button + 1;
            },
            TrackType::General => {
                self.general = self.general + 1;
            },
            TrackType::Menu => {
                self.menu = self.menu + 1;
            },
            TrackType::Other => {
                self.other_tracks = self.other_tracks + 1;
            },
            TrackType::Subtitle => {
                self.subtitle = self.subtitle + 1;
            },
            TrackType::Video => {
                self.video = self.video + 1;
            },
        }
    }
}

/// The retention quota configured for a category, if any.
pub open spec fn quota_for(params: &UnifiedParams, t: TrackType) -> Option<usize> {
    match t {
        TrackType::Audio => params.audio_tracks.total_to_retain,
        TrackType::Subtitle => params.subtitle_tracks.total_to_retain,
        TrackType::Video => params.video_tracks.total_to_retain,
        _ => Option::None,
    }
}

/// Whether the category's predicate accepts a track.
pub open spec fn predicate_match_for(
    params: &UnifiedParams,
    t: TrackType,
    index: int,
    language: Seq<char>,
    title: Seq<char>,
) -> bool {
    match t {
        TrackType::Audio => track_predicate_match_spec(
            &params.audio_tracks.predicate,
            index,
            language,
            title,
        ),
        TrackType::Subtitle => track_predicate_match_spec(
            &params.subtitle_tracks.predicate,
            index,
            language,
            title,
        ),
        TrackType::Video => track_predicate_match_spec(
            &params.video_tracks.predicate,
            index,
            language,
            title,
        ),
        _ => false,
    }
}

/// Whether one track is kept, given how many tracks of its category are kept
/// already: general and menu tracks never; button and other tracks only when
/// explicitly enabled; audio, subtitle and video tracks when their quota is
/// not yet met and their predicate matches. Real tracks are numbered from
/// index 1, behind the general pseudo-track.
pub open spec fn keep_decision_spec(
    track: TrackView,
    index: int,
    count: int,
    params: &UnifiedParams,
) -> bool {
    match track.track_type {
        TrackType::General => false,
        TrackType::Menu => false,
        TrackType::Button => params.other_tracks.import_from_original,
        TrackType::Other => params.other_tracks.import_from_original,
        t => (match quota_for(params, t) {
            Option::Some(q) => count < q,
            Option::None => true,
        }) && predicate_match_for(params, t, index - 1, track.language, track.title),
    }
}

/// How many tracks of category `t` are kept among the first `i` tracks.
pub open spec fn kept_count(
    tracks: Seq<TrackView>,
    params: &UnifiedParams,
    t: TrackType,
    i: int,
) -> int
    decreases i, 0int,
{
    if i <= 0 {
        0
    } else {
        kept_count(tracks, params, t, i - 1) + (if spec_keep(tracks, params, i - 1)
            && tracks[i - 1].track_type == t {
            1int
        } else {
            0int
        })
    }
}

/// Whether track `i` is kept in the pass over the whole list.
pub open spec fn spec_keep(tracks: Seq<TrackView>, params: &UnifiedParams, i: int) -> bool
    decreases i, 1int,
{
    keep_decision_spec(
        tracks[i],
        i,
        kept_count(tracks, params, tracks[i].track_type, i),
        params,
    )
}

/// The tracks kept among the first `i`, in original order.
pub open spec fn kept_tracks_spec(
    tracks: Seq<TrackView>,
    params: &UnifiedParams,
    i: int,
) -> Seq<TrackView>
    decreases i, 2int,
{
    if i <= 0 {
        Seq::empty()
    } else {
        kept_tracks_spec(tracks, params, i - 1) + (if spec_keep(tracks, params, i - 1) {
            seq![tracks[i - 1]]
        } else {
            Seq::<TrackView>::empty()
        })
    }
}

/// Each category's kept count stays below its position bound.
pub proof fn lemma_kept_count_le(
    tracks: Seq<TrackView>,
    params: &UnifiedParams,
    t: TrackType,
    i: int,
)
    ensures
        0 <= kept_count(tracks, params, t, i) <= vstd::math::max(i, 0),
    decreases i,
{
    if i > 0 {
        lemma_kept_count_le(tracks, params, t, i - 1);
    }
}

/// Every configured quota is met exactly.
pub open spec fn targets_met_spec(counts: TrackCounts, params: &UnifiedParams) -> bool {
    (match params.audio_tracks.total_to_retain {
        Option::Some(q) => counts.audio == q,
        Option::None => true,
    }) && (match params.subtitle_tracks.total_to_retain {
        Option::Some(q) => counts.subtitle == q,
        Option::None => true,
    }) && (match params.video_tracks.total_to_retain {
        Option::Some(q) => counts.video == q,
        Option::None => true,
    })
}

/// The language a track ends up with after the default-language backfill.
pub open spec fn backfilled_language_spec(t: TrackView, params: &UnifiedParams) -> Seq<char> {
    if t.language == "und"@ {
        match t.track_type {
            TrackType::Audio => match params.audio_tracks.default_language {
                Option::Some(d) => d@,
                Option::None => t.language,
            },
            TrackType::Subtitle => match params.subtitle_tracks.default_language {
                Option::Some(d) => d@,
                Option::None => t.language,
            },
            TrackType::Video => match params.video_tracks.default_language {
                Option::Some(d) => d@,
                Option::None => t.language,
            },
            _ => t.language,
        }
    } else {
        t.language
    }
}

/// Whether an attachment survives extension filtering: its extension,
/// lowercased, is in the accepted list.
pub open spec fn attachment_ext_kept(path: Seq<char>, exts: Seq<Seq<char>>) -> bool {
    utils::has_extension_spec(path) && exts.contains(lower_of(utils::extension_spec(path)))
}

/// The attachments kept among the first `i` after extension filtering.
pub open spec fn kept_attachments_spec(
    paths: Seq<Seq<char>>,
    exts: Seq<Seq<char>>,
    i: int,
) -> Seq<Seq<char>>
    decreases i,
{
    if i <= 0 {
        Seq::empty()
    } else {
        kept_attachments_spec(paths, exts, i - 1) + (if attachment_ext_kept(paths[i - 1], exts) {
            seq![paths[i - 1]]
        } else {
            Seq::<Seq<char>>::empty()
        })
    }
}

/// One media file and everything the pipeline accumulates for it.
pub struct MediaFile {
    /// The unique sequential id for this file.
    pub id: usize,
    /// The input path to the media file.
    pub file_path: String,
    /// The output path for the modified media file.
    pub output_path: String,
    /// The data pertaining to the media file.
    pub media: MediaFileInfo,
    /// Any attachments that might be present in the media file.
    pub attachments: Vec<String>,
    /// How many tracks of each category have been kept.
    pub track_type_counter: TrackCounts,
    /// The accumulated arguments for muxing the output file.
    pub muxing_args: Vec<String>,
}

/// The demuxer arguments for the first `i` tracks: "id:name" for each.
pub open spec fn extract_tracks_args_spec(tracks: Seq<TrackView>, i: int) -> Seq<Seq<char>>
    decreases i,
{
    if i <= 0 {
        Seq::empty()
    } else {
        extract_tracks_args_spec(tracks, i - 1) + seq![
            dec_spec(tracks[i - 1].id as int) + ":"@ + out_file_name_spec(tracks[i - 1]),
        ]
    }
}

/// The demuxer arguments for the first `i` attachments: "index:name", with
/// indices starting at one.
pub open spec fn extract_attachments_args_spec(attachments: Seq<Seq<char>>, i: int) -> Seq<
    Seq<char>,
>
    decreases i,
{
    if i <= 0 {
        Seq::empty()
    } else {
        extract_attachments_args_spec(attachments, i - 1) + seq![
            dec_spec(i) + ":"@ + attachments[i - 1],
        ]
    }
}

/// The deep view of an optional list of strings.
pub open spec fn opt_deep_view(o: &Option<Vec<String>>) -> Option<Seq<Seq<char>>> {
    match o {
        Option::Some(v) => Option::Some(v.deep_view()),
        Option::None => Option::None,
    }
}

/// The muxing arguments contributed by one attachment candidate: nothing when
/// its name is empty, its extension does not match the accepted list, or its
/// file is missing; otherwise the name and path arguments. An absent or empty
/// accepted list accepts everything.
pub open spec fn attachment_args_spec(
    path: Seq<char>,
    exists: bool,
    accepted: Option<Seq<Seq<char>>>,
) -> Seq<Seq<char>> {
    let name = utils::file_name_spec(path);
    if name.len() == 0 {
        Seq::empty()
    } else {
        let exts = match accepted {
            Option::Some(l) => l,
            Option::None => Seq::<Seq<char>>::empty(),
        };
        let is_match = if utils::has_extension_spec(name) {
            exts.len() == 0 || exts.contains(lower_of(utils::extension_spec(name)))
        } else {
            exts.len() == 0
        };
        if is_match && exists {
            seq!["--attachment-name"@, name, "--attach-file"@, path]
        } else {
            Seq::empty()
        }
    }
}

/// The muxing arguments of the first `i` extracted attachments, each looked
/// for under "temp/attachments/".
pub open spec fn internal_attachment_args_spec(
    attachments: Seq<Seq<char>>,
    exists: Seq<bool>,
    temp: Seq<char>,
    params: &UnifiedParams,
    i: int,
) -> Seq<Seq<char>>
    decreases i,
{
    if i <= 0 {
        Seq::empty()
    } else {
        internal_attachment_args_spec(attachments, exists, temp, params, i - 1)
            + attachment_args_spec(
            temp + "/attachments/"@ + attachments[i - 1],
            exists[i - 1],
            opt_deep_view(&params.attachments.import_original_extensions),
        )
    }
}

/// The muxing arguments of the first `i` import-folder candidates.
pub open spec fn external_attachment_args_spec(
    candidates: Seq<(Seq<char>, bool)>,
    params: &UnifiedParams,
    i: int,
) -> Seq<Seq<char>>
    decreases i,
{
    if i <= 0 {
        Seq::empty()
    } else {
        external_attachment_args_spec(candidates, params, i - 1) + attachment_args_spec(
            candidates[i - 1].0,
            candidates[i - 1].1,
            opt_deep_view(&params.attachments.import_folder_extensions),
        )
    }
}

/// A non-empty attachment import folder is configured.
pub open spec fn import_folder_configured(params: &UnifiedParams) -> bool {
    match params.attachments.import_from_folder {
        Option::Some(d) => d@.len() > 0,
        Option::None => false,
    }
}

/// The path the exported chapters file would have for this file.
pub open spec fn chapters_path_spec(mf: &MediaFile, temp_base: Seq<char>) -> Seq<char> {
    utils::push_segment_spec(
        utils::push_segment_spec(
            utils::push_segment_spec(temp_base, dec_spec(mf.id as int)),
            "chapters"@,
        ),
        "chapters.xml"@,
    )
}

/// The chapter muxing arguments: always the chapter language, then either the
/// exported chapters file or, when enabled, generated chapters at the
/// configured interval.
pub open spec fn chapters_args_spec(
    params: &UnifiedParams,
    chapters_file_exists: bool,
    chapters_path: Seq<char>,
) -> Seq<Seq<char>> {
    seq!["--chapter-language"@, "en"@] + (if chapters_file_exists {
        seq!["--chapters"@, chapters_path]
    } else if params.chapters.create_if_not_present {
        seq![
            "--generate-chapters-name-template"@,
            "Chapter <NUM:2>"@,
            "--generate-chapters"@,
            "interval:"@ + (match params.chapters.create_interval {
                Option::Some(iv) => iv@,
                Option::None => "00:05:00.000000000"@,
            }),
        ]
    } else {
        Seq::<Seq<char>>::empty()
    })
}

/// The global-tags muxing arguments: present exactly when a tags file is
/// configured and exists.
pub open spec fn tags_args_spec(params: &UnifiedParams, tags_file_exists: bool) -> Seq<Seq<char>> {
    match params.misc.tags_path {
        Option::Some(p) => if tags_file_exists {
            seq!["--global-tags"@, p@]
        } else {
            Seq::<Seq<char>>::empty()
        },
        Option::None => Seq::<Seq<char>>::empty(),
    }
}

/// The first per-track parameter entry for a track position, if any.
pub open spec fn find_track_params(list: Seq<crate::unified::TrackParams>, id: int) -> Option<
    crate::unified::TrackParams,
>
    decreases list.len(),
{
    if list.len() == 0 {
        Option::None
    } else if list[0].id == id {
        Option::Some(list[0])
    } else {
        find_track_params(list.skip(1), id)
    }
}

/// The first delay override configured for a track position, if any.
pub open spec fn find_delay_override(list: Seq<crate::unified::TrackParams>, id: int) -> Option<
    i32,
>
    decreases list.len(),
{
    if list.len() == 0 {
        Option::None
    } else if list[0].id == id && list[0].delay_override is Some {
        Option::Some(list[0].delay_override->0)
    } else {
        find_delay_override(list.skip(1), id)
    }
}

/// "yes" or "no".
pub open spec fn yes_no_spec(b: bool) -> Seq<char> {
    if b {
        "yes"@
    } else {
        "no"@
    }
}

/// The first half of the per-track boolean flag arguments.
pub open spec fn flag_args_a_spec(tp: crate::unified::TrackParams, tt: TrackType) -> Seq<
    Seq<char>,
> {
    (match tp.default {
        Option::Some(b) => seq!["--default-track-flag"@, "0:"@ + yes_no_spec(b)],
        Option::None => Seq::<Seq<char>>::empty(),
    }) + (match tp.enabled {
        Option::Some(b) => seq!["--track-enabled-flag"@, "0:"@ + yes_no_spec(b)],
        Option::None => Seq::<Seq<char>>::empty(),
    }) + (match tp.forced {
        Option::Some(b) => if tt == TrackType::Subtitle {
            seq!["--forced-display-flag"@, "0:"@ + yes_no_spec(b)]
        } else {
            Seq::<Seq<char>>::empty()
        },
        Option::None => Seq::<Seq<char>>::empty(),
    }) + (match tp.hearing_impaired {
        Option::Some(b) => if tt == TrackType::Audio {
            seq!["--hearing-impaired-flag"@, "0:"@ + yes_no_spec(b)]
        } else {
            Seq::<Seq<char>>::empty()
        },
        Option::None => Seq::<Seq<char>>::empty(),
    })
}

/// The second half of the per-track boolean flag arguments.
pub open spec fn flag_args_b_spec(tp: crate::unified::TrackParams, tt: TrackType) -> Seq<
    Seq<char>,
> {
    (match tp.visual_impaired {
        Option::Some(b) => if tt == TrackType::Audio {
            seq!["--visual-impaired-flag"@, "0:"@ + yes_no_spec(b)]
        } else {
            Seq::<Seq<char>>::empty()
        },
        Option::None => Seq::<Seq<char>>::empty(),
    }) + (match tp.text_descriptions {
        Option::Some(b) => if tt == TrackType::Subtitle {
            seq!["--text-descriptions-flag"@, "0:"@ + yes_no_spec(b)]
        } else {
            Seq::<Seq<char>>::empty()
        },
        Option::None => Seq::<Seq<char>>::empty(),
    }) + (match tp.original {
        Option::Some(b) => seq!["--original-flag"@, "0:"@ + yes_no_spec(b)],
        Option::None => Seq::<Seq<char>>::empty(),
    }) + (match tp.commentary {
        Option::Some(b) => if tt == TrackType::Audio || tt == TrackType::Subtitle {
            seq!["--commentary-flag"@, "0:"@ + yes_no_spec(b)]
        } else {
            Seq::<Seq<char>>::empty()
        },
        Option::None => Seq::<Seq<char>>::empty(),
    })
}

/// The per-track boolean flag arguments: each configured flag is emitted when
/// the track's category supports it and silently dropped otherwise. The
/// forced and text-descriptions flags belong to subtitle tracks, the
/// hearing-impaired and visually-impaired flags to audio tracks, commentary
/// to audio and subtitle tracks, and default, enabled and original to every
/// category.
pub open spec fn additional_track_args_spec(
    track: TrackView,
    track_id: int,
    params: &UnifiedParams,
) -> Seq<Seq<char>> {
    match params.track_params {
        Option::None => Seq::empty(),
        Option::Some(tps) => match find_track_params(tps@, track_id) {
            Option::None => Seq::empty(),
            Option::Some(tp) => flag_args_a_spec(tp, track.track_type) + flag_args_b_spec(
                tp,
                track.track_type,
            ),
        },
    }
}

/// The delay a track is muxed with, after any configured override.
pub open spec fn effective_delay(track: TrackView, index: int, params: &UnifiedParams) -> i32 {
    match params.track_params {
        Option::Some(tps) => match find_delay_override(tps@, index) {
            Option::Some(d) => d,
            Option::None => track.delay,
        },
        Option::None => track.delay,
    }
}

/// The delay source used for muxing: a delay override promotes an absent
/// source to the container.
pub open spec fn effective_delay_source(
    track: TrackView,
    index: int,
    params: &UnifiedParams,
) -> DelaySource {
    let has_override = match params.track_params {
        Option::Some(tps) => find_delay_override(tps@, index) is Some,
        Option::None => false,
    };
    if has_override && track.delay_source == DelaySource::Absent {
        DelaySource::Container
    } else {
        track.delay_source
    }
}

/// No track needs a delay relative to its stream, which muxing does not
/// support.
pub open spec fn mux_delays_wf(tracks: Seq<TrackView>, params: &UnifiedParams) -> bool {
    forall|i: int|
        0 <= i < tracks.len() ==> !(effective_delay(#[trigger] tracks[i], i, params) != 0
            && effective_delay_source(tracks[i], i, params) == DelaySource::Stream)
}

/// The muxing arguments of one track: its effective delay — the configured
/// override when there is one — when one applies, its dimensions and bit
/// depth when set, its flag overrides, its language — video tracks are always
/// muxed as undefined — and its extracted file.
pub open spec fn track_mux_args_spec(
    track: TrackView,
    index: int,
    params: &UnifiedParams,
) -> Seq<Seq<char>> {
    (if effective_delay(track, index, params) != 0 && effective_delay_source(track, index, params)
        == DelaySource::Container {
        seq!["--sync"@, "0:"@ + strutil::int_dec_spec(effective_delay(track, index, params) as int)]
    } else {
        Seq::<Seq<char>>::empty()
    }) + (if track.width != 0 && track.height != 0 {
        seq![
            "--display-dimensions"@,
            "0:"@ + dec_spec(track.width as int) + "x"@ + dec_spec(track.height as int),
        ]
    } else {
        Seq::<Seq<char>>::empty()
    }) + (if track.bit_depth != 0 {
        seq!["--color-bits-per-channel"@, "0:"@ + dec_spec(track.bit_depth as int)]
    } else {
        Seq::<Seq<char>>::empty()
    }) + additional_track_args_spec(track, index, params) + seq![
        "--language"@,
        if track.track_type == TrackType::Video {
            "0:und"@
        } else {
            "0:"@ + track.language
        },
    ] + seq!["./tracks/"@ + out_file_name_spec(track)]
}

/// The muxing arguments of the first `i` tracks.
pub open spec fn all_track_mux_args_spec(
    tracks: Seq<TrackView>,
    params: &UnifiedParams,
    i: int,
) -> Seq<Seq<char>>
    decreases i,
{
    if i <= 0 {
        Seq::empty()
    } else {
        all_track_mux_args_spec(tracks, params, i - 1) + track_mux_args_spec(
            tracks[i - 1],
            i - 1,
            params,
        )
    }
}

/// The track-order argument value: "0:0,1:0,...", one entry per kept track.
pub open spec fn track_order_spec(n: int) -> Seq<char>
    decreases n,
{
    if n <= 0 {
        Seq::empty()
    } else if n == 1 {
        dec_spec(0) + ":0"@
    } else {
        track_order_spec(n - 1) + ","@ + dec_spec(n - 1) + ":0"@
    }
}

/// The parts of a media file that appending muxing arguments leaves alone.
pub open spec fn same_except_mux_args(a: &MediaFile, b: &MediaFile) -> bool {
    a.id == b.id && a.file_path@ == b.file_path@ && a.output_path@ == b.output_path@
        && a.media.tracks.deep_view() == b.media.tracks.deep_view() && a.attachments.deep_view()
        == b.attachments.deep_view() && a.track_type_counter == b.track_type_counter
}

/// Find the first per-track parameter entry for a track position.
fn find_track_params_exec(list: &Vec<crate::unified::TrackParams>, id: usize) -> (r: Option<
    crate::unified::TrackParams,
>)
    ensures
        r == find_track_params(list@, id as int),
{
    let count = list.len();
    let mut i: usize = 0;
    assert(list@.skip(0) =~= list@);
    while i < count
        invariant
            count == list@.len(),
            i <= count,
            find_track_params(list@, id as int) == find_track_params(
                list@.skip(i as int),
                id as int,
            ),
        decreases count - i,
    {
        let ghost suffix = list@.skip(i as int);
        assert(suffix[0] == list@[i as int]);
        if list[i].id == id {
            return Some(list[i]);
        }
        assert(suffix.skip(1) =~= list@.skip(i + 1));
        i = i + 1;
    }
    assert(list@.skip(count as int) =~= Seq::<crate::unified::TrackParams>::empty());
    None
}

/// Find the first delay override configured for a track position.
fn find_delay_override_exec(list: &Vec<crate::unified::TrackParams>, id: usize) -> (r: Option<i32>)
    ensures
        r == find_delay_override(list@, id as int),
{
    let count = list.len();
    let mut i: usize = 0;
    assert(list@.skip(0) =~= list@);
    while i < count
        invariant
            count == list@.len(),
            i <= count,
            find_delay_override(list@, id as int) == find_delay_override(
                list@.skip(i as int),
                id as int,
            ),
        decreases count - i,
    {
        let ghost suffix = list@.skip(i as int);
        assert(suffix[0] == list@[i as int]);
        if list[i].id == id {
            if let Some(d) = list[i].delay_override {
                return Some(d);
            }
        }
        assert(suffix.skip(1) =~= list@.skip(i + 1));
        i = i + 1;
    }
    assert(list@.skip(count as int) =~= Seq::<crate::unified::TrackParams>::empty());
    None
}

/// The whole muxing argument list assembled for one file.
pub open spec fn remux_args_spec(
    mf: &MediaFile,
    out_path: Seq<char>,
    title: Seq<char>,
    params: &UnifiedParams,
    temp_base: Seq<char>,
    chapters_file_exists: bool,
    tags_file_exists: bool,
    internal_exists: Seq<bool>,
    external_candidates: Seq<(Seq<char>, bool)>,
) -> Seq<Seq<char>> {
    seq!["-o"@, out_path] + (if params.misc.set_file_title == Option::<bool>::Some(true) {
        seq!["--title"@, title]
    } else {
        Seq::<Seq<char>>::empty()
    }) + all_track_mux_args_spec(mf.media.tracks.deep_view(), params, mf.media.tracks@.len() as int)
        + (if params.attachments.import_from_original {
        internal_attachment_args_spec(
            mf.attachments.deep_view(),
            internal_exists,
            utils::push_segment_spec(temp_base, dec_spec(mf.id as int)),
            params,
            mf.attachments@.len() as int,
        )
    } else {
        Seq::<Seq<char>>::empty()
    }) + (if import_folder_configured(params) {
        external_attachment_args_spec(external_candidates, params, external_candidates.len() as int)
    } else {
        Seq::<Seq<char>>::empty()
    }) + (if params.chapters.import_from_original || params.chapters.create_if_not_present {
        chapters_args_spec(params, chapters_file_exists, chapters_path_spec(mf, temp_base))
    } else {
        Seq::<Seq<char>>::empty()
    }) + tags_args_spec(params, tags_file_exists) + seq![
        "--track-order"@,
        track_order_spec(mf.media.tracks@.len() as int),
    ]
}

/// One token-substituted hook argument.
pub open spec fn subst_one_spec(
    arg: Seq<char>,
    input: Seq<char>,
    output: Seq<char>,
    temp: Seq<char>,
) -> Seq<char> {
    strutil::replace_all_spec(
        strutil::replace_all_spec(
            strutil::replace_all_spec(
                strutil::replace_all_spec(arg, "%i%"@, input),
                "%o%"@,
                output,
            ),
            "%t%"@,
            temp,
        ),
        "%log%"@,
        Seq::<char>::empty(),
    )
}

/// The substituted hook arguments among the first `i` elements; element 0 is
/// the program path and is not an argument. When logging is inactive,
/// arguments holding the log token are dropped.
pub open spec fn prepared_args_spec(
    args: Seq<Seq<char>>,
    input: Seq<char>,
    output: Seq<char>,
    temp: Seq<char>,
    logging: bool,
    i: int,
) -> Seq<Seq<char>>
    decreases i,
{
    if i <= 1 {
        Seq::empty()
    } else {
        prepared_args_spec(args, input, output, temp, logging, i - 1) + (if !logging
            && strutil::contains_seq(args[i - 1], "%log%"@) {
            Seq::<Seq<char>>::empty()
        } else {
            seq![subst_one_spec(args[i - 1], input, output, temp)]
        })
    }
}

/// Whether a hook command belongs to a stage.
pub open spec fn is_stage_spec(p: &crate::unified::ProcessRun, stage: RunCommandType) -> bool {
    match p {
        crate::unified::ProcessRun::PreConvert(_) => stage == RunCommandType::PreConvert,
        crate::unified::ProcessRun::PostConvert(_) => stage == RunCommandType::PostConvert,
        crate::unified::ProcessRun::PreMux(_) => stage == RunCommandType::PreMux,
        crate::unified::ProcessRun::PostMux(_) => stage == RunCommandType::PostMux,
    }
}

/// The argument list a hook command carries.
pub open spec fn command_args_spec(p: &crate::unified::ProcessRun) -> Seq<Seq<char>> {
    match p {
        crate::unified::ProcessRun::PreConvert(a) => a.deep_view(),
        crate::unified::ProcessRun::PostConvert(a) => a.deep_view(),
        crate::unified::ProcessRun::PreMux(a) => a.deep_view(),
        crate::unified::ProcessRun::PostMux(a) => a.deep_view(),
    }
}

/// The hook commands of one stage among the first `i` configured commands.
pub open spec fn stage_commands_spec(
    run: Seq<crate::unified::ProcessRun>,
    stage: RunCommandType,
    i: int,
) -> Seq<Seq<Seq<char>>>
    decreases i,
{
    if i <= 0 {
        Seq::empty()
    } else {
        stage_commands_spec(run, stage, i - 1) + (if is_stage_spec(&run[i - 1], stage) {
            seq![command_args_spec(&run[i - 1])]
        } else {
            Seq::<Seq<Seq<char>>>::empty()
        })
    }
}

/// The hook commands configured for one stage, in configuration order.
pub fn stage_commands(params: &UnifiedParams, run_type: RunCommandType) -> (r: Vec<Vec<String>>)
    ensures
        r.deep_view() == (match params.misc.run {
            Option::Some(cmds) => stage_commands_spec(cmds@, run_type, cmds@.len() as int),
            Option::None => Seq::<Seq<Seq<char>>>::empty(),
        }),
{
    let run = match &params.misc.run {
        Some(r) => r,
        None => {
            let empty_cmds: Vec<Vec<String>> = Vec::new();
            assert(empty_cmds.deep_view() =~= Seq::<Seq<Seq<char>>>::empty());
            return empty_cmds;
        },
    };
    let count = run.len();
    let mut out: Vec<Vec<String>> = Vec::new();
    let mut i: usize = 0;
    assert(out.deep_view() =~= stage_commands_spec(run@, run_type, 0));
    while i < count
        invariant
            count == run@.len(),
            i <= count,
            out.deep_view() == stage_commands_spec(run@, run_type, i as int),
        decreases count - i,
    {
        let matches_stage = match &run[i] {
            crate::unified::ProcessRun::PreConvert(_) => matches!(
                run_type,
                RunCommandType::PreConvert
            ),
            crate::unified::ProcessRun::PostConvert(_) => matches!(
                run_type,
                RunCommandType::PostConvert
            ),
            crate::unified::ProcessRun::PreMux(_) => matches!(run_type, RunCommandType::PreMux),
            crate::unified::ProcessRun::PostMux(_) => matches!(run_type, RunCommandType::PostMux),
        };
        if matches_stage {
            let args = match &run[i] {
                crate::unified::ProcessRun::PreConvert(a) => clone_string_vec(a),
                crate::unified::ProcessRun::PostConvert(a) => clone_string_vec(a),
                crate::unified::ProcessRun::PreMux(a) => clone_string_vec(a),
                crate::unified::ProcessRun::PostMux(a) => clone_string_vec(a),
            };
            out.push(args);
            assert(out.deep_view().last() =~= command_args_spec(&run@[i as int]));
        }
        assert(out.deep_view() =~= stage_commands_spec(run@, run_type, i + 1));
        i = i + 1;
    }
    out
}

/// One planned audio conversion: which track, the encoder input and output
/// paths, the rename applied first when they collide, and the encoder
/// arguments.
pub struct AudioConversionJob {
    /// The position of the track in the kept track list.
    pub track_index: usize,
    /// The path handed to the encoder as input.
    pub in_path: String,
    /// The path the encoder writes.
    pub out_path: String,
    /// When set, the extracted file at this path must first be renamed to the
    /// input path.
    pub renamed_from: Option<String>,
    /// The encoder argument list.
    pub ffmpeg_args: Vec<String>,
}

/// The mathematical value of one planned audio conversion.
pub ghost struct AudioJobView {
    pub track_index: usize,
    pub in_path: Seq<char>,
    pub out_path: Seq<char>,
    pub renamed_from: Option<Seq<char>>,
    pub ffmpeg_args: Seq<Seq<char>>,
}

impl View for AudioConversionJob {
    type V = AudioJobView;

    open spec fn view(&self) -> AudioJobView {
        AudioJobView {
            track_index: self.track_index,
            in_path: self.in_path@,
            out_path: self.out_path@,
            renamed_from: match self.renamed_from {
                Option::Some(p) => Option::Some(p@),
                Option::None => Option::None,
            },
            ffmpeg_args: self.ffmpeg_args.deep_view(),
        }
    }
}

impl DeepView for AudioConversionJob {
    type V = AudioJobView;

    open spec fn deep_view(&self) -> AudioJobView {
        self.view()
    }
}

/// The planned conversion of one audio track.
pub open spec fn audio_job_spec(
    track: MediaFileTrack,
    index: int,
    params: &crate::audio::AudioConvertParams,
    out_codec: Codec,
    temp: Seq<char>,
) -> AudioJobView {
    let in0 = input_file_path_spec(track@, temp);
    let out = utils::swap_extension_spec(in0, extension_of_codec_spec(out_codec));
    if in0 == out {
        let moved_name = "moved"@ + dec_spec(track.id as int) + "."@ + extension_of_codec_spec(
            out_codec,
        );
        let moved = strutil::replace_all_spec(in0, out_file_name_spec(track@), moved_name);
        AudioJobView {
            track_index: index as usize,
            in_path: moved,
            out_path: out,
            renamed_from: Option::Some(in0),
            ffmpeg_args: crate::audio::audio_args_spec(params, &track, moved, out),
        }
    } else {
        AudioJobView {
            track_index: index as usize,
            in_path: in0,
            out_path: out,
            renamed_from: Option::None,
            ffmpeg_args: crate::audio::audio_args_spec(params, &track, in0, out),
        }
    }
}

/// The planned conversions of the audio tracks among the first `i` tracks.
pub open spec fn audio_jobs_spec(
    tracks: Seq<MediaFileTrack>,
    params: &crate::audio::AudioConvertParams,
    out_codec: Codec,
    temp: Seq<char>,
    i: int,
) -> Seq<AudioJobView>
    decreases i,
{
    if i <= 0 {
        Seq::empty()
    } else {
        audio_jobs_spec(tracks, params, out_codec, temp, i - 1) + (if tracks[i - 1].track_type
            == TrackType::Audio {
            seq![audio_job_spec(tracks[i - 1], i - 1, params, out_codec, temp)]
        } else {
            Seq::<AudioJobView>::empty()
        })
    }
}

/// Whether any of the first `i` tracks is an audio track.
pub open spec fn has_audio_track(tracks: Seq<MediaFileTrack>, i: int) -> bool {
    exists|k: int| 0 <= k < i && tracks[k].track_type == TrackType::Audio
}

/// The stages of processing one file, in order; a hard failure leads to the
/// Failed stage — after cleanup, for a failed remux — and success through
/// cleanup to Succeeded.
#[derive(Clone, Copy, Debug, PartialEq, Eq, Structural)]
pub enum ProcessStage {
    /// Filter attachments, backfill languages and filter tracks.
    Filtering,
    /// Extract tracks, attachments and chapters.
    Extracting,
    /// Run the hook commands attached before conversion.
    PreConvertCommands,
    /// Convert the audio tracks to the configured codec.
    ConvertingAudio,
    /// Run the hook commands attached after conversion.
    PostConvertCommands,
    /// Run the hook commands attached before muxing.
    PreMuxCommands,
    /// Reassemble the output container.
    Remuxing,
    /// Run the hook commands attached after muxing.
    PostMuxCommands,
    /// Remove the temporary files as configured.
    Cleanup,
    /// Remove the temporary files after a failed remux; the file still fails.
    CleanupAfterFailure,
    /// The file was processed.
    Succeeded,
    /// The file failed and the batch stops by default.
    Failed,
}

/// The stage that follows `current` when it ended with `success`.
pub open spec fn next_stage_spec(current: ProcessStage, success: bool) -> ProcessStage {
    match current {
        ProcessStage::Filtering => if success {
            ProcessStage::Extracting
        } else {
            ProcessStage::Failed
        },
        ProcessStage::Extracting => if success {
            ProcessStage::PreConvertCommands
        } else {
            ProcessStage::Failed
        },
        ProcessStage::PreConvertCommands => ProcessStage::ConvertingAudio,
        ProcessStage::ConvertingAudio => if success {
            ProcessStage::PostConvertCommands
        } else {
            ProcessStage::Failed
        },
        ProcessStage::PostConvertCommands => ProcessStage::PreMuxCommands,
        ProcessStage::PreMuxCommands => ProcessStage::Remuxing,
        ProcessStage::Remuxing => if success {
            ProcessStage::PostMuxCommands
        } else {
            ProcessStage::CleanupAfterFailure
        },
        ProcessStage::PostMuxCommands => ProcessStage::Cleanup,
        ProcessStage::Cleanup => ProcessStage::Succeeded,
        ProcessStage::CleanupAfterFailure => ProcessStage::Failed,
        ProcessStage::Succeeded => ProcessStage::Succeeded,
        ProcessStage::Failed => ProcessStage::Failed,
    }
}

/// The parts of a media file that track filtering and backfill leave alone.
pub open spec fn same_except_media(a: &MediaFile, b: &MediaFile) -> bool {
    a.id == b.id && a.file_path@ == b.file_path@ && a.output_path@ == b.output_path@
        && a.attachments.deep_view() == b.attachments.deep_view() && a.track_type_counter
        == b.track_type_counter && a.muxing_args.deep_view() == b.muxing_args.deep_view()
}

impl MediaFile {
    /// Apply default track languages: for each category with a configured
    /// default, every track of that category whose language is the "und"
    /// sentinel is rewritten to the default.
    pub fn apply_track_language_defaults(&mut self, params: &UnifiedParams)
        ensures
            same_except_media(final(self), old(self)),
            final(self).media.tracks@.len() == old(self).media.tracks@.len(),
            forall|i: int|
                0 <= i < old(self).media.tracks@.len()
                    ==> #[trigger] final(self).media.tracks.deep_view()[i] == (TrackView {
                    language: backfilled_language_spec(
                        old(self).media.tracks.deep_view()[i],
                        params,
                    ),
                    ..old(self).media.tracks.deep_view()[i]
                }),
    {
        let count = self.media.tracks.len();
        let mut i: usize = 0;
        while i < count
            invariant
                same_except_media(self, old(self)),
                count == self.media.tracks@.len(),
                count == old(self).media.tracks@.len(),
                i <= count,
                forall|k: int|
                    i <= k < count ==> #[trigger] self.media.tracks.deep_view()[k]
                        == old(self).media.tracks.deep_view()[k],
                forall|k: int|
                    0 <= k < i ==> #[trigger] self.media.tracks.deep_view()[k] == (TrackView {
                        language: backfilled_language_spec(
                            old(self).media.tracks.deep_view()[k],
                            params,
                        ),
                        ..old(self).media.tracks.deep_view()[k]
                    }),
            decreases count - i,
        {
            let ghost dv_before = self.media.tracks.deep_view();
            let ghost pre = dv_before[i as int];
            let is_und = str_eq(self.media.tracks[i].language.as_str(), "und");
            if is_und {
                let default_language: &Option<String> = match self.media.tracks[i].track_type {
                    TrackType::Audio => &params.audio_tracks.default_language,
                    TrackType::Subtitle => &params.subtitle_tracks.default_language,
                    TrackType::Video => &params.video_tracks.default_language,
                    _ => &Option::None,
                };
                if let Some(d) = default_language {
                    let updated = self.media.tracks[i].with_language(d.clone());
                    self.media.tracks.set(i, updated);
                }
            }
            proof {
                assert forall|k: int| 0 <= k < count && k != i as int implies #[trigger] self
                    .media.tracks.deep_view()[k] == dv_before[k] by {
                    assert(self.media.tracks.deep_view()[k] == self.media.tracks@[k].deep_view());
                }
                assert(self.media.tracks.deep_view()[i as int] == (TrackView {
                    language: backfilled_language_spec(pre, params),
                    ..pre
                }));
            }
            i = i + 1;
        }
    }

    /// Filter the attachments imported from the original file: when a
    /// non-empty extension list is configured, only attachments whose
    /// lowercased extension is in the list stay. An absent or empty list, or
    /// no attachments, leaves the list alone.
    pub fn filter_internal_attachments(&mut self, params: &UnifiedParams)
        ensures
            final(self).id == old(self).id,
            final(self).file_path@ == old(self).file_path@,
            final(self).output_path@ == old(self).output_path@,
            final(self).media.tracks.deep_view() == old(self).media.tracks.deep_view(),
            final(self).track_type_counter == old(self).track_type_counter,
            final(self).muxing_args.deep_view() == old(self).muxing_args.deep_view(),
            (match params.attachments.import_original_extensions {
                Option::Some(exts) => (if old(self).attachments@.len() == 0 || exts@.len() == 0 {
                    final(self).attachments.deep_view() == old(self).attachments.deep_view()
                } else {
                    final(self).attachments.deep_view() == kept_attachments_spec(
                        old(self).attachments.deep_view(),
                        exts.deep_view(),
                        old(self).attachments@.len() as int,
                    )
                }),
                Option::None => final(self).attachments.deep_view()
                    == old(self).attachments.deep_view(),
            }),
    {
        if self.attachments.len() == 0 {
            return ;
        }
        let retain_extensions: &Vec<String> = match &params.attachments.import_original_extensions {
            Some(exts) => exts,
            None => {
                return ;
            },
        };
        if retain_extensions.len() == 0 {
            return ;
        }
        let count = self.attachments.len();
        let mut kept: Vec<String> = Vec::new();
        let mut i: usize = 0;
        while i < count
            invariant
                count == self.attachments@.len(),
                i <= count,
                retain_extensions@.len() > 0,
                kept.deep_view() == kept_attachments_spec(
                    self.attachments.deep_view(),
                    retain_extensions.deep_view(),
                    i as int,
                ),
            decreases count - i,
        {
            let ghost path = self.attachments.deep_view()[i as int];
            let keep = match utils::get_file_extension(self.attachments[i].as_str()) {
                Some(ext) => strutil::string_list_contains(retain_extensions, ext.as_str()),
                None => false,
            };
            if keep {
                kept.push(self.attachments[i].clone());
            }
            assert(kept.deep_view() =~= kept_attachments_spec(
                self.attachments.deep_view(),
                retain_extensions.deep_view(),
                i + 1,
            ));
            i = i + 1;
        }
        self.attachments = kept;
    }

    /// Check whether a given track should be kept in the final file.
    pub fn should_keep_track(
        &self,
        track_type: &TrackType,
        index: usize,
        params: &UnifiedParams,
    ) -> (r: bool)
        requires
            params.wf(),
            index < self.media.tracks@.len(),
            *track_type == self.media.tracks@[index as int].track_type,
            (*track_type == TrackType::Audio || *track_type == TrackType::Subtitle || *track_type
                == TrackType::Video) ==> index >= 1,
        ensures
            r == keep_decision_spec(
                self.media.tracks.deep_view()[index as int],
                index as int,
                self.track_type_counter.spec_get(*track_type),
                params,
            ),
    {
        // Certain categories are decided by type alone.
        if matches!(track_type, TrackType::General | TrackType::Menu) {
            return false;
        } else if matches!(track_type, TrackType::Button | TrackType::Other) {
            // These tracks are only kept when the relevant flag is set.
            return params.other_tracks.import_from_original;
        }
        let predicate: &TrackPredicate = match track_type {
            TrackType::Audio => &params.audio_tracks.predicate,
            TrackType::Subtitle => &params.subtitle_tracks.predicate,
            _ => &params.video_tracks.predicate,
        };
        let tracks_to_retain: &Option<usize> = match track_type {
            TrackType::Audio => &params.audio_tracks.total_to_retain,
            TrackType::Subtitle => &params.subtitle_tracks.total_to_retain,
            _ => &params.video_tracks.total_to_retain,
        };

        // Is a track limiter in place, and has the category met its target?
        if let Some(target) = tracks_to_retain {
            let retained = self.track_type_counter.get(track_type);
            if retained >= *target {
                return false;
            }
        }
        let track = &self.media.tracks[index];
        assert(track@ == self.media.tracks.deep_view()[index as int]);
        match predicate {
            TrackPredicate::Index(p) => p.is_match(index - 1),
            TrackPredicate::Language(p) => p.is_match(track.language.as_str()),
            TrackPredicate::Title(p) => p.is_match(track.title.as_str()),
            TrackPredicate::Any => true,
        }
    }

    /// Filter the media file tracks: keep each track that its category's
    /// predicate and quota admit, counting per category, then check that every
    /// configured quota was met exactly. On success the kept tracks replace
    /// the track list; on failure the track list stays.
    pub fn filter_tracks(&mut self, params: &UnifiedParams) -> (r: bool)
        requires
            params.wf(),
            old(self).track_type_counter.spec_all_zero(),
            old(self).media.tracks@.len() > 0 ==> !(old(self).media.tracks@[0].track_type
                == TrackType::Audio || old(self).media.tracks@[0].track_type
                == TrackType::Subtitle || old(self).media.tracks@[0].track_type
                == TrackType::Video),
        ensures
            final(self).id == old(self).id,
            final(self).file_path@ == old(self).file_path@,
            final(self).output_path@ == old(self).output_path@,
            final(self).attachments.deep_view() == old(self).attachments.deep_view(),
            final(self).muxing_args.deep_view() == old(self).muxing_args.deep_view(),
            forall|t: TrackType|
                final(self).track_type_counter.spec_get(t) == kept_count(
                    old(self).media.tracks.deep_view(),
                    params,
                    t,
                    old(self).media.tracks@.len() as int,
                ),
            r == targets_met_spec(final(self).track_type_counter, params),
            r ==> final(self).media.tracks.deep_view() == kept_tracks_spec(
                old(self).media.tracks.deep_view(),
                params,
                old(self).media.tracks@.len() as int,
            ),
            !r ==> final(self).media.tracks.deep_view() == old(self).media.tracks.deep_view(),
    {
        let ghost tv = self.media.tracks.deep_view();
        let count = self.media.tracks.len();
        let mut kept: Vec<MediaFileTrack> = Vec::new();
        let mut i: usize = 0;
        while i < count
            invariant
                params.wf(),
                *self == (MediaFile { track_type_counter: self.track_type_counter, ..*old(self) }),
                tv == self.media.tracks.deep_view(),
                count == self.media.tracks@.len(),
                i <= count,
                forall|k: int|
                    0 <= k < count ==> !(#[trigger] tv[k].track_type == TrackType::Audio
                        || tv[k].track_type == TrackType::Subtitle || tv[k].track_type
                        == TrackType::Video) || k >= 1,
                forall|t: TrackType| self.track_type_counter.spec_get(t) == kept_count(
                    tv,
                    params,
                    t,
                    i as int,
                ),
                kept.deep_view() == kept_tracks_spec(tv, params, i as int),
            decreases count - i,
        {
            let track_type = self.media.tracks[i].track_type;
            assert(track_type == tv[i as int].track_type);
            if self.should_keep_track(&track_type, i, params) {
                let dup = self.media.tracks[i].duplicate();
                kept.push(dup);
                proof {
                    lemma_kept_count_le(tv, params, track_type, i as int);
                }
                self.track_type_counter.increment(&track_type);
            }
            proof {
                assert forall|t: TrackType| self.track_type_counter.spec_get(t) == kept_count(
                    tv,
                    params,
                    t,
                    i + 1,
                ) by {
                    assert(kept_count(tv, params, t, i + 1) == kept_count(tv, params, t, i as int)
                        + (if spec_keep(tv, params, i as int) && tv[i as int].track_type == t {
                        1int
                    } else {
                        0int
                    }));
                }
                assert(kept.deep_view() =~= kept_tracks_spec(tv, params, i + 1));
            }
            i = i + 1;
        }
        if !self.validate_filter_targets(params) {
            return false;
        }
        self.media.tracks = kept;
        true
    }

    /// Apply the per-track flag arguments of one track, by position.
    pub fn apply_additional_track_mux_params(&mut self, track_id: usize, params: &UnifiedParams)
        requires
            track_id < old(self).media.tracks@.len(),
        ensures
            same_except_mux_args(final(self), old(self)),
            final(self).muxing_args.deep_view() == old(self).muxing_args.deep_view()
                + additional_track_args_spec(
                old(self).media.tracks.deep_view()[track_id as int],
                track_id as int,
                params,
            ),
    {
        let ghost pre = self.muxing_args.deep_view();
        let ghost tview = self.media.tracks.deep_view()[track_id as int];
        let all_track_params = match &params.track_params {
            Some(tps) => tps,
            None => {
                assert(pre + additional_track_args_spec(tview, track_id as int, params) =~= pre);
                return ;
            },
        };
        let track_params = match find_track_params_exec(all_track_params, track_id) {
            Some(tp) => tp,
            None => {
                assert(pre + additional_track_args_spec(tview, track_id as int, params) =~= pre);
                return ;
            },
        };
        let track_type = self.media.tracks[track_id].track_type;
        assert(track_type == tview.track_type);
        self.apply_flag_args_a(track_params, track_type);
        self.apply_flag_args_b(track_params, track_type);
        assert(self.muxing_args.deep_view() =~= pre + additional_track_args_spec(
            tview,
            track_id as int,
            params,
        ));
    }

    /// Apply the first half of the per-track flag arguments.
    fn apply_flag_args_a(&mut self, tp: crate::unified::TrackParams, tt: TrackType)
        ensures
            same_except_mux_args(final(self), old(self)),
            final(self).muxing_args.deep_view() == old(self).muxing_args.deep_view()
                + flag_args_a_spec(tp, tt),
    {
        let ghost pre = self.muxing_args.deep_view();
        let ghost mut acc = pre;
        if let Some(b) = tp.default {
            self.muxing_args.push("--default-track-flag".to_owned());
            self.push_flag_value(b);
        }
        proof {
            acc = acc + (match tp.default {
                Option::Some(b) => seq!["--default-track-flag"@, "0:"@ + yes_no_spec(b)],
                Option::None => Seq::<Seq<char>>::empty(),
            });
            assert(self.muxing_args.deep_view() =~= acc);
        }
        if let Some(b) = tp.enabled {
            self.muxing_args.push("--track-enabled-flag".to_owned());
            self.push_flag_value(b);
        }
        proof {
            acc = acc + (match tp.enabled {
                Option::Some(b) => seq!["--track-enabled-flag"@, "0:"@ + yes_no_spec(b)],
                Option::None => Seq::<Seq<char>>::empty(),
            });
            assert(self.muxing_args.deep_view() =~= acc);
        }
        if let Some(b) = tp.forced {
            if matches!(tt, TrackType::Subtitle) {
                self.muxing_args.push("--forced-display-flag".to_owned());
                self.push_flag_value(b);
            }
        }
        proof {
            acc = acc + (match tp.forced {
                Option::Some(b) => if tt == TrackType::Subtitle {
                    seq!["--forced-display-flag"@, "0:"@ + yes_no_spec(b)]
                } else {
                    Seq::<Seq<char>>::empty()
                },
                Option::None => Seq::<Seq<char>>::empty(),
            });
            assert(self.muxing_args.deep_view() =~= acc);
        }
        if let Some(b) = tp.hearing_impaired {
            if matches!(tt, TrackType::Audio) {
                self.muxing_args.push("--hearing-impaired-flag".to_owned());
                self.push_flag_value(b);
            }
        }
        proof {
            acc = acc + (match tp.hearing_impaired {
                Option::Some(b) => if tt == TrackType::Audio {
                    seq!["--hearing-impaired-flag"@, "0:"@ + yes_no_spec(b)]
                } else {
                    Seq::<Seq<char>>::empty()
                },
                Option::None => Seq::<Seq<char>>::empty(),
            });
            assert(self.muxing_args.deep_view() =~= acc);
        }
        assert(self.muxing_args.deep_view() =~= pre + flag_args_a_spec(tp, tt));
    }

    /// Apply the second half of the per-track flag arguments.
    fn apply_flag_args_b(&mut self, tp: crate::unified::TrackParams, tt: TrackType)
        ensures
            same_except_mux_args(final(self), old(self)),
            final(self).muxing_args.deep_view() == old(self).muxing_args.deep_view()
                + flag_args_b_spec(tp, tt),
    {
        let ghost pre = self.muxing_args.deep_view();
        let ghost mut acc = pre;
        if let Some(b) = tp.visual_impaired {
            if matches!(tt, TrackType::Audio) {
                self.muxing_args.push("--visual-impaired-flag".to_owned());
                self.push_flag_value(b);
            }
        }
        proof {
            acc = acc + (match tp.visual_impaired {
                Option::Some(b) => if tt == TrackType::Audio {
                    seq!["--visual-impaired-flag"@, "0:"@ + yes_no_spec(b)]
                } else {
                    Seq::<Seq<char>>::empty()
                },
                Option::None => Seq::<Seq<char>>::empty(),
            });
            assert(self.muxing_args.deep_view() =~= acc);
        }
        if let Some(b) = tp.text_descriptions {
            if matches!(tt, TrackType::Subtitle) {
                self.muxing_args.push("--text-descriptions-flag".to_owned());
                self.push_flag_value(b);
            }
        }
        proof {
            acc = acc + (match tp.text_descriptions {
                Option::Some(b) => if tt == TrackType::Subtitle {
                    seq!["--text-descriptions-flag"@, "0:"@ + yes_no_spec(b)]
                } else {
                    Seq::<Seq<char>>::empty()
                },
                Option::None => Seq::<Seq<char>>::empty(),
            });
            assert(self.muxing_args.deep_view() =~= acc);
        }
        if let Some(b) = tp.original {
            self.muxing_args.push("--original-flag".to_owned());
            self.push_flag_value(b);
        }
        proof {
            acc = acc + (match tp.original {
                Option::Some(b) => seq!["--original-flag"@, "0:"@ + yes_no_spec(b)],
                Option::None => Seq::<Seq<char>>::empty(),
            });
            assert(self.muxing_args.deep_view() =~= acc);
        }
        if let Some(b) = tp.commentary {
            if matches!(tt, TrackType::Audio | TrackType::Subtitle) {
                self.muxing_args.push("--commentary-flag".to_owned());
                self.push_flag_value(b);
            }
        }
        proof {
            acc = acc + (match tp.commentary {
                Option::Some(b) => if tt == TrackType::Audio || tt == TrackType::Subtitle {
                    seq!["--commentary-flag"@, "0:"@ + yes_no_spec(b)]
                } else {
                    Seq::<Seq<char>>::empty()
                },
                Option::None => Seq::<Seq<char>>::empty(),
            });
            assert(self.muxing_args.deep_view() =~= acc);
        }
        assert(self.muxing_args.deep_view() =~= pre + flag_args_b_spec(tp, tt));
    }

    /// Push the sync argument pair carrying a track's effective delay.
    fn push_sync_args(&mut self, delay: i32)
        ensures
            same_except_mux_args(final(self), old(self)),
            final(self).muxing_args.deep_view() == old(self).muxing_args.deep_view() + seq![
                "--sync"@,
                "0:"@ + strutil::int_dec_spec(delay as int),
            ],
    {
        self.muxing_args.push("--sync".to_owned());
        let mut v = "0:".to_owned();
        let d_str = strutil::i32_to_string(delay);
        v.append(d_str.as_str());
        self.muxing_args.push(v);
        assert(self.muxing_args.deep_view() =~= old(self).muxing_args.deep_view() + seq![
            "--sync"@,
            "0:"@ + strutil::int_dec_spec(delay as int),
        ]);
    }

    /// Push the "0:yes" / "0:no" value of a flag argument.
    fn push_flag_value(&mut self, b: bool)
        ensures
            same_except_mux_args(final(self), old(self)),
            final(self).muxing_args.deep_view() == old(self).muxing_args.deep_view().push(
                "0:"@ + yes_no_spec(b),
            ),
    {
        let mut v = "0:".to_owned();
        let yn = utils::bool_to_yes_no(b);
        v.append(yn.as_str());
        self.muxing_args.push(v);
        assert(self.muxing_args.deep_view() =~= old(self).muxing_args.deep_view().push(
            "0:"@ + yes_no_spec(b),
        ));
    }

    /// Apply the muxing arguments of every kept track, in original order.
    #[verifier::rlimit(100)]
    #[verifier::spinoff_prover]
    pub fn apply_track_mux_params(&mut self, params: &UnifiedParams)
        requires
            mux_delays_wf(old(self).media.tracks.deep_view(), params),
        ensures
            same_except_mux_args(final(self), old(self)),
            final(self).muxing_args.deep_view() == old(self).muxing_args.deep_view()
                + all_track_mux_args_spec(
                old(self).media.tracks.deep_view(),
                params,
                old(self).media.tracks@.len() as int,
            ),
    {
        let ghost base = self.muxing_args.deep_view();
        let ghost tv = self.media.tracks.deep_view();
        let count = self.media.tracks.len();
        let mut i: usize = 0;
        assert(self.muxing_args.deep_view() =~= base + all_track_mux_args_spec(tv, params, 0));
        while i < count
            invariant
                same_except_mux_args(self, old(self)),
                mux_delays_wf(tv, params),
                tv == self.media.tracks.deep_view(),
                count == self.media.tracks@.len(),
                i <= count,
                self.muxing_args.deep_view() == base + all_track_mux_args_spec(
                    tv,
                    params,
                    i as int,
                ),
            decreases count - i,
        {
            let ghost pre = self.muxing_args.deep_view();
            let ghost track = tv[i as int];
            let mut delay = self.media.tracks[i].delay;
            let mut delay_source = self.media.tracks[i].delay_source;
            assert(delay == track.delay && delay_source == track.delay_source);

            // Apply a configured delay override for this track.
            let ov: Option<i32> = match &params.track_params {
                Some(tps) => find_delay_override_exec(tps, i),
                None => None,
            };
            if let Some(d) = ov {
                if delay_source == DelaySource::Absent {
                    delay_source = DelaySource::Container;
                }
                delay = d;
            }
            let ghost ed = effective_delay(track, i as int, params);
            let ghost eds = effective_delay_source(track, i as int, params);
            assert(delay == ed);
            assert(delay_source == eds);

            // The delay argument, when one applies.
            if delay != 0 {
                match delay_source {
                    DelaySource::Container => {
                        self.push_sync_args(delay);
                    },
                    DelaySource::Absent => {},
                    DelaySource::Stream => {
                        proof {
                            assert(false);
                        }
                    },
                }
            }
            proof {
                assert(self.media.tracks@.len() == count) by {
                    assert(self.media.tracks.deep_view().len() == self.media.tracks@.len());
                    assert(tv.len() == count);
                }
                assert(self.media.tracks@[i as int]@ == tv[i as int]) by {
                    assert(self.media.tracks.deep_view()[i as int] == self.media.tracks@[
                        i as int
                    ].deep_view());
                }
            }
            let ghost a1 = pre + (if ed != 0 && eds == DelaySource::Container {
                seq!["--sync"@, "0:"@ + strutil::int_dec_spec(ed as int)]
            } else {
                Seq::<Seq<char>>::empty()
            });
            assert(self.muxing_args.deep_view() =~= a1);

            // The display dimensions, when set.
            let width = self.media.tracks[i].width;
            let height = self.media.tracks[i].height;
            if width != 0 && height != 0 {
                self.muxing_args.push("--display-dimensions".to_owned());
                let mut v = "0:".to_owned();
                let w_str = strutil::u32_to_string(width);
                v.append(w_str.as_str());
                v.append("x");
                let h_str = strutil::u32_to_string(height);
                v.append(h_str.as_str());
                self.muxing_args.push(v);
            }

            // The bit depth, when set.
            let bit_depth = self.media.tracks[i].bit_depth;
            if bit_depth != 0 {
                self.muxing_args.push("--color-bits-per-channel".to_owned());
                let mut v = "0:".to_owned();
                let b_str = strutil::u32_to_string(bit_depth);
                v.append(b_str.as_str());
                self.muxing_args.push(v);
            }
            let ghost a2 = a1 + (if track.width != 0 && track.height != 0 {
                seq![
                    "--display-dimensions"@,
                    "0:"@ + dec_spec(track.width as int) + "x"@ + dec_spec(track.height as int),
                ]
            } else {
                Seq::<Seq<char>>::empty()
            }) + (if track.bit_depth != 0 {
                seq!["--color-bits-per-channel"@, "0:"@ + dec_spec(track.bit_depth as int)]
            } else {
                Seq::<Seq<char>>::empty()
            });
            assert(self.muxing_args.deep_view() =~= a2);

            // Any additional per-track flags.
            self.apply_additional_track_mux_params(i, params);
            proof {
                assert(self.media.tracks@.len() == count) by {
                    assert(self.media.tracks.deep_view().len() == self.media.tracks@.len());
                    assert(tv.len() == count);
                }
                assert(self.media.tracks@[i as int]@ == tv[i as int]) by {
                    assert(self.media.tracks.deep_view()[i as int] == self.media.tracks@[
                        i as int
                    ].deep_view());
                }
            }
            let ghost a3 = a2 + additional_track_args_spec(track, i as int, params);
            assert(self.muxing_args.deep_view() =~= a3);

            // The track language; video tracks are always muxed as undefined.
            self.muxing_args.push("--language".to_owned());
            if matches!(self.media.tracks[i].track_type, TrackType::Video) {
                self.muxing_args.push("0:und".to_owned());
            } else {
                let mut v = "0:".to_owned();
                v.append(self.media.tracks[i].language.as_str());
                self.muxing_args.push(v);
            }

            // The extracted file of the track.
            let mut p = "./tracks/".to_owned();
            let name = self.media.tracks[i].get_out_file_name();
            p.append(name.as_str());
            self.muxing_args.push(p);
            assert(self.muxing_args.deep_view() =~= a3 + seq![
                "--language"@,
                if track.track_type == TrackType::Video {
                    "0:und"@
                } else {
                    "0:"@ + track.language
                },
            ] + seq!["./tracks/"@ + out_file_name_spec(track)]);
            assert(self.muxing_args.deep_view() =~= base + all_track_mux_args_spec(
                tv,
                params,
                i + 1,
            ));
            i = i + 1;
        }
    }

    /// The path of this file's private temp directory below the temp base.
    pub fn get_temp_path(&self, temp_base: &str) -> (r: String)
        ensures
            r@ == utils::push_segment_spec(temp_base@, dec_spec(self.id as int)),
    {
        let id_str = strutil::usize_to_string(self.id);
        let mut segs: Vec<String> = Vec::new();
        segs.push(id_str);
        let out = utils::join_path_segments(temp_base, &segs);
        proof {
            assert(segs.deep_view() =~= seq![dec_spec(self.id as int)]);
            assert(utils::join_segments_spec(temp_base@, segs.deep_view(), 0)
                == utils::join_segments_spec(
                utils::push_segment_spec(temp_base@, dec_spec(self.id as int)),
                segs.deep_view(),
                1,
            ));
        }
        out
    }

    /// The demuxer arguments naming each track and its output file.
    pub fn extract_tracks_args(&self) -> (r: Vec<String>)
        ensures
            r.deep_view() == extract_tracks_args_spec(
                self.media.tracks.deep_view(),
                self.media.tracks@.len() as int,
            ),
    {
        let count = self.media.tracks.len();
        let mut args: Vec<String> = Vec::new();
        let mut i: usize = 0;
        assert(args.deep_view() =~= extract_tracks_args_spec(self.media.tracks.deep_view(), 0));
        while i < count
            invariant
                count == self.media.tracks@.len(),
                i <= count,
                args.deep_view() == extract_tracks_args_spec(
                    self.media.tracks.deep_view(),
                    i as int,
                ),
            decreases count - i,
        {
            let mut arg = strutil::u32_to_string(self.media.tracks[i].id);
            arg.append(":");
            let name = self.media.tracks[i].get_out_file_name();
            arg.append(name.as_str());
            args.push(arg);
            assert(args.deep_view() =~= extract_tracks_args_spec(
                self.media.tracks.deep_view(),
                i + 1,
            ));
            i = i + 1;
        }
        args
    }

    /// The demuxer arguments naming each attachment; attachment indices start
    /// at one.
    pub fn extract_attachments_args(&self) -> (r: Vec<String>)
        ensures
            r.deep_view() == extract_attachments_args_spec(
                self.attachments.deep_view(),
                self.attachments@.len() as int,
            ),
    {
        let count = self.attachments.len();
        let mut args: Vec<String> = Vec::new();
        let mut i: usize = 0;
        assert(args.deep_view() =~= extract_attachments_args_spec(self.attachments.deep_view(), 0));
        while i < count
            invariant
                count == self.attachments@.len(),
                i <= count,
                args.deep_view() == extract_attachments_args_spec(
                    self.attachments.deep_view(),
                    i as int,
                ),
            decreases count - i,
        {
            let mut arg = strutil::usize_to_string(i + 1);
            arg.append(":");
            arg.append(self.attachments[i].as_str());
            args.push(arg);
            assert(args.deep_view() =~= extract_attachments_args_spec(
                self.attachments.deep_view(),
                i + 1,
            ));
            i = i + 1;
        }
        args
    }

    /// Add an attachment to the muxing argument list if its extension matches
    /// and the file is present; a missing file is skipped, not an error.
    pub fn add_attachment_if_matching(
        &mut self,
        path: &str,
        exists: bool,
        accepted_extensions: &Option<Vec<String>>,
    )
        ensures
            same_except_mux_args(final(self), old(self)),
            final(self).muxing_args.deep_view() == old(self).muxing_args.deep_view()
                + attachment_args_spec(path@, exists, opt_deep_view(accepted_extensions)),
    {
        let ghost pre = self.muxing_args.deep_view();
        let file_name = match utils::get_file_name(path) {
            Some(n) => n,
            None => {
                assert(pre + attachment_args_spec(
                    path@,
                    exists,
                    opt_deep_view(accepted_extensions),
                ) =~= pre);
                return ;
            },
        };
        let is_match = match utils::get_file_extension(file_name.as_str()) {
            Some(ext) => match accepted_extensions {
                Some(exts) => exts.len() == 0 || strutil::string_list_contains(
                    exts,
                    ext.as_str(),
                ),
                None => true,
            },
            None => match accepted_extensions {
                Some(exts) => exts.len() == 0,
                None => true,
            },
        };
        if !is_match || !exists {
            assert(pre + attachment_args_spec(path@, exists, opt_deep_view(accepted_extensions))
                =~= pre);
            return ;
        }
        self.muxing_args.push("--attachment-name".to_owned());
        self.muxing_args.push(file_name);
        self.muxing_args.push("--attach-file".to_owned());
        self.muxing_args.push(path.to_owned());
        assert(self.muxing_args.deep_view() =~= pre + attachment_args_spec(
            path@,
            exists,
            opt_deep_view(accepted_extensions),
        ));
    }

    /// Add the attachments extracted from the original file to the muxing
    /// arguments; `exists` says, per attachment, whether its extracted file is
    /// present under the temp directory.
    pub fn apply_internal_attachment_mux_params(
        &mut self,
        params: &UnifiedParams,
        temp_base: &str,
        exists: &Vec<bool>,
    )
        requires
            exists@.len() == old(self).attachments@.len(),
        ensures
            same_except_mux_args(final(self), old(self)),
            final(self).muxing_args.deep_view() == old(self).muxing_args.deep_view()
                + internal_attachment_args_spec(
                old(self).attachments.deep_view(),
                exists@,
                utils::push_segment_spec(temp_base@, dec_spec(old(self).id as int)),
                params,
                old(self).attachments@.len() as int,
            ),
    {
        let temp_path = self.get_temp_path(temp_base);
        let ghost base = self.muxing_args.deep_view();
        let ghost temp = temp_path@;
        let count = self.attachments.len();
        let mut i: usize = 0;
        assert(self.muxing_args.deep_view() =~= base + internal_attachment_args_spec(
            self.attachments.deep_view(),
            exists@,
            temp,
            params,
            0,
        ));
        while i < count
            invariant
                same_except_mux_args(self, old(self)),
                count == self.attachments@.len(),
                exists@.len() == count,
                temp_path@ == temp,
                temp == utils::push_segment_spec(temp_base@, dec_spec(self.id as int)),
                i <= count,
                self.muxing_args.deep_view() == base + internal_attachment_args_spec(
                    self.attachments.deep_view(),
                    exists@,
                    temp,
                    params,
                    i as int,
                ),
            decreases count - i,
        {
            let mut full = temp_path.clone();
            full.append("/attachments/");
            full.append(self.attachments[i].as_str());
            proof {
                assert(self.attachments.deep_view()[i as int] == self.attachments@[i as int]@);
                assert(full@ =~= temp + "/attachments/"@ + self.attachments.deep_view()[i as int]);
            }
            let ghost pre = self.muxing_args.deep_view();
            let ghost att_before = self.attachments.deep_view();
            let e = exists[i];
            self.add_attachment_if_matching(
                full.as_str(),
                e,
                &params.attachments.import_original_extensions,
            );
            proof {
                assert(self.attachments.deep_view() == att_before);
                assert(self.attachments@.len() == count) by {
                    assert(self.attachments.deep_view().len() == self.attachments@.len());
                    assert(att_before.len() == count);
                }
            }
            assert(self.muxing_args.deep_view() =~= base + internal_attachment_args_spec(
                self.attachments.deep_view(),
                exists@,
                temp,
                params,
                i + 1,
            ));
            i = i + 1;
        }
    }

    /// Add attachments found in the import folder to the muxing arguments;
    /// each candidate comes with whether its file is present.
    pub fn apply_external_attachment_mux_params(
        &mut self,
        candidates: &Vec<(String, bool)>,
        params: &UnifiedParams,
    )
        ensures
            same_except_mux_args(final(self), old(self)),
            final(self).muxing_args.deep_view() == old(self).muxing_args.deep_view()
                + external_attachment_args_spec(
                candidates.deep_view(),
                params,
                candidates@.len() as int,
            ),
    {
        let ghost base = self.muxing_args.deep_view();
        let count = candidates.len();
        let mut i: usize = 0;
        assert(self.muxing_args.deep_view() =~= base + external_attachment_args_spec(
            candidates.deep_view(),
            params,
            0,
        ));
        while i < count
            invariant
                same_except_mux_args(self, old(self)),
                count == candidates@.len(),
                i <= count,
                self.muxing_args.deep_view() == base + external_attachment_args_spec(
                    candidates.deep_view(),
                    params,
                    i as int,
                ),
            decreases count - i,
        {
            let e = candidates[i].1;
            let path = candidates[i].0.clone();
            self.add_attachment_if_matching(
                path.as_str(),
                e,
                &params.attachments.import_folder_extensions,
            );
            assert(candidates.deep_view()[i as int] == (candidates@[i as int].0@, candidates@[
                i as int
            ].1));
            assert(self.muxing_args.deep_view() =~= base + external_attachment_args_spec(
                candidates.deep_view(),
                params,
                i + 1,
            ));
            i = i + 1;
        }
    }

    /// Apply the attachment muxing arguments: the extracted attachments when
    /// importing from the original is enabled, then the import folder's
    /// candidates when a folder is configured.
    pub fn apply_attachment_mux_params(
        &mut self,
        params: &UnifiedParams,
        temp_base: &str,
        internal_exists: &Vec<bool>,
        external_candidates: &Vec<(String, bool)>,
    )
        requires
            internal_exists@.len() == old(self).attachments@.len(),
        ensures
            same_except_mux_args(final(self), old(self)),
            final(self).muxing_args.deep_view() == old(self).muxing_args.deep_view() + (if params
                .attachments.import_from_original {
                internal_attachment_args_spec(
                    old(self).attachments.deep_view(),
                    internal_exists@,
                    utils::push_segment_spec(temp_base@, dec_spec(old(self).id as int)),
                    params,
                    old(self).attachments@.len() as int,
                )
            } else {
                Seq::<Seq<char>>::empty()
            }) + (if import_folder_configured(params) {
                external_attachment_args_spec(
                    external_candidates.deep_view(),
                    params,
                    external_candidates@.len() as int,
                )
            } else {
                Seq::<Seq<char>>::empty()
            }),
    {
        let ghost base = self.muxing_args.deep_view();
        if params.attachments.import_from_original {
            self.apply_internal_attachment_mux_params(params, temp_base, internal_exists);
        }
        let import_dir_some = match &params.attachments.import_from_folder {
            Some(d) => d.as_str().unicode_len() > 0,
            None => false,
        };
        if import_dir_some {
            self.apply_external_attachment_mux_params(external_candidates, params);
        }
        assert(final(self).muxing_args.deep_view() =~= base + (if params
            .attachments.import_from_original {
            internal_attachment_args_spec(
                old(self).attachments.deep_view(),
                internal_exists@,
                utils::push_segment_spec(temp_base@, dec_spec(old(self).id as int)),
                params,
                old(self).attachments@.len() as int,
            )
        } else {
            Seq::<Seq<char>>::empty()
        }) + (if import_folder_configured(params) {
            external_attachment_args_spec(
                external_candidates.deep_view(),
                params,
                external_candidates@.len() as int,
            )
        } else {
            Seq::<Seq<char>>::empty()
        }));
    }

    /// Apply the chapter muxing arguments: chapters are muxed in English; an
    /// exported chapters file is included when present, and otherwise chapters
    /// are generated at the configured interval (five minutes by default) when
    /// generation is enabled.
    pub fn apply_chapters_mux_params(
        &mut self,
        params: &UnifiedParams,
        temp_base: &str,
        chapters_file_exists: bool,
    )
        ensures
            same_except_mux_args(final(self), old(self)),
            final(self).muxing_args.deep_view() == old(self).muxing_args.deep_view()
                + chapters_args_spec(params, chapters_file_exists, chapters_path_spec(old(self), temp_base@)),
    {
        let ghost pre = self.muxing_args.deep_view();
        self.muxing_args.push("--chapter-language".to_owned());
        self.muxing_args.push("en".to_owned());
        let temp_path = self.get_temp_path(temp_base);
        let mut segs: Vec<String> = Vec::new();
        segs.push("chapters".to_owned());
        segs.push("chapters.xml".to_owned());
        let chapters_fp = utils::join_path_segments(temp_path.as_str(), &segs);
        proof {
            assert(segs.deep_view() =~= seq!["chapters"@, "chapters.xml"@]);
            assert(chapters_fp@ == chapters_path_spec(old(self), temp_base@)) by {
                let t = utils::push_segment_spec(temp_base@, dec_spec(old(self).id as int));
                assert(utils::join_segments_spec(t, segs.deep_view(), 0)
                    == utils::join_segments_spec(
                    utils::push_segment_spec(t, "chapters"@),
                    segs.deep_view(),
                    1,
                ));
                assert(utils::join_segments_spec(
                    utils::push_segment_spec(t, "chapters"@),
                    segs.deep_view(),
                    1,
                ) == utils::join_segments_spec(
                    utils::push_segment_spec(utils::push_segment_spec(t, "chapters"@), "chapters.xml"@),
                    segs.deep_view(),
                    2,
                ));
            }
        }
        if chapters_file_exists {
            self.muxing_args.push("--chapters".to_owned());
            self.muxing_args.push(chapters_fp);
        } else if params.chapters.create_if_not_present {
            self.muxing_args.push("--generate-chapters-name-template".to_owned());
            self.muxing_args.push("Chapter <NUM:2>".to_owned());
            self.muxing_args.push("--generate-chapters".to_owned());
            let mut interval_arg = "interval:".to_owned();
            match &params.chapters.create_interval {
                Some(interval) => interval_arg.append(interval.as_str()),
                None => interval_arg.append("00:05:00.000000000"),
            }
            self.muxing_args.push(interval_arg);
        }
        assert(self.muxing_args.deep_view() =~= pre + chapters_args_spec(
            params,
            chapters_file_exists,
            chapters_path_spec(old(self), temp_base@),
        ));
    }

    /// Apply the global-tags muxing argument when a tags file is configured
    /// and present.
    pub fn apply_tag_mux_params(&mut self, params: &UnifiedParams, tags_file_exists: bool)
        ensures
            same_except_mux_args(final(self), old(self)),
            final(self).muxing_args.deep_view() == old(self).muxing_args.deep_view()
                + tags_args_spec(params, tags_file_exists),
    {
        let ghost pre = self.muxing_args.deep_view();
        let path: &str = match &params.misc.tags_path {
            Some(p) => p.as_str(),
            None => "",
        };
        if !tags_file_exists {
            assert(pre + tags_args_spec(params, tags_file_exists) =~= pre);
            return ;
        }
        if let Some(p) = &params.misc.tags_path {
            self.muxing_args.push("--global-tags".to_owned());
            self.muxing_args.push(p.clone());
            assert(self.muxing_args.deep_view() =~= pre + tags_args_spec(
                params,
                tags_file_exists,
            ));
        } else {
            assert(pre + tags_args_spec(params, tags_file_exists) =~= pre);
        }
    }

    /// Assemble the whole muxing argument list for this file: the output path
    /// and optional title, every track's arguments, the attachments, the
    /// chapters when enabled, the global tags, and the track order.
    #[verifier::rlimit(100)]
    #[verifier::spinoff_prover]
    pub fn build_remux_args(
        &mut self,
        out_path: &str,
        title: &str,
        params: &UnifiedParams,
        temp_base: &str,
        chapters_file_exists: bool,
        tags_file_exists: bool,
        internal_exists: &Vec<bool>,
        external_candidates: &Vec<(String, bool)>,
    )
        requires
            internal_exists@.len() == old(self).attachments@.len(),
            mux_delays_wf(old(self).media.tracks.deep_view(), params),
        ensures
            same_except_mux_args(final(self), old(self)),
            final(self).muxing_args.deep_view() == old(self).muxing_args.deep_view()
                + remux_args_spec(
                old(self),
                out_path@,
                title@,
                params,
                temp_base@,
                chapters_file_exists,
                tags_file_exists,
                internal_exists@,
                external_candidates.deep_view(),
            ),
    {
        let ghost base = self.muxing_args.deep_view();
        let ghost s1 = seq!["-o"@, out_path@];
        let ghost s2 = (if params.misc.set_file_title == Option::<bool>::Some(true) {
            seq!["--title"@, title@]
        } else {
            Seq::<Seq<char>>::empty()
        });
        let ghost s3 = all_track_mux_args_spec(
            old(self).media.tracks.deep_view(),
            params,
            old(self).media.tracks@.len() as int,
        );
        let ghost s4 = (if params.attachments.import_from_original {
            internal_attachment_args_spec(
                old(self).attachments.deep_view(),
                internal_exists@,
                utils::push_segment_spec(temp_base@, dec_spec(old(self).id as int)),
                params,
                old(self).attachments@.len() as int,
            )
        } else {
            Seq::<Seq<char>>::empty()
        });
        let ghost s5 = (if import_folder_configured(params) {
            external_attachment_args_spec(
                external_candidates.deep_view(),
                params,
                external_candidates@.len() as int,
            )
        } else {
            Seq::<Seq<char>>::empty()
        });
        let ghost s6 = (if params.chapters.import_from_original
            || params.chapters.create_if_not_present {
            chapters_args_spec(
                params,
                chapters_file_exists,
                chapters_path_spec(old(self), temp_base@),
            )
        } else {
            Seq::<Seq<char>>::empty()
        });
        let ghost s7 = tags_args_spec(params, tags_file_exists);
        let ghost s8 = seq![
            "--track-order"@,
            track_order_spec(old(self).media.tracks@.len() as int),
        ];

        // The output file path.
        self.muxing_args.push("-o".to_owned());
        self.muxing_args.push(out_path.to_owned());

        // The title of the media file, if asked for.
        let set_title = match params.misc.set_file_title {
            Some(b) => b,
            None => false,
        };
        if set_title {
            self.muxing_args.push("--title".to_owned());
            self.muxing_args.push(title.to_owned());
        }
        assert(self.muxing_args.deep_view() =~= base + s1 + s2);

        // The per-track arguments.
        proof {
            assert(self.media.tracks.deep_view() == old(self).media.tracks.deep_view());
        }
        self.apply_track_mux_params(params);
        proof {
            assert(self.media.tracks@.len() == old(self).media.tracks@.len()) by {
                assert(self.media.tracks.deep_view().len() == self.media.tracks@.len());
                assert(old(self).media.tracks.deep_view().len() == old(self).media.tracks@.len());
            }
        }
        assert(self.muxing_args.deep_view() == base + s1 + s2 + s3);

        // The attachment arguments.
        proof {
            assert(self.attachments@.len() == old(self).attachments@.len()) by {
                assert(self.attachments.deep_view().len() == self.attachments@.len());
                assert(old(self).attachments.deep_view().len() == old(self).attachments@.len());
            }
        }
        self.apply_attachment_mux_params(params, temp_base, internal_exists, external_candidates);
        assert(self.muxing_args.deep_view() == base + s1 + s2 + s3 + s4 + s5);

        // The chapter arguments, when chapters are wanted at all.
        if params.chapters.import_from_original || params.chapters.create_if_not_present {
            self.apply_chapters_mux_params(params, temp_base, chapters_file_exists);
        }
        assert(self.muxing_args.deep_view() =~= base + s1 + s2 + s3 + s4 + s5 + s6);

        // The global tags argument, when a tags file is configured.
        let tags_some = params.misc.tags_path.is_some();
        if tags_some {
            self.apply_tag_mux_params(params, tags_file_exists);
        } else {
            assert(s7 =~= Seq::<Seq<char>>::empty());
        }
        assert(self.muxing_args.deep_view() =~= base + s1 + s2 + s3 + s4 + s5 + s6 + s7);

        // The track order, listing the kept tracks in original order.
        proof {
            assert(self.media.tracks@.len() == old(self).media.tracks@.len()) by {
                assert(self.media.tracks.deep_view().len() == self.media.tracks@.len());
                assert(old(self).media.tracks.deep_view().len() == old(self).media.tracks@.len());
            }
        }
        let order = self.build_track_order();
        self.muxing_args.push("--track-order".to_owned());
        self.muxing_args.push(order);
        assert(self.muxing_args.deep_view() =~= base + s1 + s2 + s3 + s4 + s5 + s6 + s7 + s8);
        proof {
            assert(remux_args_spec(
                old(self),
                out_path@,
                title@,
                params,
                temp_base@,
                chapters_file_exists,
                tags_file_exists,
                internal_exists@,
                external_candidates.deep_view(),
            ) == s1 + s2 + s3 + s4 + s5 + s6 + s7 + s8);
            assert(base + (s1 + s2 + s3 + s4 + s5 + s6 + s7 + s8) =~= base + s1 + s2 + s3 + s4 + s5
                + s6 + s7 + s8);
        }
    }

    /// The track-order argument value: "0:0,1:0,...".
    fn build_track_order(&self) -> (r: String)
        ensures
            r@ == track_order_spec(self.media.tracks@.len() as int),
    {
        let count = self.media.tracks.len();
        let mut order = String::new();
        let mut i: usize = 0;
        assert(order@ =~= track_order_spec(0));
        while i < count
            invariant
                count == self.media.tracks@.len(),
                i <= count,
                order@ == track_order_spec(i as int),
            decreases count - i,
        {
            let ghost pre = order@;
            if i > 0 {
                order.append(",");
            }
            let i_str = strutil::usize_to_string(i);
            order.append(i_str.as_str());
            order.append(":0");
            assert(order@ =~= track_order_spec(i + 1));
            i = i + 1;
        }
        order
    }

    /// The substituted arguments of one hook command: everything after the
    /// program path, with the input, output and temp-directory tokens
    /// replaced; when logging is inactive, arguments holding the log token are
    /// dropped entirely, and otherwise the log token is removed.
    pub fn prepare_command_args(
        &self,
        command_args: &Vec<String>,
        temp_base: &str,
        logging_enabled: bool,
    ) -> (r: Vec<String>)
        requires
            command_args@.len() >= 1,
        ensures
            r.deep_view() == prepared_args_spec(
                command_args.deep_view(),
                self.file_path@,
                self.output_path@,
                utils::push_segment_spec(temp_base@, dec_spec(self.id as int)),
                logging_enabled,
                command_args@.len() as int,
            ),
    {
        let temp_path = self.get_temp_path(temp_base);
        let ghost input = self.file_path@;
        let ghost output = self.output_path@;
        let ghost temp = temp_path@;
        let count = command_args.len();
        let mut out: Vec<String> = Vec::new();
        let mut i: usize = 1;
        assert(out.deep_view() =~= prepared_args_spec(
            command_args.deep_view(),
            input,
            output,
            temp,
            logging_enabled,
            1,
        ));
        while i < count
            invariant
                count == command_args@.len(),
                1 <= i <= count,
                input == self.file_path@,
                output == self.output_path@,
                temp_path@ == temp,
                temp == utils::push_segment_spec(temp_base@, dec_spec(self.id as int)),
                out.deep_view() == prepared_args_spec(
                    command_args.deep_view(),
                    input,
                    output,
                    temp,
                    logging_enabled,
                    i as int,
                ),
            decreases count - i,
        {
            let arg = &command_args[i];
            assert(arg@ == command_args.deep_view()[i as int]);
            let drop_arg = !logging_enabled && strutil::str_contains(arg.as_str(), "%log%");
            let ghost pre_out = out.deep_view();
            if !drop_arg {
                let s1 = strutil::replace_all(arg.as_str(), "%i%", self.file_path.as_str());
                let s2 = strutil::replace_all(s1.as_str(), "%o%", self.output_path.as_str());
                let s3 = strutil::replace_all(s2.as_str(), "%t%", temp_path.as_str());
                let s4 = strutil::replace_all(s3.as_str(), "%log%", "");
                proof {
                    reveal_strlit("");
                    assert(""@ =~= Seq::<char>::empty());
                    assert(s4@ == subst_one_spec(arg@, input, output, temp));
                }
                out.push(s4);
                assert(out.deep_view() =~= pre_out.push(subst_one_spec(arg@, input, output, temp)));
            }
            assert(out.deep_view() =~= prepared_args_spec(
                command_args.deep_view(),
                input,
                output,
                temp,
                logging_enabled,
                i + 1,
            ));
            i = i + 1;
        }
        out
    }

    /// Plan the conversion of every audio track to the configured codec: each
    /// job carries the encoder input and output paths, the rename needed when
    /// they collide — encoding in place is unsupported — and the encoder
    /// arguments. Nothing to plan when no codec is configured; no plan when
    /// the parameters are invalid and an audio track needs them.
    pub fn plan_audio_conversions(
        &self,
        params: &crate::audio::AudioConvertParams,
        temp_base: &str,
    ) -> (r: Option<Vec<AudioConversionJob>>)
        requires
            params.params_wf(),
        ensures
            params.codec is None ==> r is Some && r->0@.len() == 0,
            params.codec is Some ==> ((r is Some <==> (params.valid_spec() || !has_audio_track(
                self.media.tracks@,
                self.media.tracks@.len() as int,
            ))) && (r is Some ==> r->0.deep_view() == audio_jobs_spec(
                self.media.tracks@,
                params,
                codec_of_audio_spec(params.codec->0),
                temp_base@,
                self.media.tracks@.len() as int,
            ))),
    {
        let codec = match &params.codec {
            Some(c) => *c,
            None => {
                let empty_jobs: Vec<AudioConversionJob> = Vec::new();
                return Some(empty_jobs);
            },
        };
        let out_codec = Codec::from(codec);
        let ghost temp = temp_base@;
        let count = self.media.tracks.len();
        let mut jobs: Vec<AudioConversionJob> = Vec::new();
        let mut i: usize = 0;
        assert(jobs.deep_view() =~= audio_jobs_spec(self.media.tracks@, params, out_codec, temp, 0));
        while i < count
            invariant
                params.params_wf(),
                params.codec == Option::Some(codec),
                out_codec == codec_of_audio_spec(codec),
                temp == temp_base@,
                count == self.media.tracks@.len(),
                i <= count,
                has_audio_track(self.media.tracks@, i as int) ==> params.valid_spec(),
                jobs.deep_view() == audio_jobs_spec(
                    self.media.tracks@,
                    params,
                    out_codec,
                    temp,
                    i as int,
                ),
            decreases count - i,
        {
            let is_audio = matches!(self.media.tracks[i].track_type, TrackType::Audio);
            if is_audio {
                let track = &self.media.tracks[i];
                let mut in_path = track.get_input_file_path(temp_base);
                let out_path = track.get_output_file_path(&out_codec, temp_base);
                let mut renamed_from: Option<String> = None;
                if str_eq(in_path.as_str(), out_path.as_str()) {
                    // The input and output collide: the original must first be
                    // moved aside, since encoding in place does not work.
                    let out_ext = MediaFileTrack::get_extension_from_codec(&out_codec);
                    let mut moved_name = "moved".to_owned();
                    let id_str = strutil::u32_to_string(track.id);
                    moved_name.append(id_str.as_str());
                    moved_name.append(".");
                    moved_name.append(out_ext.as_str());
                    let name = track.get_out_file_name();
                    let new_path = strutil::replace_all(
                        in_path.as_str(),
                        name.as_str(),
                        moved_name.as_str(),
                    );
                    renamed_from = Some(in_path);
                    in_path = new_path;
                }
                let args = match params.as_ffmpeg_argument_list(
                    track,
                    in_path.as_str(),
                    out_path.as_str(),
                ) {
                    Some(a) => a,
                    None => {
                        return None;
                    },
                };
                let job = AudioConversionJob {
                    track_index: i,
                    in_path,
                    out_path,
                    renamed_from,
                    ffmpeg_args: args,
                };
                jobs.push(job);
                assert(jobs.deep_view().last() =~= audio_job_spec(
                    self.media.tracks@[i as int],
                    i as int,
                    params,
                    out_codec,
                    temp,
                ));
            }
            assert(jobs.deep_view() =~= audio_jobs_spec(
                self.media.tracks@,
                params,
                out_codec,
                temp,
                i + 1,
            ));
            i = i + 1;
        }
        Some(jobs)
    }

    /// Record a successful audio conversion: every audio track's codec becomes
    /// the conversion target, so later muxing references the converted files.
    pub fn apply_audio_codec_updates(&mut self, out_codec: Codec)
        ensures
            same_except_media(final(self), old(self)),
            final(self).media.tracks@.len() == old(self).media.tracks@.len(),
            forall|i: int|
                0 <= i < old(self).media.tracks@.len()
                    ==> #[trigger] final(self).media.tracks.deep_view()[i] == (TrackView {
                    codec: (if old(self).media.tracks.deep_view()[i].track_type
                        == TrackType::Audio {
                        out_codec
                    } else {
                        old(self).media.tracks.deep_view()[i].codec
                    }),
                    ..old(self).media.tracks.deep_view()[i]
                }),
    {
        let count = self.media.tracks.len();
        let mut i: usize = 0;
        while i < count
            invariant
                same_except_media(self, old(self)),
                count == self.media.tracks@.len(),
                count == old(self).media.tracks@.len(),
                i <= count,
                forall|k: int|
                    i <= k < count ==> #[trigger] self.media.tracks.deep_view()[k]
                        == old(self).media.tracks.deep_view()[k],
                forall|k: int|
                    0 <= k < i ==> #[trigger] self.media.tracks.deep_view()[k] == (TrackView {
                        codec: (if old(self).media.tracks.deep_view()[k].track_type
                            == TrackType::Audio {
                            out_codec
                        } else {
                            old(self).media.tracks.deep_view()[k].codec
                        }),
                        ..old(self).media.tracks.deep_view()[k]
                    }),
            decreases count - i,
        {
            let ghost dv_before = self.media.tracks.deep_view();
            let ghost pre = dv_before[i as int];
            if matches!(self.media.tracks[i].track_type, TrackType::Audio) {
                let updated = self.media.tracks[i].with_codec(out_codec);
                self.media.tracks.set(i, updated);
            }
            proof {
                assert forall|k: int| 0 <= k < count && k != i as int implies #[trigger] self
                    .media.tracks.deep_view()[k] == dv_before[k] by {
                    assert(self.media.tracks.deep_view()[k] == self.media.tracks@[k].deep_view());
                }
                assert(self.media.tracks.deep_view()[i as int] == (TrackView {
                    codec: (if pre.track_type == TrackType::Audio {
                        out_codec
                    } else {
                        pre.codec
                    }),
                    ..pre
                }));
            }
            i = i + 1;
        }
    }

    /// The stage that follows one stage of processing this file, given whether
    /// the stage succeeded. A failed filter, extraction or conversion aborts
    /// the file; hook stages never abort; a failed remux skips the post-mux
    /// hooks, still cleans up, and then fails the file, which by default halts
    /// the batch.
    pub fn next_process_stage(current: &ProcessStage, success: bool) -> (r: ProcessStage)
        ensures
            r == next_stage_spec(*current, success),
    {
        match current {
            ProcessStage::Filtering => if success {
                ProcessStage::Extracting
            } else {
                ProcessStage::Failed
            },
            ProcessStage::Extracting => if success {
                ProcessStage::PreConvertCommands
            } else {
                ProcessStage::Failed
            },
            ProcessStage::PreConvertCommands => ProcessStage::ConvertingAudio,
            ProcessStage::ConvertingAudio => if success {
                ProcessStage::PostConvertCommands
            } else {
                ProcessStage::Failed
            },
            ProcessStage::PostConvertCommands => ProcessStage::PreMuxCommands,
            ProcessStage::PreMuxCommands => ProcessStage::Remuxing,
            ProcessStage::Remuxing => if success {
                ProcessStage::PostMuxCommands
            } else {
                ProcessStage::CleanupAfterFailure
            },
            ProcessStage::PostMuxCommands => ProcessStage::Cleanup,
            ProcessStage::Cleanup => ProcessStage::Succeeded,
            ProcessStage::CleanupAfterFailure => ProcessStage::Failed,
            ProcessStage::Succeeded => ProcessStage::Succeeded,
            ProcessStage::Failed => ProcessStage::Failed,
        }
    }

    /// Validate whether the kept-track counters meet every configured target.
    pub fn validate_filter_targets(&self, params: &UnifiedParams) -> (r: bool)
        ensures
            r == targets_met_spec(self.track_type_counter, params),
    {
        let mut success = true;
        if let Some(q) = params.audio_tracks.total_to_retain {
            if self.track_type_counter.audio != q {
                success = false;
            }
        }
        if let Some(q) = params.subtitle_tracks.total_to_retain {
            if self.track_type_counter.subtitle != q {
                success = false;
            }
        }
        if let Some(q) = params.video_tracks.total_to_retain {
            if self.track_type_counter.video != q {
                success = false;
            }
        }
        success
    }
}

} // verus!
