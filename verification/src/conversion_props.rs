//! A second, wider set of audio conversion parameters and the encoder
//! argument list they produce for a chosen conversion type.

use vstd::prelude::*;
use vstd::string::StringExecFns;

use crate::strutil;
use crate::strutil::dec_spec;

verus! {

broadcast use vstd::string::group_string_axioms;

/// Variable bitrate options applicable to the Opus codec.
#[derive(Clone, Copy, Debug, PartialEq, Eq, Structural)]
pub enum OpusVbrOptions {
    /// Disable variable bitrate, enabling constant bitrate.
    Off,
    /// Enable variable bitrate, on by default.
    On,
    /// Enable constrained variable bitrate.
    Constrained,
}

/// The display name of an Opus variable bitrate option.
pub open spec fn opus_vbr_name_spec(o: OpusVbrOptions) -> Seq<char> {
    match o {
        OpusVbrOptions::Off => "off"@,
        OpusVbrOptions::On => "on"@,
        OpusVbrOptions::Constrained => "constrained"@,
    }
}

impl OpusVbrOptions {
    /// The display name of the option.
    pub fn name(&self) -> (r: String)
        ensures
            r@ == opus_vbr_name_spec(*self),
    {
        match self {
            OpusVbrOptions::Off => "off".to_owned(),
            OpusVbrOptions::On => "on".to_owned(),
            OpusVbrOptions::Constrained => "constrained".to_owned(),
        }
    }
}

#[derive(Clone, Copy, Debug, PartialEq, Eq, Structural)]
pub enum VbrOptions {
    Opus(OpusVbrOptions),
    AacLibfdk(u8),
}

/// The rendering of a variable bitrate option as an encoder argument.
pub open spec fn vbr_render_spec(v: VbrOptions) -> Seq<char> {
    match v {
        VbrOptions::Opus(o) => opus_vbr_name_spec(o),
        VbrOptions::AacLibfdk(n) => dec_spec(n as int),
    }
}

impl VbrOptions {
    /// Render the option as an encoder argument.
    pub fn render(&self) -> (r: String)
        ensures
            r@ == vbr_render_spec(*self),
    {
        match self {
            VbrOptions::Opus(o) => o.name(),
            VbrOptions::AacLibfdk(n) => strutil::u64_to_string(*n as u64),
        }
    }
}

#[derive(Clone, Copy, Debug, PartialEq, Eq, Structural)]
pub enum AudioCodec {
    Aac,
    AacLibfdk,
    Ac3,
    Flac,
    Mp2,
    Mp3Lame,
    Mp3Shine,
    Opus,
    Vorbis,
    WavPack,
}

/// The encoder name of an audio codec.
pub open spec fn audio_codec_name_spec(c: AudioCodec) -> Seq<char> {
    match c {
        AudioCodec::Aac => "aac"@,
        AudioCodec::AacLibfdk => "libfdk_aac"@,
        AudioCodec::Ac3 => "ac3"@,
        AudioCodec::Flac => "flac"@,
        AudioCodec::Mp2 => "libtwolame"@,
        AudioCodec::Mp3Lame => "libmp3lame"@,
        AudioCodec::Mp3Shine => "libshine"@,
        AudioCodec::Opus => "libopus"@,
        AudioCodec::Vorbis => "libvorbis"@,
        AudioCodec::WavPack => "wavpack"@,
    }
}

impl AudioCodec {
    /// The encoder name of the codec.
    pub fn name(&self) -> (r: String)
        ensures
            r@ == audio_codec_name_spec(*self),
    {
        match self {
            AudioCodec::Aac => "aac".to_owned(),
            AudioCodec::AacLibfdk => "libfdk_aac".to_owned(),
            AudioCodec::Ac3 => "ac3".to_owned(),
            AudioCodec::Flac => "flac".to_owned(),
            AudioCodec::Mp2 => "libtwolame".to_owned(),
            AudioCodec::Mp3Lame => "libmp3lame".to_owned(),
            AudioCodec::Mp3Shine => "libshine".to_owned(),
            AudioCodec::Opus => "libopus".to_owned(),
            AudioCodec::Vorbis => "libvorbis".to_owned(),
            AudioCodec::WavPack => "wavpack".to_owned(),
        }
    }
}

/// The type of media to be converted.
#[derive(Clone, Copy, Debug, PartialEq, Eq, Structural)]
pub enum ConversionType {
    /// The media file is audio.
    Audio,
    /// The media file is subtitle.
    Subtitle,
    /// The media file is video.
    Video,
}

/// The codec selector argument for a conversion type.
pub open spec fn codec_selector_spec(ct: ConversionType) -> Seq<char> {
    match ct {
        ConversionType::Audio => "-c:a"@,
        ConversionType::Subtitle => "-c:s"@,
        ConversionType::Video => "-c:v"@,
    }
}

/// The bitrate selector argument for a conversion type; subtitles take none.
pub open spec fn bitrate_selector_spec(ct: ConversionType) -> Seq<char> {
    match ct {
        ConversionType::Audio => "-b:a"@,
        ConversionType::Subtitle => Seq::empty(),
        ConversionType::Video => "-b:v"@,
    }
}

pub struct AudioParameters {
    /// The audio codec to be used for the conversion.
    pub codec: Option<AudioCodec>,
    /// The number of channels for the conversion; None keeps the source's.
    pub channels: Option<u16>,
    /// The bitrate for the audio conversion, in kilobits per second.
    pub bitrate: Option<u32>,
    /// The variable bitrate options; only applicable to Opus and AacLibfdk.
    pub vbr: Option<VbrOptions>,
    /// The encoding algorithm complexity; only applicable to Opus.
    pub compression_level: Option<u8>,
    /// The number of threads to be used for the conversion.
    pub threads: Option<u8>,
}

/// The argument list these parameters produce for a conversion type.
pub open spec fn parameters_args_spec(p: &AudioParameters, ct: ConversionType, file_in: Seq<char>, file_out: Seq<char>) -> Seq<Seq<char>> {
    if p.codec is None {
        seq!["copy"@]
    } else {
        let c = p.codec->0;
        (if p.threads is Some {
            seq!["-threads"@, dec_spec(p.threads->0 as int)]
        } else {
            Seq::<Seq<char>>::empty()
        }) + seq!["-i"@, file_in] + seq![codec_selector_spec(ct), audio_codec_name_spec(c)] + (
        if p.bitrate is Some {
            seq![bitrate_selector_spec(ct), dec_spec(p.bitrate->0 as int) + "k"@]
        } else {
            Seq::<Seq<char>>::empty()
        }) + (if p.compression_level is Some {
            seq!["-compression_level"@, dec_spec(p.compression_level->0 as int)]
        } else {
            Seq::<Seq<char>>::empty()
        }) + (if p.vbr is Some {
            seq!["-vbr"@, vbr_render_spec(p.vbr->0)]
        } else {
            Seq::<Seq<char>>::empty()
        }) + seq![file_out]
    }
}

impl AudioParameters {
    /// The parameter combinations this implementation handles: validation of
    /// the remaining codecs is an explicit placeholder.
    pub open spec fn params_wf(&self) -> bool {
        self.codec is None || self.codec->0 == AudioCodec::Opus
    }

    /// Whether the parameters are a valid combination.
    pub open spec fn valid_spec(&self) -> bool {
        match self.codec {
            Option::None => true,
            Option::Some(AudioCodec::Opus) => (match self.vbr {
                Option::None => true,
                Option::Some(v) => v is Opus,
            }) && (match self.compression_level {
                Option::None => true,
                Option::Some(c) => c <= 10,
            }),
            Option::Some(_) => false,
        }
    }

    /// Validate the specified codec parameters.
    pub fn validate(&self) -> (r: bool)
        requires
            self.params_wf(),
        ensures
            r == self.valid_spec(),
    {
        let codec = if let Some(c) = &self.codec {
            c
        } else {
            return true;
        };
        match codec {
            AudioCodec::Opus => {
                let mut valid = true;
                if let Some(v) = &self.vbr {
                    valid = valid && matches!(v, VbrOptions::Opus(_));
                }
                if let Some(c) = &self.compression_level {
                    valid = valid && *c <= 10;
                }
                valid
            },
            _ => false,
        }
    }

    /// Build the encoder argument list for one conversion type, or nothing
    /// when the parameters are not a valid combination. Subtitle conversions
    /// take no bitrate.
    pub fn as_ffmpeg_argument_list(
        &self,
        file_in: &str,
        file_out: &str,
        conversion_type: ConversionType,
    ) -> (r: Option<Vec<String>>)
        requires
            self.params_wf(),
            !(conversion_type == ConversionType::Subtitle && self.bitrate is Some && self.codec
                is Some),
        ensures
            r is Some <==> self.valid_spec(),
            r is Some ==> r->0.deep_view() == parameters_args_spec(
                self,
                conversion_type,
                file_in@,
                file_out@,
            ),
    {
        if !self.validate() {
            return None;
        }
        let mut args: Vec<String> = Vec::new();

        // If we do not have an output codec, no conversion will be performed.
        let codec = if let Some(c) = &self.codec {
            c
        } else {
            args.push("copy".to_owned());
            assert(args.deep_view() =~= parameters_args_spec(
                self,
                conversion_type,
                file_in@,
                file_out@,
            ));
            return Some(args);
        };

        // Number of threads to use when encoding.
        if let Some(threads) = self.threads {
            args.push("-threads".to_owned());
            args.push(strutil::u64_to_string(threads as u64));
        }

        // Input file.
        args.push("-i".to_owned());
        args.push(file_in.to_owned());

        // Codec type.
        match conversion_type {
            ConversionType::Audio => args.push("-c:a".to_owned()),
            ConversionType::Subtitle => args.push("-c:s".to_owned()),
            ConversionType::Video => args.push("-c:v".to_owned()),
        }
        args.push(codec.name());
        let ghost a1 = (if self.threads is Some {
            seq!["-threads"@, dec_spec(self.threads->0 as int)]
        } else {
            Seq::<Seq<char>>::empty()
        }) + seq!["-i"@, file_in@] + seq![
            codec_selector_spec(conversion_type),
            crate::conversion_props::audio_codec_name_spec(*codec),
        ];
        assert(args.deep_view() =~= a1);

        // Bitrate; a subtitle conversion never takes one.
        if let Some(bitrate) = self.bitrate {
            match conversion_type {
                ConversionType::Audio => args.push("-b:a".to_owned()),
                ConversionType::Subtitle => {
                    proof {
                        assert(false);
                    }
                },
                ConversionType::Video => args.push("-b:v".to_owned()),
            }
            let mut b = strutil::u32_to_string(bitrate);
            b.append("k");
            args.push(b);
        }

        // Compression level.
        if let Some(level) = self.compression_level {
            args.push("-compression_level".to_owned());
            args.push(strutil::u64_to_string(level as u64));
        }

        // Variable bitrate.
        if let Some(vbr) = &self.vbr {
            args.push("-vbr".to_owned());
            args.push(vbr.render());
        }

        // The output file path always goes last.
        args.push(file_out.to_owned());
        let ghost a2 = a1 + (if self.bitrate is Some {
            seq![
                bitrate_selector_spec(conversion_type),
                dec_spec(self.bitrate->0 as int) + "k"@,
            ]
        } else {
            Seq::<Seq<char>>::empty()
        }) + (if self.compression_level is Some {
            seq!["-compression_level"@, dec_spec(self.compression_level->0 as int)]
        } else {
            Seq::<Seq<char>>::empty()
        }) + (if self.vbr is Some {
            seq!["-vbr"@, vbr_render_spec(self.vbr->0)]
        } else {
            Seq::<Seq<char>>::empty()
        }) + seq![file_out@];
        assert(args.deep_view() =~= a2);
        assert(a2 =~= parameters_args_spec(self, conversion_type, file_in@, file_out@));
        Some(args)
    }
}

} // verus!
