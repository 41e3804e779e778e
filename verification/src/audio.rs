//! Audio conversion parameters and the encoder argument list they produce.

use vstd::prelude::*;
use vstd::string::StringExecFns;

use crate::media_file::MediaFileTrack;
use crate::params_trait::ConversionParams;
use crate::strutil;
use crate::strutil::dec_spec;

verus! {

broadcast use vstd::string::group_string_axioms;

/// Features supported by some of the audio codecs.
#[derive(Clone, Copy, Debug, PartialEq, Eq, Structural)]
pub enum CodecFeatures {
    /// Compression.
    Compression,
    /// Variable bitrate.
    Vbr,
}

/// Variable bitrate options applicable to the Opus codec.
#[derive(Clone, Copy, Debug, PartialEq, Eq, Structural)]
pub enum OpusVbrOptions {
    /// Disable variable bitrate, enabling constant bitrate.
    Off,
    /// Enable variable bitrate, on by default.
    On,
    /// Enable constrained variable bitrate.
    Constrained,
}

/// The display name of an Opus variable bitrate option.
pub open spec fn opus_vbr_name_spec(o: OpusVbrOptions) -> Seq<char> {
    match o {
        OpusVbrOptions::Off => "off"@,
        OpusVbrOptions::On => "on"@,
        OpusVbrOptions::Constrained => "constrained"@,
    }
}

impl OpusVbrOptions {
    /// The display name of the option.
    pub fn name(&self) -> (r: String)
        ensures
            r@ == opus_vbr_name_spec(*self),
    {
        match self {
            OpusVbrOptions::Off => "off".to_owned(),
            OpusVbrOptions::On => "on".to_owned(),
            OpusVbrOptions::Constrained => "constrained".to_owned(),
        }
    }
}

#[derive(Clone, Copy, Debug, PartialEq, Eq, Structural)]
pub enum VbrOptions {
    Opus(OpusVbrOptions),
    AacLibfdk(u8),
}

/// The rendering of a variable bitrate option as an encoder argument.
pub open spec fn vbr_render_spec(v: VbrOptions) -> Seq<char> {
    match v {
        VbrOptions::Opus(o) => opus_vbr_name_spec(o),
        VbrOptions::AacLibfdk(n) => dec_spec(n as int),
    }
}

impl VbrOptions {
    /// Render the option as an encoder argument.
    pub fn render(&self) -> (r: String)
        ensures
            r@ == vbr_render_spec(*self),
    {
        match self {
            VbrOptions::Opus(o) => o.name(),
            VbrOptions::AacLibfdk(n) => strutil::u64_to_string(*n as u64),
        }
    }
}

#[derive(Clone, Copy, Debug, PartialEq, Eq, Structural)]
pub enum AudioCodec {
    Aac,
    AacLibfdk,
    Ac3,
    Flac,
    Mp3Lame,
    Mp3Shine,
    Opus,
    Vorbis,
}

/// The encoder name of an audio codec.
pub open spec fn audio_codec_name_spec(c: AudioCodec) -> Seq<char> {
    match c {
        AudioCodec::Aac => "aac"@,
        AudioCodec::AacLibfdk => "libfdk_aac"@,
        AudioCodec::Ac3 => "ac3"@,
        AudioCodec::Flac => "flac"@,
        AudioCodec::Mp3Lame => "libmp3lame"@,
        AudioCodec::Mp3Shine => "libshine"@,
        AudioCodec::Opus => "libopus"@,
        AudioCodec::Vorbis => "libvorbis"@,
    }
}

/// Whether an audio codec supports a feature.
pub open spec fn supports_feature_spec(c: AudioCodec, feature: CodecFeatures) -> bool {
    match feature {
        CodecFeatures::Compression => c == AudioCodec::Flac || c == AudioCodec::Mp3Lame || c
            == AudioCodec::Opus,
        CodecFeatures::Vbr => c == AudioCodec::AacLibfdk || c == AudioCodec::Opus,
    }
}

impl AudioCodec {
    /// The encoder name of the codec.
    pub fn name(&self) -> (r: String)
        ensures
            r@ == audio_codec_name_spec(*self),
    {
        match self {
            AudioCodec::Aac => "aac".to_owned(),
            AudioCodec::AacLibfdk => "libfdk_aac".to_owned(),
            AudioCodec::Ac3 => "ac3".to_owned(),
            AudioCodec::Flac => "flac".to_owned(),
            AudioCodec::Mp3Lame => "libmp3lame".to_owned(),
            AudioCodec::Mp3Shine => "libshine".to_owned(),
            AudioCodec::Opus => "libopus".to_owned(),
            AudioCodec::Vorbis => "libvorbis".to_owned(),
        }
    }

    /// Indicates whether the codec supports a specific codec feature.
    pub fn supports_feature(&self, feature: CodecFeatures) -> (r: bool)
        ensures
            r == supports_feature_spec(*self, feature),
    {
        match &feature {
            CodecFeatures::Compression => matches!(
                self,
                AudioCodec::Flac | AudioCodec::Mp3Lame | AudioCodec::Opus
            ),
            CodecFeatures::Vbr => matches!(self, AudioCodec::AacLibfdk | AudioCodec::Opus),
        }
    }
}

#[derive(Clone)]
pub struct AudioConvertParams {
    /// The audio codec to be used for the conversion.
    pub codec: Option<AudioCodec>,
    /// The number of channels for the conversion; None keeps the source's.
    pub channels: Option<u32>,
    /// The bitrate for the audio conversion, in kilobits per second.
    pub bitrate: Option<u32>,
    /// The variable bitrate options; only applicable to Opus and AacLibfdk.
    pub vbr: Option<VbrOptions>,
    /// The encoding algorithm complexity; only applicable to Opus.
    pub compression_level: Option<u8>,
    /// The number of threads to be used for the conversion.
    pub threads: Option<u8>,
    /// Should an adjustment be applied to the audio volume?
    pub volume_adjustment: Option<String>,
    /// Any custom filters to be applied.
    pub filters: Option<String>,
}

/// The argument list for converting one audio track.
pub open spec fn audio_args_spec(
    p: &AudioConvertParams,
    track: &MediaFileTrack,
    file_in: Seq<char>,
    file_out: Seq<char>,
) -> Seq<Seq<char>> {
    let a = seq!["-y"@] + (if p.threads is Some {
        seq!["-threads"@, dec_spec(p.threads->0 as int)]
    } else {
        Seq::<Seq<char>>::empty()
    });
    if p.codec is None {
        a + seq!["-c:a"@, "copy"@]
    } else {
        let c = p.codec->0;
        a + seq!["-i"@, file_in] + (if p.volume_adjustment is Some {
            seq!["-filter:a"@, "volume="@ + p.volume_adjustment->0@]
        } else {
            Seq::<Seq<char>>::empty()
        }) + seq!["-c:a"@, audio_codec_name_spec(c)] + (if p.bitrate is Some {
            seq!["-b:a"@, dec_spec(p.bitrate->0 as int) + "k"@]
        } else {
            Seq::<Seq<char>>::empty()
        }) + (if p.filters is Some {
            seq!["-filter:a"@, p.filters->0@]
        } else {
            Seq::<Seq<char>>::empty()
        }) + (if p.vbr is Some && supports_feature_spec(c, CodecFeatures::Vbr) {
            seq!["-vbr"@, vbr_render_spec(p.vbr->0)]
        } else {
            Seq::<Seq<char>>::empty()
        }) + (if p.compression_level is Some && supports_feature_spec(
            c,
            CodecFeatures::Compression,
        ) {
            seq!["-compression_level"@, dec_spec(p.compression_level->0 as int)]
        } else {
            Seq::<Seq<char>>::empty()
        }) + (if p.channels is Some && track.channels != p.channels->0 {
            seq!["-ac"@, dec_spec(p.channels->0 as int)]
        } else {
            Seq::<Seq<char>>::empty()
        }) + seq![file_out]
    }
}

impl ConversionParams for AudioConvertParams {
    /// Validation of the remaining codecs is an explicit placeholder.
    open spec fn params_wf(&self) -> bool {
        self.codec is None || self.codec->0 == AudioCodec::Opus
    }

    open spec fn valid_spec(&self) -> bool {
        match self.codec {
            Option::None => true,
            Option::Some(AudioCodec::Opus) => (match self.vbr {
                Option::None => true,
                Option::Some(v) => v is Opus,
            }) && (match self.compression_level {
                Option::None => true,
                Option::Some(c) => c <= 10,
            }),
            Option::Some(_) => false,
        }
    }

    open spec fn ffmpeg_args_spec(
        &self,
        track: &MediaFileTrack,
        file_in: Seq<char>,
        file_out: Seq<char>,
    ) -> Seq<Seq<char>> {
        audio_args_spec(self, track, file_in, file_out)
    }

    /// Validate the specified codec parameters.
    fn validate(&self) -> (r: bool) {
        let codec = if let Some(c) = &self.codec {
            c
        } else {
            return true;
        };
        let mut valid = true;
        match codec {
            AudioCodec::Opus => {
                if let Some(v) = &self.vbr {
                    valid = valid && matches!(v, VbrOptions::Opus(_));
                }
                if let Some(c) = &self.compression_level {
                    valid = valid && *c <= 10;
                }
                valid
            },
            _ => false,
        }
    }

    #[verifier::rlimit(60)]
    fn as_ffmpeg_argument_list(
        &self,
        track: &MediaFileTrack,
        file_in: &str,
        file_out: &str,
    ) -> (r: Option<Vec<String>>) {
        if !self.validate() {
            return None;
        }
        let mut args: Vec<String> = Vec::new();

        // We always want to overwrite old files, if they exist.
        args.push("-y".to_owned());

        // Number of threads to use when encoding.
        if let Some(threads) = self.threads {
            args.push("-threads".to_owned());
            args.push(strutil::u64_to_string(threads as u64));
        }
        let ghost a0 = seq!["-y"@] + (if self.threads is Some {
            seq!["-threads"@, dec_spec(self.threads->0 as int)]
        } else {
            Seq::<Seq<char>>::empty()
        });
        assert(args.deep_view() =~= a0);

        // If we do not have an output codec, no conversion will be performed.
        let codec = if let Some(c) = &self.codec {
            c
        } else {
            args.push("-c:a".to_owned());
            args.push("copy".to_owned());
            assert(args.deep_view() =~= self.ffmpeg_args_spec(track, file_in@, file_out@));
            return Some(args);
        };

        // Input file.
        args.push("-i".to_owned());
        args.push(file_in.to_owned());

        // Volume adjustment, if specified.
        if let Some(vol) = &self.volume_adjustment {
            args.push("-filter:a".to_owned());
            let mut v = "volume=".to_owned();
            v.append(vol.as_str());
            args.push(v);
        }
        let ghost a1 = a0 + seq!["-i"@, file_in@] + (if self.volume_adjustment is Some {
            seq!["-filter:a"@, "volume="@ + self.volume_adjustment->0@]
        } else {
            Seq::<Seq<char>>::empty()
        });
        assert(args.deep_view() =~= a1);

        // Codec type.
        args.push("-c:a".to_owned());
        args.push(codec.name());

        // Bitrate.
        if let Some(bitrate) = self.bitrate {
            args.push("-b:a".to_owned());
            let mut b = strutil::u32_to_string(bitrate);
            b.append("k");
            args.push(b);
        }
        let ghost a2 = a1 + seq!["-c:a"@, audio_codec_name_spec(*codec)] + (if self.bitrate
            is Some {
            seq!["-b:a"@, dec_spec(self.bitrate->0 as int) + "k"@]
        } else {
            Seq::<Seq<char>>::empty()
        });
        assert(args.deep_view() =~= a2);

        // Any filters that may need to be applied.
        if let Some(filters) = &self.filters {
            args.push("-filter:a".to_owned());
            args.push(filters.clone());
        }

        // Variable bitrate; dropped when the codec does not support it.
        if let Some(vbr) = &self.vbr {
            if codec.supports_feature(CodecFeatures::Vbr) {
                args.push("-vbr".to_owned());
                args.push(vbr.render());
            }
        }
        let ghost a3 = a2 + (if self.filters is Some {
            seq!["-filter:a"@, self.filters->0@]
        } else {
            Seq::<Seq<char>>::empty()
        }) + (if self.vbr is Some && supports_feature_spec(*codec, CodecFeatures::Vbr) {
            seq!["-vbr"@, vbr_render_spec(self.vbr->0)]
        } else {
            Seq::<Seq<char>>::empty()
        });
        assert(args.deep_view() =~= a3);

        // Compression level; dropped when the codec does not support it.
        if let Some(level) = self.compression_level {
            if codec.supports_feature(CodecFeatures::Compression) {
                args.push("-compression_level".to_owned());
                args.push(strutil::u64_to_string(level as u64));
            }
        }

        // The number of audio channels, when it differs from the source.
        if let Some(channels) = self.channels {
            if track.channels != channels {
                args.push("-ac".to_owned());
                args.push(strutil::u32_to_string(channels));
            }
        }

        // The output file path always goes last.
        args.push(file_out.to_owned());

        let ghost a4 = a3 + (if self.compression_level is Some && supports_feature_spec(
            *codec,
            CodecFeatures::Compression,
        ) {
            seq!["-compression_level"@, dec_spec(self.compression_level->0 as int)]
        } else {
            Seq::<Seq<char>>::empty()
        }) + (if self.channels is Some && track.channels != self.channels->0 {
            seq!["-ac"@, dec_spec(self.channels->0 as int)]
        } else {
            Seq::<Seq<char>>::empty()
        }) + seq![file_out@];
        assert(args.deep_view() =~= a4);
        assert(a4 =~= self.ffmpeg_args_spec(track, file_in@, file_out@));
        Some(args)
    }
}

} // verus!
