use mkv_batch::audio::{AudioCodec, AudioConvertParams, OpusVbrOptions, VbrOptions};
use mkv_batch::conversion_props::{
    AudioParameters, ConversionType, AudioCodec as PropsAudioCodec,
};
use mkv_batch::converters::{ffmpeg_exit_success, remux_media_file_args};
use mkv_batch::media_file::{
    Codec, DelaySource, MediaFile, MediaFileInfo, MediaFileTrack, MediaInfoExtra, ProcessStage,
    RunCommandType, TrackCounts, TrackType,
};
use mkv_batch::media_info;
use mkv_batch::mkvtoolnix::{get_exe, tool_exit_success};
use mkv_batch::params_trait::ConversionParams;
use mkv_batch::script_file::ScriptFile;
use mkv_batch::unified::{
    AttachmentParams, ChapterParams, MiscParams, ProcessRun, TrackPredicate, TrackParams,
    UnifiedAudioParams, UnifiedOtherTrackParams, UnifiedParams, UnifiedSubtitleParams,
    UnifiedVideoParams,
};

fn plain_params() -> UnifiedParams {
    UnifiedParams {
        audio_tracks: UnifiedAudioParams {
            predicate: TrackPredicate::Any,
            conversion: None,
            default_language: None,
            total_to_retain: None,
        },
        subtitle_tracks: UnifiedSubtitleParams {
            predicate: TrackPredicate::Any,
            conversion: None,
            default_language: None,
            total_to_retain: None,
        },
        video_tracks: UnifiedVideoParams {
            predicate: TrackPredicate::Any,
            conversion: None,
            default_language: None,
            total_to_retain: None,
        },
        other_tracks: UnifiedOtherTrackParams { import_from_original: false },
        track_params: None,
        attachments: AttachmentParams {
            import_from_original: false,
            import_original_extensions: None,
            import_from_folder: None,
            import_folder_extensions: None,
        },
        chapters: ChapterParams {
            import_from_original: false,
            create_if_not_present: false,
            create_interval: None,
        },
        misc: MiscParams {
            remove_original_file: None,
            remove_temp_files: None,
            set_file_title: None,
            shutdown_upon_completion: None,
            tags_path: None,
            run: None,
            pre_mux_media_files: None,
        },
    }
}

fn audio_track(id: u32, codec: Codec) -> MediaFileTrack {
    MediaFileTrack {
        track_type: TrackType::Audio,
        id,
        codec,
        channels: 2,
        delay: 0,
        delay_source: DelaySource::Absent,
        title: String::new(),
        language: String::from("ja"),
        width: 0,
        height: 0,
        bit_depth: 0,
        extra_info: MediaInfoExtra { attachments: Vec::new() },
        file_id: 3,
    }
}

fn media_file(tracks: Vec<MediaFileTrack>) -> MediaFile {
    MediaFile {
        id: 3,
        file_path: String::from("in.mkv"),
        output_path: String::from("out.mkv"),
        media: MediaFileInfo { tracks },
        attachments: Vec::new(),
        track_type_counter: TrackCounts::new(),
        muxing_args: Vec::new(),
    }
}

#[test]
fn every_codec_maps_to_one_extension() {
    assert_eq!(MediaFileTrack::get_extension_from_codec(&Codec::Aac), "aac");
    assert_eq!(MediaFileTrack::get_extension_from_codec(&Codec::Opus), "opus");
    assert_eq!(MediaFileTrack::get_extension_from_codec(&Codec::Flac), "flac");
    assert_eq!(MediaFileTrack::get_extension_from_codec(&Codec::Mp3), "mp3");
    assert_eq!(MediaFileTrack::get_extension_from_codec(&Codec::Hdmv), "srt");
    assert_eq!(Codec::from(AudioCodec::Vorbis), Codec::Opus);
    assert_eq!(Codec::from(AudioCodec::Mp3Shine), Codec::Mp3);
}

#[test]
fn codec_id_tables_map_and_default() {
    assert_eq!(media_info::string_to_codec_enum("A_FLAC"), media_info::Codec::Flac);
    assert_eq!(media_info::string_to_codec_enum("V_VP9"), media_info::Codec::Vp9);
    assert_eq!(media_info::string_to_codec_enum("S_KATE"), media_info::Codec::Kate);
    assert_eq!(media_info::string_to_codec_enum("X_NOPE"), media_info::Codec::Unknown);
}

#[test]
fn track_file_names_and_paths() {
    let t = audio_track(2, Codec::Opus);
    assert_eq!(t.get_out_file_name(), "audio_2_ja.opus");
    assert_eq!(t.get_input_file_path("/tmp/work"), "/tmp/work/3\\tracks\\audio_2_ja.opus");
    assert_eq!(
        t.get_output_file_path(&Codec::Flac, "/tmp/work"),
        "/tmp/work/3\\tracks\\audio_2_ja.flac"
    );
    let it = media_info::MediaInfoTrack {
        track_type: media_info::TrackType::Video,
        id: -1,
        codec: media_info::Codec::H264,
        language: String::from("en"),
        default: false,
        extra_info: media_info::MediaInfoExtra { attachments: Vec::new() },
    };
    assert_eq!(it.get_out_file_name(), "video_-1_en.h264");
}

#[test]
fn opus_argument_list_is_exact() {
    let params = AudioConvertParams {
        codec: Some(AudioCodec::Opus),
        channels: Some(6),
        bitrate: Some(192),
        vbr: Some(VbrOptions::Opus(OpusVbrOptions::On)),
        compression_level: Some(10),
        threads: Some(4),
        volume_adjustment: None,
        filters: None,
    };
    let track = audio_track(2, Codec::Dts);
    let args = params
        .as_ffmpeg_argument_list(&track, "in.dts", "out.opus")
        .expect("a valid Opus parameter set yields arguments");
    assert_eq!(args, vec![
        String::from("-y"),
        String::from("-threads"),
        String::from("4"),
        String::from("-i"),
        String::from("in.dts"),
        String::from("-c:a"),
        String::from("libopus"),
        String::from("-b:a"),
        String::from("192k"),
        String::from("-vbr"),
        String::from("on"),
        String::from("-compression_level"),
        String::from("10"),
        String::from("-ac"),
        String::from("6"),
        String::from("out.opus"),
    ]);
}

#[test]
fn invalid_opus_parameters_are_rejected() {
    let params = AudioConvertParams {
        codec: Some(AudioCodec::Opus),
        channels: None,
        bitrate: None,
        vbr: Some(VbrOptions::AacLibfdk(3)),
        compression_level: None,
        threads: None,
        volume_adjustment: None,
        filters: None,
    };
    assert!(!params.validate());
    let track = audio_track(2, Codec::Dts);
    assert!(params.as_ffmpeg_argument_list(&track, "a", "b").is_none());
    let too_complex = AudioConvertParams { compression_level: Some(11), vbr: None, ..params };
    assert!(!too_complex.validate());
}

#[test]
fn missing_codec_copies_the_stream() {
    let params = AudioConvertParams {
        codec: None,
        channels: None,
        bitrate: None,
        vbr: None,
        compression_level: None,
        threads: None,
        volume_adjustment: None,
        filters: None,
    };
    let track = audio_track(2, Codec::Dts);
    let args = params.as_ffmpeg_argument_list(&track, "a", "b").unwrap();
    assert_eq!(args, vec![String::from("-y"), String::from("-c:a"), String::from("copy")]);
}

#[test]
fn audio_parameters_build_per_type_arguments() {
    let params = AudioParameters {
        codec: Some(PropsAudioCodec::Opus),
        channels: None,
        bitrate: Some(128),
        vbr: None,
        compression_level: None,
        threads: None,
    };
    let args = params
        .as_ffmpeg_argument_list("in.flac", "out.opus", ConversionType::Audio)
        .expect("valid parameters yield arguments");
    assert_eq!(args, vec![
        String::from("-i"),
        String::from("in.flac"),
        String::from("-c:a"),
        String::from("libopus"),
        String::from("-b:a"),
        String::from("128k"),
        String::from("out.opus"),
    ]);
    let copy = AudioParameters { codec: None, ..params };
    assert_eq!(
        copy.as_ffmpeg_argument_list("x", "y", ConversionType::Video).unwrap(),
        vec![String::from("copy")]
    );
}

#[test]
fn identical_source_and_target_codec_triggers_rename() {
    let params = AudioConvertParams {
        codec: Some(AudioCodec::Opus),
        channels: None,
        bitrate: None,
        vbr: None,
        compression_level: None,
        threads: None,
        volume_adjustment: None,
        filters: None,
    };
    let mf = media_file(vec![audio_track(2, Codec::Opus)]);
    let jobs = mf.plan_audio_conversions(&params, "/tmp/work").unwrap();
    assert_eq!(jobs.len(), 1);
    let job = &jobs[0];
    assert_eq!(job.out_path, "/tmp/work/3\\tracks\\audio_2_ja.opus");
    assert_eq!(job.renamed_from.as_deref(), Some("/tmp/work/3\\tracks\\audio_2_ja.opus"));
    assert_eq!(job.in_path, "/tmp/work/3\\tracks\\moved2.opus");
}

#[test]
fn different_target_codec_needs_no_rename() {
    let params = AudioConvertParams {
        codec: Some(AudioCodec::Flac),
        channels: None,
        bitrate: None,
        vbr: None,
        compression_level: None,
        threads: None,
        volume_adjustment: None,
        filters: None,
    };
    // A non-Opus target is outside the validated combinations, so plan only
    // the no-codec path here; the distinct-path shape is checked via Opus.
    let opus = AudioConvertParams { codec: Some(AudioCodec::Opus), ..params };
    let mf = media_file(vec![audio_track(2, Codec::Flac)]);
    let jobs = mf.plan_audio_conversions(&opus, "/tmp/work").unwrap();
    assert_eq!(jobs[0].renamed_from, None);
    assert_eq!(jobs[0].in_path, "/tmp/work/3\\tracks\\audio_2_ja.flac");
    assert_eq!(jobs[0].out_path, "/tmp/work/3\\tracks\\audio_2_ja.opus");
}

#[test]
fn codec_updates_apply_to_audio_tracks_only() {
    let mut mf = media_file(vec![
        MediaFileTrack { track_type: TrackType::Video, ..audio_track(1, Codec::H264) },
        audio_track(2, Codec::Dts),
    ]);
    mf.apply_audio_codec_updates(Codec::Opus);
    assert_eq!(mf.media.tracks[0].codec, Codec::H264);
    assert_eq!(mf.media.tracks[1].codec, Codec::Opus);
}

#[test]
fn process_stages_follow_the_pipeline_order() {
    let next = MediaFile::next_process_stage;
    assert_eq!(next(&ProcessStage::Filtering, true), ProcessStage::Extracting);
    assert_eq!(next(&ProcessStage::Extracting, true), ProcessStage::PreConvertCommands);
    assert_eq!(next(&ProcessStage::Extracting, false), ProcessStage::Failed);
    assert_eq!(next(&ProcessStage::PreConvertCommands, false), ProcessStage::ConvertingAudio);
    assert_eq!(next(&ProcessStage::ConvertingAudio, false), ProcessStage::Failed);
    assert_eq!(next(&ProcessStage::PreMuxCommands, true), ProcessStage::Remuxing);
    // A failed remux skips the post-mux hooks but still cleans up, and the
    // file then counts as failed.
    assert_eq!(next(&ProcessStage::Remuxing, false), ProcessStage::CleanupAfterFailure);
    assert_eq!(next(&ProcessStage::CleanupAfterFailure, true), ProcessStage::Failed);
    assert_eq!(next(&ProcessStage::CleanupAfterFailure, false), ProcessStage::Failed);
    assert_eq!(next(&ProcessStage::Remuxing, true), ProcessStage::PostMuxCommands);
    assert_eq!(next(&ProcessStage::Cleanup, true), ProcessStage::Succeeded);
}

#[test]
fn stage_commands_filter_by_stage() {
    let mut params = plain_params();
    params.misc.run = Some(vec![
        ProcessRun::PreMux(vec![String::from("a.exe"), String::from("1")]),
        ProcessRun::PostMux(vec![String::from("b.exe")]),
        ProcessRun::PreMux(vec![String::from("c.exe")]),
    ]);
    let pre = mkv_batch::media_file::stage_commands(&params, RunCommandType::PreMux);
    assert_eq!(pre, vec![
        vec![String::from("a.exe"), String::from("1")],
        vec![String::from("c.exe")],
    ]);
    let post_convert = mkv_batch::media_file::stage_commands(&params, RunCommandType::PostConvert);
    assert!(post_convert.is_empty());
}

#[test]
fn command_arguments_substitute_tokens() {
    let mf = media_file(Vec::new());
    let cmd = vec![
        String::from("tool.exe"),
        String::from("--in=%i%"),
        String::from("--log=%log%x"),
        String::from("%t%/scratch"),
    ];
    // With logging inactive, the argument holding the log token is dropped.
    let quiet = mf.prepare_command_args(&cmd, "/tmp/work", false);
    assert_eq!(quiet, vec![String::from("--in=in.mkv"), String::from("/tmp/work/3/scratch")]);
    // With logging active, the log token is removed but the argument stays.
    let chatty = mf.prepare_command_args(&cmd, "/tmp/work", true);
    assert_eq!(chatty, vec![
        String::from("--in=in.mkv"),
        String::from("--log=x"),
        String::from("/tmp/work/3/scratch"),
    ]);
}

#[test]
fn remux_arguments_cover_title_chapters_and_order() {
    let mut params = plain_params();
    params.misc.set_file_title = Some(true);
    params.chapters.create_if_not_present = true;
    let mut mf = media_file(vec![audio_track(1, Codec::Opus)]);
    mf.build_remux_args("final.mkv", "My Title", &params, "/tmp/work", false, false, &Vec::new(), &Vec::new());
    let args = mf.muxing_args.clone();
    assert_eq!(&args[0..4], &[
        String::from("-o"),
        String::from("final.mkv"),
        String::from("--title"),
        String::from("My Title"),
    ]);
    assert!(args.contains(&String::from("--generate-chapters")));
    assert!(args.contains(&String::from("interval:00:05:00.000000000")));
    assert_eq!(args[args.len() - 2], "--track-order");
    assert_eq!(args[args.len() - 1], "0:0");
}

#[test]
fn track_flags_drop_on_category_mismatch() {
    let mut params = plain_params();
    params.track_params = Some(vec![TrackParams {
        id: 0,
        default: Some(true),
        enabled: None,
        forced: Some(true),
        hearing_impaired: None,
        visual_impaired: None,
        text_descriptions: None,
        original: None,
        commentary: Some(true),
        delay_override: None,
    }]);
    let mut mf = media_file(vec![audio_track(7, Codec::Opus)]);
    mf.apply_additional_track_mux_params(0, &params);
    // The forced flag belongs to subtitle tracks and is dropped for audio;
    // commentary applies to audio.
    assert_eq!(mf.muxing_args, vec![
        String::from("--default-track-flag"),
        String::from("0:yes"),
        String::from("--commentary-flag"),
        String::from("0:yes"),
    ]);
}

#[test]
fn delay_override_promotes_absent_source() {
    let mut params = plain_params();
    params.track_params = Some(vec![TrackParams {
        id: 0,
        default: None,
        enabled: None,
        forced: None,
        hearing_impaired: None,
        visual_impaired: None,
        text_descriptions: None,
        original: None,
        commentary: None,
        delay_override: Some(250),
    }]);
    let mut mf = media_file(vec![audio_track(1, Codec::Opus)]);
    mf.apply_track_mux_params(&params);
    assert_eq!(mf.muxing_args[0], "--sync");
    // The emitted value is the configured override.
    assert_eq!(mf.muxing_args[1], "0:250");
}

#[test]
fn attachment_arguments_respect_filters_and_presence() {
    let params = {
        let mut p = plain_params();
        p.attachments.import_from_original = true;
        p.attachments.import_original_extensions = Some(vec![String::from("ttf")]);
        p
    };
    let mut mf = media_file(Vec::new());
    mf.attachments = vec![String::from("font.ttf"), String::from("cover.png")];
    mf.apply_internal_attachment_mux_params(&params, "/tmp/work", &vec![true, true]);
    assert_eq!(mf.muxing_args, vec![
        String::from("--attachment-name"),
        String::from("font.ttf"),
        String::from("--attach-file"),
        String::from("/tmp/work/3/attachments/font.ttf"),
    ]);

    // A missing attachment file is skipped, not an error.
    let mut mf2 = media_file(Vec::new());
    mf2.attachments = vec![String::from("font.ttf")];
    mf2.apply_internal_attachment_mux_params(&params, "/tmp/work", &vec![false]);
    assert!(mf2.muxing_args.is_empty());
}

#[test]
fn internal_attachment_filter_keeps_matching_extensions() {
    let params = {
        let mut p = plain_params();
        p.attachments.import_original_extensions =
            Some(vec![String::from("ttf"), String::from("otf")]);
        p
    };
    let mut mf = media_file(Vec::new());
    mf.attachments = vec![
        String::from("a.ttf"),
        String::from("b.png"),
        String::from("c.OTF"),
    ];
    mf.filter_internal_attachments(&params);
    assert_eq!(mf.attachments, vec![String::from("a.ttf"), String::from("c.OTF")]);
}

#[test]
fn extract_argument_lists() {
    let mf = {
        let mut m = media_file(vec![audio_track(4, Codec::Dts)]);
        m.attachments = vec![String::from("font.ttf"), String::from("cover.png")];
        m
    };
    assert_eq!(mf.extract_tracks_args(), vec![String::from("4:audio_4_ja.dts")]);
    assert_eq!(mf.extract_attachments_args(), vec![
        String::from("1:font.ttf"),
        String::from("2:cover.png"),
    ]);
}

#[test]
fn tool_adapters_classify_exit_codes() {
    assert!(tool_exit_success(0));
    assert!(tool_exit_success(1));
    assert!(!tool_exit_success(2));
    assert!(tool_exit_success(3));
    assert!(ffmpeg_exit_success(0));
    assert!(!ffmpeg_exit_success(1));
    assert_eq!(get_exe("mkvmerge", "C:\\tools"), "C:\\tools/mkvmerge.exe");
    assert_eq!(
        remux_media_file_args("a.mp4", "a.mkv"),
        vec![
            String::from("-i"),
            String::from("a.mp4"),
            String::from("-c"),
            String::from("copy"),
            String::from("a.mkv"),
        ]
    );
}

#[test]
fn script_file_paths_are_random_but_shaped() {
    let name = ScriptFile::generate_random_file_name("premux");
    assert_eq!(name.len(), 16 + 1 + 6 + 4);
    assert!(name.ends_with("-premux.bat"));
    let path = ScriptFile::generate_temp_file_path(5, "premux", "/tmp/work");
    assert!(path.starts_with("/tmp/work/5/scripts/"));
    assert!(path.ends_with("-premux.bat"));
    let sf = ScriptFile { path: path.clone() };
    assert_eq!(sf.get_path(), &path);
}
