use mkv_batch::file_processor::{natural_sort, FileProcessor, PadType};
use mkv_batch::media_file::{
    Codec, DelaySource, MediaFile, MediaFileInfo, MediaFileTrack, MediaInfoExtra, ProcessStage,
    TrackCounts, TrackType,
};
use mkv_batch::substitutions::Substitutions;
use mkv_batch::unified::{
    AttachmentParams, ChapterParams, MiscParams, PredicateFilterMatch, TrackIndexPredicate,
    TrackLanguagePredicate, TrackPredicate, TrackTitlePredicate, TrackTitlePredicateCondition,
    TrackTitlePredicateType, UnifiedAudioParams, UnifiedOtherTrackParams, UnifiedParams,
    UnifiedSubtitleParams, UnifiedVideoParams,
};

fn plain_params() -> UnifiedParams {
    UnifiedParams {
        audio_tracks: UnifiedAudioParams {
            predicate: TrackPredicate::Any,
            conversion: None,
            default_language: None,
            total_to_retain: None,
        },
        subtitle_tracks: UnifiedSubtitleParams {
            predicate: TrackPredicate::Any,
            conversion: None,
            default_language: None,
            total_to_retain: None,
        },
        video_tracks: UnifiedVideoParams {
            predicate: TrackPredicate::Any,
            conversion: None,
            default_language: None,
            total_to_retain: None,
        },
        other_tracks: UnifiedOtherTrackParams { import_from_original: false },
        track_params: None,
        attachments: AttachmentParams {
            import_from_original: false,
            import_original_extensions: None,
            import_from_folder: None,
            import_folder_extensions: None,
        },
        chapters: ChapterParams {
            import_from_original: false,
            create_if_not_present: false,
            create_interval: None,
        },
        misc: MiscParams {
            remove_original_file: None,
            remove_temp_files: None,
            set_file_title: None,
            shutdown_upon_completion: None,
            tags_path: None,
            run: None,
            pre_mux_media_files: None,
        },
    }
}

fn track(track_type: TrackType, id: u32, language: &str, title: &str) -> MediaFileTrack {
    MediaFileTrack {
        track_type,
        id,
        codec: Codec::Unknown,
        channels: 0,
        delay: 0,
        delay_source: DelaySource::Absent,
        title: title.to_string(),
        language: language.to_string(),
        width: 0,
        height: 0,
        bit_depth: 0,
        extra_info: MediaInfoExtra { attachments: Vec::new() },
        file_id: 0,
    }
}

fn media_file(tracks: Vec<MediaFileTrack>) -> MediaFile {
    MediaFile {
        id: 0,
        file_path: String::from("in.mkv"),
        output_path: String::from("out.mkv"),
        media: MediaFileInfo { tracks },
        attachments: Vec::new(),
        track_type_counter: TrackCounts::new(),
        muxing_args: Vec::new(),
    }
}

#[test]
fn empty_index_predicate_matches_everything() {
    let p = TrackIndexPredicate { ids: Vec::new() };
    assert!(p.is_match(0));
    assert!(p.is_match(3));
    assert!(p.is_match(1000));
}

#[test]
fn nonempty_index_predicate_matches_only_listed() {
    let p = TrackIndexPredicate { ids: vec![1, 3] };
    assert!(p.is_match(1));
    assert!(p.is_match(3));
    assert!(!p.is_match(2));
}

#[test]
fn empty_language_predicate_matches_everything() {
    let p = TrackLanguagePredicate { ids: Vec::new() };
    assert!(p.is_match("ja"));
    assert!(p.is_match(""));
}

#[test]
fn language_predicate_matches_listed_language() {
    let p = TrackLanguagePredicate { ids: vec![String::from("ja"), String::from("de")] };
    assert!(p.is_match("ja"));
    assert!(!p.is_match("en"));
}

#[test]
fn empty_combinators_all_match() {
    for condition in [
        TrackTitlePredicateCondition::And,
        TrackTitlePredicateCondition::Or,
        TrackTitlePredicateCondition::Not,
    ] {
        let p = TrackTitlePredicate {
            filter_condition: condition,
            filters: Vec::new(),
            regex_filters: Vec::new(),
        };
        assert!(p.is_match("anything"));
        assert!(p.is_match(""));
    }
}

#[test]
fn or_combinator_keeps_initial_true() {
    // The OR fold starts from true, so even a list of failing sub-rules
    // matches.
    let p = TrackTitlePredicate {
        filter_condition: TrackTitlePredicateCondition::Or,
        filters: vec![TrackTitlePredicateType::Equals(String::from("no such title"))],
        regex_filters: Vec::new(),
    };
    assert!(p.is_match("another title"));
}

#[test]
fn and_combinator_requires_all() {
    let p = TrackTitlePredicate {
        filter_condition: TrackTitlePredicateCondition::And,
        filters: vec![
            TrackTitlePredicateType::Contains(String::from("Sign")),
            TrackTitlePredicateType::Equals(String::from("Signs & Songs")),
        ],
        regex_filters: Vec::new(),
    };
    assert!(p.is_match("Signs & Songs"));
    assert!(!p.is_match("Songs"));
}

#[test]
fn not_combinator_rejects_matching() {
    let p = TrackTitlePredicate {
        filter_condition: TrackTitlePredicateCondition::Not,
        filters: vec![TrackTitlePredicateType::Contains(String::from("Commentary"))],
        regex_filters: Vec::new(),
    };
    assert!(!p.is_match("Commentary Track"));
    assert!(p.is_match("Main Audio"));
}

#[test]
fn regex_predicate_matches_after_initialization() {
    let mut p = TrackPredicate::Title(TrackTitlePredicate {
        filter_condition: TrackTitlePredicateCondition::And,
        filters: vec![TrackTitlePredicateType::Regex(String::from("^Sig.s$"))],
        regex_filters: Vec::new(),
    });
    assert!(p.initialize_regex());
    if let TrackPredicate::Title(t) = &p {
        assert!(t.is_match("Signs"));
        assert!(!t.is_match("Sign"));
    } else {
        panic!();
    }
}

#[test]
fn malformed_regex_rejects_initialization() {
    let mut p = TrackPredicate::Title(TrackTitlePredicate {
        filter_condition: TrackTitlePredicateCondition::And,
        filters: vec![TrackTitlePredicateType::Regex(String::from("(unclosed"))],
        regex_filters: Vec::new(),
    });
    assert!(!p.initialize_regex());
}

#[test]
fn quota_keeps_exactly_first_n_in_order() {
    let mut params = plain_params();
    params.audio_tracks.total_to_retain = Some(2);
    let mut mf = media_file(vec![
        track(TrackType::General, 0, "und", ""),
        track(TrackType::Audio, 1, "ja", "first"),
        track(TrackType::Audio, 2, "en", "second"),
        track(TrackType::Audio, 3, "de", "third"),
    ]);
    assert!(mf.filter_tracks(&params));
    assert_eq!(mf.media.tracks.len(), 2);
    assert_eq!(mf.media.tracks[0].title, "first");
    assert_eq!(mf.media.tracks[1].title, "second");
}

#[test]
fn quota_shortfall_rejects_file_before_extraction() {
    let mut params = plain_params();
    params.audio_tracks.predicate =
        TrackPredicate::Language(TrackLanguagePredicate { ids: vec![String::from("ja")] });
    params.audio_tracks.total_to_retain = Some(2);
    let mut mf = media_file(vec![
        track(TrackType::General, 0, "und", ""),
        track(TrackType::Audio, 1, "ja", ""),
        track(TrackType::Audio, 2, "en", ""),
    ]);
    let ok = mf.filter_tracks(&params);
    assert!(!ok);
    // The track list stays untouched on failure.
    assert_eq!(mf.media.tracks.len(), 3);
    // A failed filter stage aborts the file before any extraction stage.
    let next = MediaFile::next_process_stage(&ProcessStage::Filtering, ok);
    assert_eq!(next, ProcessStage::Failed);
}

#[test]
fn general_and_menu_tracks_are_never_kept() {
    let params = plain_params();
    let mut mf = media_file(vec![
        track(TrackType::General, 0, "und", ""),
        track(TrackType::Menu, 1, "und", ""),
    ]);
    assert!(mf.filter_tracks(&params));
    assert_eq!(mf.media.tracks.len(), 0);
}

#[test]
fn other_tracks_kept_only_when_enabled() {
    let mut params = plain_params();
    let mut mf = media_file(vec![
        track(TrackType::General, 0, "und", ""),
        track(TrackType::Other, 1, "und", ""),
    ]);
    assert!(mf.filter_tracks(&params));
    assert_eq!(mf.media.tracks.len(), 0);

    params.other_tracks.import_from_original = true;
    let mut mf2 = media_file(vec![
        track(TrackType::General, 0, "und", ""),
        track(TrackType::Other, 1, "und", ""),
    ]);
    assert!(mf2.filter_tracks(&params));
    assert_eq!(mf2.media.tracks.len(), 1);
}

#[test]
fn language_defaults_backfill_only_undefined() {
    let mut params = plain_params();
    params.audio_tracks.default_language = Some(String::from("ja"));
    let mut mf = media_file(vec![
        track(TrackType::Audio, 1, "und", ""),
        track(TrackType::Audio, 2, "en", ""),
        track(TrackType::Video, 3, "und", ""),
    ]);
    mf.apply_track_language_defaults(&params);
    assert_eq!(mf.media.tracks[0].language, "ja");
    assert_eq!(mf.media.tracks[1].language, "en");
    assert_eq!(mf.media.tracks[2].language, "und");
}

#[test]
fn natural_sort_orders_numeric_runs_by_value() {
    let input = vec![
        String::from("f2.mkv"),
        String::from("f10.mkv"),
        String::from("f1.mkv"),
    ];
    let sorted = natural_sort(&input);
    assert_eq!(sorted, vec![
        String::from("f1.mkv"),
        String::from("f2.mkv"),
        String::from("f10.mkv"),
    ]);
}

fn plain_substitutions() -> Substitutions {
    Substitutions {
        convert_to_proper_title_case: false,
        regular_expressions: Vec::new(),
        strings: Vec::new(),
        strip_invalid_ntfs_chars: true,
        fix_case_after_dashes: true,
        regex_internal: Vec::new(),
    }
}

#[test]
fn matcher_stop_sentinel_truncates_inputs() {
    let lines = vec![
        String::from("Alpha"),
        String::from("Beta"),
        String::from("Gamma"),
        String::from("###STOP###"),
        String::from("Delta"),
    ];
    let candidates = vec![
        String::from("f2.mkv"),
        String::from("f10.mkv"),
        String::from("f1.mkv"),
        String::from("f4.mkv"),
        String::from("f3.mkv"),
    ];
    let subs = plain_substitutions();
    let fp = FileProcessor::new(&lines, &candidates, "out", None, None, &subs)
        .expect("the matcher accepts three names with five inputs behind a stop sentinel");
    assert!(fp.has_stop_clause);
    assert_eq!(fp.titles, vec![
        String::from("Alpha"),
        String::from("Beta"),
        String::from("Gamma"),
    ]);
    assert_eq!(fp.input_paths, vec![
        String::from("f1.mkv"),
        String::from("f2.mkv"),
        String::from("f3.mkv"),
    ]);
}

#[test]
fn matcher_count_mismatch_rejects_batch() {
    let lines = vec![
        String::from("Alpha"),
        String::from("Beta"),
        String::from("Gamma"),
    ];
    let candidates = vec![
        String::from("f1.mkv"),
        String::from("f2.mkv"),
        String::from("f3.mkv"),
        String::from("f4.mkv"),
    ];
    let subs = plain_substitutions();
    assert!(FileProcessor::new(&lines, &candidates, "out", None, None, &subs).is_none());
}

#[test]
fn matcher_skips_comments_and_pads_indices() {
    let lines = vec![
        String::from("# a comment"),
        String::from(""),
        String::from("Alpha"),
        String::from("Beta"),
    ];
    let candidates = vec![String::from("b.mkv"), String::from("a.mkv")];
    let subs = plain_substitutions();
    let fp = FileProcessor::new(&lines, &candidates, "out", Some(1), Some(PadType::Ten), &subs)
        .expect("two names and two inputs match");
    assert_eq!(fp.output_paths, vec![
        String::from("out/01 – Alpha.mkv"),
        String::from("out/02 – Beta.mkv"),
    ]);
    assert_eq!(fp.input_paths, vec![String::from("a.mkv"), String::from("b.mkv")]);
}

#[test]
fn end_to_end_selection_and_mux_languages() {
    let mut params = plain_params();
    params.audio_tracks.predicate =
        TrackPredicate::Language(TrackLanguagePredicate { ids: vec![String::from("ja")] });
    params.audio_tracks.total_to_retain = Some(1);
    params.subtitle_tracks.predicate =
        TrackPredicate::Language(TrackLanguagePredicate { ids: vec![String::from("en")] });
    params.subtitle_tracks.total_to_retain = Some(1);

    let mut mf = media_file(vec![
        track(TrackType::General, 0, "und", ""),
        track(TrackType::Video, 1, "en", ""),
        track(TrackType::Audio, 2, "ja", ""),
        track(TrackType::Audio, 3, "en", ""),
        track(TrackType::Subtitle, 4, "en", ""),
    ]);
    assert!(mf.filter_tracks(&params));
    let kept: Vec<(TrackType, u32)> =
        mf.media.tracks.iter().map(|t| (t.track_type, t.id)).collect();
    assert_eq!(kept, vec![
        (TrackType::Video, 1),
        (TrackType::Audio, 2),
        (TrackType::Subtitle, 4),
    ]);

    mf.apply_track_mux_params(&params);
    let args = mf.muxing_args.clone();
    // The video track is always muxed as undefined; the audio track keeps its
    // detected language.
    let lang_values: Vec<&String> = args
        .iter()
        .enumerate()
        .filter(|(i, a)| *i > 0 && args[i - 1] == "--language" && !a.is_empty())
        .map(|(_, a)| a)
        .collect();
    assert_eq!(lang_values, vec!["0:und", "0:ja", "0:en"]);
}
