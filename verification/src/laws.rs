//! Laws of the track selection and conversion rules, stated and proved once
//! over the specifications that the executable functions are verified
//! against.

use vstd::prelude::*;

use crate::audio::AudioCodec;
use crate::media_file::{
    codec_of_audio_spec, extension_of_codec_spec, keep_decision_spec, kept_count, quota_for,
    spec_keep, targets_met_spec, TrackCounts, TrackType, TrackView,
};
use crate::unified::{
    title_match_spec, PredicateFilterMatch, TrackIndexPredicate, TrackLanguagePredicate,
    TrackTitlePredicate, UnifiedParams,
};

verus! {

/// An index predicate with an empty accepted set matches every candidate.
pub proof fn lemma_empty_index_predicate_matches_all(p: &TrackIndexPredicate, needle: usize)
    requires
        p.ids@.len() == 0,
    ensures
        p.matches_spec(needle),
{
}

/// A language predicate with an empty accepted set matches every candidate.
pub proof fn lemma_empty_language_predicate_matches_all(
    p: &TrackLanguagePredicate,
    needle: Seq<char>,
)
    requires
        p.ids@.len() == 0,
    ensures
        crate::unified::language_match_spec(p.ids.deep_view(), needle),
{
    assert(p.ids.deep_view().len() == 0);
}

/// A title predicate with no sub-rules matches every title, under every
/// combinator: the AND, OR and NOT folds over an empty rule list keep their
/// initial true value.
pub proof fn lemma_empty_title_predicate_matches_all(p: &TrackTitlePredicate, needle: Seq<char>)
    requires
        p.filters@.len() == 0,
        p.regex_filters@.len() == 0,
    ensures
        title_match_spec(p, needle),
{
    assert(p.regex_filters.deep_view().len() == 0);
}

/// Whether a track matches its category's rules, quota aside: general and
/// menu tracks never, button and other tracks when enabled, and audio,
/// subtitle and video tracks when their predicate accepts them.
pub open spec fn track_matches(tracks: Seq<TrackView>, params: &UnifiedParams, i: int) -> bool {
    match tracks[i].track_type {
        TrackType::General => false,
        TrackType::Menu => false,
        TrackType::Button => params.other_tracks.import_from_original,
        TrackType::Other => params.other_tracks.import_from_original,
        t => crate::media_file::predicate_match_for(
            params,
            t,
            i - 1,
            tracks[i].language,
            tracks[i].title,
        ),
    }
}

/// How many tracks of category `t` among the first `i` match their rules.
pub open spec fn match_count(
    tracks: Seq<TrackView>,
    params: &UnifiedParams,
    t: TrackType,
    i: int,
) -> int
    decreases i,
{
    if i <= 0 {
        0
    } else {
        match_count(tracks, params, t, i - 1) + (if tracks[i - 1].track_type == t && track_matches(
            tracks,
            params,
            i - 1,
        ) {
            1int
        } else {
            0int
        })
    }
}

/// With a quota of `q` for a category, the kept count among the first `i`
/// tracks is the match count capped at `q`, and a track of that category is
/// kept exactly when it matches and fewer than `q` matching tracks of the
/// category precede it: exactly the first `q` matching candidates, in
/// original order, are kept.
pub proof fn lemma_quota_keeps_first_matches(
    tracks: Seq<TrackView>,
    params: &UnifiedParams,
    t: TrackType,
    q: usize,
    i: int,
)
    requires
        quota_for(params, t) == Option::Some(q),
        0 <= i <= tracks.len(),
    ensures
        kept_count(tracks, params, t, i) == vstd::math::min(
            q as int,
            match_count(tracks, params, t, i),
        ),
        forall|j: int|
            0 <= j < i && tracks[j].track_type == t ==> (#[trigger] spec_keep(tracks, params, j)
                <==> (track_matches(tracks, params, j) && match_count(tracks, params, t, j)
                < q)),
    decreases i,
{
    if i > 0 {
        lemma_quota_keeps_first_matches(tracks, params, t, q, i - 1);
        if tracks[i - 1].track_type == t {
            assert(spec_keep(tracks, params, i - 1) == (keep_decision_spec(
                tracks[i - 1],
                i - 1,
                kept_count(tracks, params, t, i - 1),
                params,
            )));
        }
    }
}

/// With a quota of `q` for a category and fewer than `q` matching candidates
/// in the whole file, the realized count falls short of the quota, so the
/// file's filter targets are not met and the file is rejected before any
/// extraction runs.
pub proof fn lemma_quota_shortfall_rejects(
    tracks: Seq<TrackView>,
    params: &UnifiedParams,
    t: TrackType,
    q: usize,
    counts: TrackCounts,
)
    requires
        quota_for(params, t) == Option::Some(q),
        match_count(tracks, params, t, tracks.len() as int) < q,
        counts.spec_get(t) == kept_count(tracks, params, t, tracks.len() as int),
    ensures
        kept_count(tracks, params, t, tracks.len() as int) < q,
        !targets_met_spec(counts, params),
{
    lemma_quota_keeps_first_matches(tracks, params, t, q, tracks.len() as int);
}

/// When the extracted track's file already carries the conversion target's
/// extension — the source and target codec share it — encoding in place would
/// collide, so the planned conversion first renames the input aside.
pub proof fn lemma_same_extension_conversion_renames(
    track: crate::media_file::MediaFileTrack,
    index: int,
    params: &crate::audio::AudioConvertParams,
    out_codec: crate::media_file::Codec,
    temp: Seq<char>,
)
    requires
        crate::utils::has_extension_spec(crate::media_file::input_file_path_spec(track@, temp)),
        crate::utils::extension_spec(crate::media_file::input_file_path_spec(track@, temp))
            == extension_of_codec_spec(out_codec),
    ensures
        crate::media_file::audio_job_spec(track, index, params, out_codec, temp).renamed_from
            is Some,
{
    let in0 = crate::media_file::input_file_path_spec(track@, temp);
    crate::utils::lemma_same_extension_swap_identity(in0, extension_of_codec_spec(out_codec));
}

/// Every enumerated target audio codec maps to exactly one output file
/// extension.
pub proof fn lemma_audio_target_extension(ac: AudioCodec)
    ensures
        extension_of_codec_spec(codec_of_audio_spec(ac)) == (match ac {
            AudioCodec::Aac => "aac"@,
            AudioCodec::AacLibfdk => "aac"@,
            AudioCodec::Ac3 => "ac3"@,
            AudioCodec::Flac => "flac"@,
            AudioCodec::Mp3Lame => "mp3"@,
            AudioCodec::Mp3Shine => "mp3"@,
            AudioCodec::Opus => "opus"@,
            AudioCodec::Vorbis => "opus"@,
        }),
{
}

} // verus!
