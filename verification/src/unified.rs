//! The declarative rule language for track selection — index, language and
//! title predicates with AND/OR/NOT combinators — and the per-category
//! processing parameters.

use vstd::prelude::*;
use vstd::string::StringExecFns;

use crate::audio::AudioConvertParams;
use crate::rx;
use crate::strutil::{contains_seq, str_eq};
use crate::subtitle::SubtitleParams;
use crate::video::VideoConvertParams;

verus! {

/// A predicate classifies a candidate as kept or rejected.
pub trait PredicateFilterMatch<T> {
    /// The predicate is ready to be evaluated.
    spec fn pred_wf(&self) -> bool;

    /// What the predicate accepts.
    spec fn matches_spec(&self, needle: T) -> bool;

    /// Checks whether a candidate is a match against the specified filters.
    fn is_match(&self, needle: T) -> (r: bool)
        ensures
            self.pred_wf() ==> r == self.matches_spec(needle),
    ;
}

/// Filter by track index: an empty accepted set matches everything.
pub struct TrackIndexPredicate {
    pub ids: Vec<usize>,
}

/// An empty accepted set matches everything; otherwise the needle must be in
/// the set.
pub open spec fn index_match_spec(ids: Seq<usize>, needle: int) -> bool {
    ids.len() == 0 || exists|i: int| 0 <= i < ids.len() && ids[i] == needle
}

impl TrackIndexPredicate {
    pub fn is_empty(&self) -> (r: bool)
        ensures
            r == (self.ids@.len() == 0),
    {
        self.ids.len() == 0
    }
}

impl PredicateFilterMatch<usize> for TrackIndexPredicate {
    open spec fn pred_wf(&self) -> bool {
        true
    }

    open spec fn matches_spec(&self, needle: usize) -> bool {
        index_match_spec(self.ids@, needle as int)
    }

    /// Checks whether a given track index is a match against the filters.
    fn is_match(&self, needle: usize) -> (r: bool) {
        if self.ids.len() == 0 {
            return true;
        }
        let count = self.ids.len();
        let mut i: usize = 0;
        while i < count
            invariant
                count == self.ids@.len(),
                i <= count,
                forall|k: int| 0 <= k < i ==> self.ids@[k] != needle,
            decreases count - i,
        {
            if self.ids[i] == needle {
                return true;
            }
            i = i + 1;
        }
        false
    }
}

/// Filter by language code: an empty accepted set matches everything.
pub struct TrackLanguagePredicate {
    /// A list of language ID codes that have been specified in the filters.
    pub ids: Vec<String>,
}

/// An empty accepted set matches everything; otherwise the needle must be in
/// the set.
pub open spec fn language_match_spec(ids: Seq<Seq<char>>, needle: Seq<char>) -> bool {
    ids.len() == 0 || exists|i: int| 0 <= i < ids.len() && ids[i] == needle
}

impl TrackLanguagePredicate {
    pub fn is_empty(&self) -> (r: bool)
        ensures
            r == (self.ids@.len() == 0),
    {
        self.ids.len() == 0
    }
}

impl<'a> PredicateFilterMatch<&'a str> for TrackLanguagePredicate {
    open spec fn pred_wf(&self) -> bool {
        true
    }

    open spec fn matches_spec(&self, needle: &'a str) -> bool {
        language_match_spec(self.ids.deep_view(), needle@)
    }

    /// Checks whether a given track language ID is a match against the filters.
    fn is_match(&self, needle: &'a str) -> (r: bool) {
        if self.ids.len() == 0 {
            return true;
        }
        let count = self.ids.len();
        let mut i: usize = 0;
        while i < count
            invariant
                count == self.ids@.len(),
                i <= count,
                forall|k: int| 0 <= k < i ==> self.ids.deep_view()[k] != needle@,
            decreases count - i,
        {
            if str_eq(self.ids[i].as_str(), needle) {
                assert(self.ids.deep_view()[i as int] == self.ids@[i as int]@);
                return true;
            }
            assert(self.ids.deep_view()[i as int] == self.ids@[i as int]@);
            i = i + 1;
        }
        false
    }
}

/// How the sub-rules of a title predicate are combined.
#[derive(Clone, Copy, Debug, PartialEq, Eq, Structural)]
pub enum TrackTitlePredicateCondition {
    /// If all of the filters are a match, the title is considered matching.
    And,
    /// If none of the filters are a match, the title is considered matching.
    Not,
    /// If any of the filters are a match, the title is considered matching.
    Or,
}

/// One sub-rule of a title predicate.
#[derive(Clone, Debug)]
pub enum TrackTitlePredicateType {
    /// A fuzzy match: the title must contain the string.
    Contains(String),
    /// A strict match: the title must equal the string.
    Equals(String),
    /// A regular-expression match against the title.
    Regex(String),
}

/// One sub-result folded into the running result.
pub open spec fn combine_spec(cond: TrackTitlePredicateCondition, acc: bool, sub: bool) -> bool {
    match cond {
        TrackTitlePredicateCondition::And => acc && sub,
        TrackTitlePredicateCondition::Or => acc || sub,
        TrackTitlePredicateCondition::Not => acc && !sub,
    }
}

/// The literal sub-rules folded into `acc` from position `i` on; regex
/// sub-rules are left to the regex pass.
pub open spec fn text_fold_spec(
    cond: TrackTitlePredicateCondition,
    filters: Seq<TrackTitlePredicateType>,
    needle: Seq<char>,
    i: int,
    acc: bool,
) -> bool
    decreases filters.len() - i,
{
    if i < 0 || i >= filters.len() {
        acc
    } else {
        let acc2 = match filters[i] {
            TrackTitlePredicateType::Contains(s) => combine_spec(cond, acc, contains_seq(needle, s@)),
            TrackTitlePredicateType::Equals(s) => combine_spec(cond, acc, s@ == needle),
            TrackTitlePredicateType::Regex(_) => acc,
        };
        text_fold_spec(cond, filters, needle, i + 1, acc2)
    }
}

/// The regex sub-rules folded into `acc` from position `i` on.
pub open spec fn regex_fold_spec(
    cond: TrackTitlePredicateCondition,
    patterns: Seq<Seq<char>>,
    needle: Seq<char>,
    i: int,
    acc: bool,
) -> bool
    decreases patterns.len() - i,
{
    if i < 0 || i >= patterns.len() {
        acc
    } else {
        regex_fold_spec(
            cond,
            patterns,
            needle,
            i + 1,
            combine_spec(cond, acc, rx::regex_match(patterns[i], needle)),
        )
    }
}

/// The patterns of the regex sub-rules, in order.
pub open spec fn regex_patterns_spec(filters: Seq<TrackTitlePredicateType>) -> Seq<Seq<char>>
    decreases filters.len(),
{
    if filters.len() == 0 {
        Seq::empty()
    } else {
        regex_patterns_spec(filters.take(filters.len() - 1)) + (match filters[filters.len() - 1] {
            TrackTitlePredicateType::Regex(s) => seq![s@],
            _ => Seq::<Seq<char>>::empty(),
        })
    }
}

/// Every regex sub-rule holds a pattern that compiles.
pub open spec fn all_title_patterns_valid(filters: Seq<TrackTitlePredicateType>) -> bool {
    forall|j: int|
        0 <= j < filters.len() ==> (#[trigger] filters[j] matches TrackTitlePredicateType::Regex(s)
            ==> rx::regex_valid(s@))
}

/// Filter by track title: literal sub-rules and regex sub-rules are evaluated
/// as two passes, combined with logical AND; each pass folds its sub-results
/// with the one combinator, starting from true.
pub struct TrackTitlePredicate {
    /// The predicate filter type.
    pub filter_condition: TrackTitlePredicateCondition,
    /// The predicate filter strings.
    pub filters: Vec<TrackTitlePredicateType>,
    /// The validated regex patterns, filled in by `initialize_regex`.
    pub regex_filters: Vec<String>,
}

/// What a title predicate accepts.
pub open spec fn title_match_spec(p: &TrackTitlePredicate, needle: Seq<char>) -> bool {
    text_fold_spec(p.filter_condition, p.filters@, needle, 0, true) && regex_fold_spec(
        p.filter_condition,
        p.regex_filters.deep_view(),
        needle,
        0,
        true,
    )
}

impl TrackTitlePredicate {
    /// Every stored regex pattern compiles.
    pub open spec fn regexes_wf(&self) -> bool {
        forall|j: int|
            0 <= j < self.regex_filters.deep_view().len() ==> rx::regex_valid(
                #[trigger] self.regex_filters.deep_view()[j],
            )
    }

    /// The stored regex patterns are exactly those of the regex sub-rules.
    pub open spec fn initialized(&self) -> bool {
        self.regex_filters.deep_view() == regex_patterns_spec(self.filters@)
    }

    /// Attempt to validate the regular expressions defined by the filters.
    /// True exactly when every regex sub-rule's pattern compiles; the patterns
    /// are then stored for matching.
    pub fn initialize_regex(&mut self) -> (r: bool)
        ensures
            final(self).filter_condition == old(self).filter_condition,
            final(self).filters@ == old(self).filters@,
            r == all_title_patterns_valid(old(self).filters@),
            r ==> final(self).initialized() && final(self).regexes_wf(),
    {
        self.regex_filters = Vec::new();
        let count = self.filters.len();
        let mut i: usize = 0;
        assert(self.regex_filters.deep_view() =~= regex_patterns_spec(self.filters@.take(0)));
        while i < count
            invariant
                self.filter_condition == old(self).filter_condition,
                self.filters@ == old(self).filters@,
                count == self.filters@.len(),
                i <= count,
                self.regex_filters.deep_view() == regex_patterns_spec(self.filters@.take(i as int)),
                forall|j: int|
                    0 <= j < self.regex_filters.deep_view().len() ==> rx::regex_valid(
                        #[trigger] self.regex_filters.deep_view()[j],
                    ),
                forall|j: int|
                    0 <= j < i ==> (#[trigger] self.filters@[j] matches
                        TrackTitlePredicateType::Regex(s) ==> rx::regex_valid(s@)),
            decreases count - i,
        {
            let ghost pre = self.regex_filters.deep_view();
            let ghost prefix = self.filters@.take(i as int);
            let ghost prefix1 = self.filters@.take(i + 1);
            proof {
                assert(prefix1.take(prefix1.len() - 1) =~= prefix);
                assert(prefix1[prefix1.len() - 1] == self.filters@[i as int]);
            }
            match &self.filters[i] {
                TrackTitlePredicateType::Regex(s) => {
                    if rx::regex_compiles(s.as_str()) {
                        let p = s.clone();
                        self.regex_filters.push(p);
                        assert(self.regex_filters.deep_view() =~= regex_patterns_spec(prefix1));
                    } else {
                        assert(!all_title_patterns_valid(self.filters@));
                        return false;
                    }
                },
                _ => {
                    assert(self.regex_filters.deep_view() =~= regex_patterns_spec(prefix1));
                },
            }
            i = i + 1;
        }
        assert(self.filters@.take(count as int) =~= self.filters@);
        true
    }

    /// Check whether the title matches the literal sub-rules.
    fn is_text_match(&self, needle: &str) -> (r: bool)
        ensures
            r == text_fold_spec(self.filter_condition, self.filters@, needle@, 0, true),
    {
        let count = self.filters.len();
        let mut acc = true;
        let mut i: usize = 0;
        while i < count
            invariant
                count == self.filters@.len(),
                i <= count,
                text_fold_spec(self.filter_condition, self.filters@, needle@, 0, true)
                    == text_fold_spec(
                    self.filter_condition,
                    self.filters@,
                    needle@,
                    i as int,
                    acc,
                ),
            decreases count - i,
        {
            let sub = match &self.filters[i] {
                TrackTitlePredicateType::Contains(s) => Some(
                    crate::strutil::str_contains(needle, s.as_str()),
                ),
                TrackTitlePredicateType::Equals(s) => Some(str_eq(s.as_str(), needle)),
                TrackTitlePredicateType::Regex(_) => None,
            };
            if let Some(sub) = sub {
                acc = match self.filter_condition {
                    TrackTitlePredicateCondition::And => acc && sub,
                    TrackTitlePredicateCondition::Or => acc || sub,
                    TrackTitlePredicateCondition::Not => acc && !sub,
                };
            }
            i = i + 1;
        }
        acc
    }

    /// Check whether the title matches the regex sub-rules.
    fn is_regex_match(&self, needle: &str) -> (r: bool)
        ensures
            self.regexes_wf() ==> r == regex_fold_spec(
                self.filter_condition,
                self.regex_filters.deep_view(),
                needle@,
                0,
                true,
            ),
    {
        let count = self.regex_filters.len();
        let mut acc = true;
        let mut i: usize = 0;
        while i < count
            invariant
                count == self.regex_filters@.len(),
                i <= count,
                self.regexes_wf() ==> regex_fold_spec(
                    self.filter_condition,
                    self.regex_filters.deep_view(),
                    needle@,
                    0,
                    true,
                ) == regex_fold_spec(
                    self.filter_condition,
                    self.regex_filters.deep_view(),
                    needle@,
                    i as int,
                    acc,
                ),
            decreases count - i,
        {
            let sub = rx::regex_is_match(self.regex_filters[i].as_str(), needle);
            assert(self.regex_filters.deep_view()[i as int] == self.regex_filters@[i as int]@);
            acc = match self.filter_condition {
                TrackTitlePredicateCondition::And => acc && sub,
                TrackTitlePredicateCondition::Or => acc || sub,
                TrackTitlePredicateCondition::Not => acc && !sub,
            };
            i = i + 1;
        }
        acc
    }
}

impl<'a> PredicateFilterMatch<&'a str> for TrackTitlePredicate {
    open spec fn pred_wf(&self) -> bool {
        self.regexes_wf()
    }

    open spec fn matches_spec(&self, needle: &'a str) -> bool {
        title_match_spec(self, needle@)
    }

    /// Checks whether a given track title is a match against the filters.
    fn is_match(&self, needle: &'a str) -> (r: bool) {
        let text = self.is_text_match(needle);
        let regex = self.is_regex_match(needle);
        text && regex
    }
}

/// The rule deciding whether a track of a category is kept.
pub enum TrackPredicate {
    /// Filter by track indices.
    Index(TrackIndexPredicate),
    /// Filter by track language code.
    Language(TrackLanguagePredicate),
    /// Filter by track title.
    Title(TrackTitlePredicate),
    /// No filter should be applied: everything matches.
    Any,
}

impl Default for TrackPredicate {
    fn default() -> (r: Self)
        ensures
            r is Any,
    {
        TrackPredicate::Any
    }
}

/// What a track predicate accepts, given a track's index, language and title.
pub open spec fn track_predicate_match_spec(
    p: &TrackPredicate,
    index: int,
    language: Seq<char>,
    title: Seq<char>,
) -> bool {
    match p {
        TrackPredicate::Index(ip) => index_match_spec(ip.ids@, index),
        TrackPredicate::Language(lp) => language_match_spec(lp.ids.deep_view(), language),
        TrackPredicate::Title(tp) => title_match_spec(tp, title),
        TrackPredicate::Any => true,
    }
}

impl TrackPredicate {
    /// The predicate is ready to be evaluated.
    pub open spec fn wf(&self) -> bool {
        match self {
            TrackPredicate::Title(tp) => tp.regexes_wf(),
            _ => true,
        }
    }

    /// Attempt to validate any regular expressions defined by the filters.
    /// True exactly when every regex sub-rule's pattern compiles.
    pub fn initialize_regex(&mut self) -> (r: bool)
        ensures
            r ==> final(self).wf(),
            *old(self) is Title ==> *final(self) is Title && (r == all_title_patterns_valid(
                (*old(self))->Title_0.filters@,
            )),
            !(*old(self) is Title) ==> *final(self) == *old(self) && r,
    {
        match self {
            TrackPredicate::Title(tft) => tft.initialize_regex(),
            _ => true,
        }
    }
}

/// How a file or folder is removed.
#[derive(Clone, Copy, Debug, PartialEq, Eq, Structural)]
pub enum DeletionOptions {
    /// Delete the file using the default method.
    Delete,
    /// Delete the file by sending it to the trash, if possible.
    Trash,
    /// Do not delete the file.
    Keep,
}

impl Default for DeletionOptions {
    fn default() -> (r: Self)
        ensures
            r == DeletionOptions::Keep,
    {
        DeletionOptions::Keep
    }
}

/// A hook command attached to one stage of the pipeline; the first element is
/// the path of the program, the rest its arguments.
#[derive(Clone, Debug)]
pub enum ProcessRun {
    /// A command to be run prior to converting the tracks.
    PreConvert(Vec<String>),
    /// A command to be run after converting the tracks.
    PostConvert(Vec<String>),
    /// A command to be run prior to muxing.
    PreMux(Vec<String>),
    /// A command to be run after muxing.
    PostMux(Vec<String>),
}

/// Parameters applied to one track by its numeric id.
#[derive(Clone, Copy)]
pub struct TrackParams {
    /// The ID of the track to which these parameters should be applied.
    pub id: usize,
    /// Should the track be set as default?
    pub default: Option<bool>,
    /// Should the track be set as enabled?
    pub enabled: Option<bool>,
    /// Should the track be set as forced?
    pub forced: Option<bool>,
    /// Should the track be set as being for the hearing impaired?
    pub hearing_impaired: Option<bool>,
    /// Should the track be set as being for the visually impaired?
    pub visual_impaired: Option<bool>,
    /// Should the track be set as being text descriptions?
    pub text_descriptions: Option<bool>,
    /// Is the track in the original content's language?
    pub original: Option<bool>,
    /// Does the track contain commentary?
    pub commentary: Option<bool>,
    /// Should the delay be overridden for this track?
    pub delay_override: Option<i32>,
}

/// Parameters related to the attachments.
pub struct AttachmentParams {
    /// Should attachments be imported from the original file?
    pub import_from_original: bool,
    /// The attachment extensions to include from the original file; an empty
    /// or absent list includes every file.
    pub import_original_extensions: Option<Vec<String>>,
    /// A folder from which all files should be imported as attachments.
    pub import_from_folder: Option<String>,
    /// The attachment extensions to include from the folder; an empty or
    /// absent list includes every file.
    pub import_folder_extensions: Option<Vec<String>>,
}

/// Parameters related to the chapters.
pub struct ChapterParams {
    /// Should chapters be imported from the original file?
    pub import_from_original: bool,
    /// Should chapters be created if none are present?
    pub create_if_not_present: bool,
    /// The interval for created chapters, as HH:MM:SS.nnnnnnnnn; five-minute
    /// intervals when absent.
    pub create_interval: Option<String>,
}

/// Parameters that do not fit into another category.
pub struct MiscParams {
    /// How to remove the original files, if at all.
    pub remove_original_file: Option<DeletionOptions>,
    /// How to remove the temporary files, if at all.
    pub remove_temp_files: Option<DeletionOptions>,
    /// Should the title of the media file be set?
    pub set_file_title: Option<bool>,
    /// Should the computer be shut down after the processing is complete?
    pub shutdown_upon_completion: Option<bool>,
    /// The path to the global tags file, if any.
    pub tags_path: Option<String>,
    /// Hook commands to run around the processing stages.
    pub run: Option<Vec<ProcessRun>>,
    /// Should certain other media files be remuxed in pre-processing?
    pub pre_mux_media_files: Option<bool>,
}

/// Parameters related to the audio tracks.
pub struct UnifiedAudioParams {
    /// The filter deciding which audio tracks are kept.
    pub predicate: TrackPredicate,
    /// The conversion parameters for audio tracks.
    pub conversion: Option<AudioConvertParams>,
    /// The language given to kept tracks whose language is undefined.
    pub default_language: Option<String>,
    /// The number of tracks of this type to retain, in total.
    pub total_to_retain: Option<usize>,
}

/// Parameters related to the subtitle tracks.
pub struct UnifiedSubtitleParams {
    /// The filter deciding which subtitle tracks are kept.
    pub predicate: TrackPredicate,
    /// The conversion parameters for subtitle tracks.
    pub conversion: Option<SubtitleParams>,
    /// The language given to kept tracks whose language is undefined.
    pub default_language: Option<String>,
    /// The number of tracks of this type to retain, in total.
    pub total_to_retain: Option<usize>,
}

/// Parameters related to the video tracks.
pub struct UnifiedVideoParams {
    /// The filter deciding which video tracks are kept.
    pub predicate: TrackPredicate,
    /// The conversion parameters for video tracks.
    pub conversion: Option<VideoConvertParams>,
    /// The language given to kept tracks whose language is undefined.
    pub default_language: Option<String>,
    /// The number of tracks of this type to retain, in total.
    pub total_to_retain: Option<usize>,
}

/// Parameters related to tracks that are not audio, subtitle or video.
pub struct UnifiedOtherTrackParams {
    /// Should "other" tracks be imported from the original file?
    pub import_from_original: bool,
}

/// Everything that governs the processing of one media file.
pub struct UnifiedParams {
    /// Parameters related to the audio tracks.
    pub audio_tracks: UnifiedAudioParams,
    /// Parameters related to the subtitle tracks.
    pub subtitle_tracks: UnifiedSubtitleParams,
    /// Parameters related to the video tracks.
    pub video_tracks: UnifiedVideoParams,
    /// Parameters related to any other type of track.
    pub other_tracks: UnifiedOtherTrackParams,
    /// Per-track flag and delay overrides.
    pub track_params: Option<Vec<TrackParams>>,
    /// Parameters related to the attachments.
    pub attachments: AttachmentParams,
    /// Parameters related to the chapters.
    pub chapters: ChapterParams,
    /// Various other parameters that do not fit into another category.
    pub misc: MiscParams,
}

impl UnifiedParams {
    /// Every predicate is ready to be evaluated.
    pub open spec fn wf(&self) -> bool {
        self.audio_tracks.predicate.wf() && self.subtitle_tracks.predicate.wf()
            && self.video_tracks.predicate.wf()
    }
}

} // verus!
