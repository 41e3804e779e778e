//! The substitution engine: ordered regex and string replacements plus
//! title-casing and character sanitization applied to raw name-list lines.

use vstd::prelude::*;
use vstd::string::StrSliceExecFns;
use vstd::string::StringExecFns;

use crate::rx;
use crate::strutil;
use crate::strutil::{contains_seq, replace_all_spec, trim_spec, upper_of};

verus! {

broadcast use vstd::string::group_string_axioms;

/// What `titlecase::titlecase` returns: a function of the characters alone.
pub uninterp spec fn title_case_of(s: Seq<char>) -> Seq<char>;

/// Relies on titlecase::titlecase: the result depends on the characters alone.
#[verifier::external_body]
fn titlecase_str(s: &str) -> (r: String)
    ensures
        r@ == title_case_of(s@),
{
    titlecase::titlecase(s)
}

/// The pattern finding a lowercase letter behind a spaced dash.
pub open spec fn upper_pattern_spec() -> Seq<char> {
    "(\\s[–-]\\s)(\\p{Ll})"@
}

/// A character NTFS does not allow in file names.
pub open spec fn is_bad_ntfs_char(c: char) -> bool {
    c == '/' || c == '?' || c == '<' || c == '>' || c == '\\' || c == ':' || c == '*' || c == '|'
        || c == '"'
}

/// The first `i` characters with the NTFS-invalid ones removed.
pub open spec fn ntfs_strip_spec(s: Seq<char>, i: int) -> Seq<char>
    decreases i,
{
    if i <= 0 {
        Seq::empty()
    } else {
        ntfs_strip_spec(s, i - 1) + (if is_bad_ntfs_char(s[i - 1]) {
            Seq::<char>::empty()
        } else {
            seq![s[i - 1]]
        })
    }
}

/// The line after the first `i` regex substitutions, applied in order; each
/// replaces the leftmost match.
pub open spec fn regex_subst_fold(line: Seq<char>, pairs: Seq<(Seq<char>, Seq<char>)>, i: int) -> Seq<
    char,
>
    decreases i,
{
    if i <= 0 {
        line
    } else {
        rx::regex_replace_first(
            pairs[i - 1].0,
            regex_subst_fold(line, pairs, i - 1),
            pairs[i - 1].1,
        )
    }
}

/// The line after the first `i` string substitutions, applied in order; each
/// replaces every occurrence.
pub open spec fn string_subst_fold(line: Seq<char>, pairs: Seq<(Seq<char>, Seq<char>)>, i: int) -> Seq<
    char,
>
    decreases i,
{
    if i <= 0 {
        line
    } else {
        replace_all_spec(string_subst_fold(line, pairs, i - 1), pairs[i - 1].0, pairs[i - 1].1)
    }
}

/// The line after the first `i` dash-case fixes: each whole match is replaced
/// everywhere by its dash part followed by the uppercased letter.
pub open spec fn dash_caps_fold(
    line: Seq<char>,
    caps: Seq<(Seq<char>, Seq<char>, Seq<char>)>,
    i: int,
) -> Seq<char>
    decreases i,
{
    if i <= 0 {
        line
    } else {
        replace_all_spec(
            dash_caps_fold(line, caps, i - 1),
            caps[i - 1].0,
            caps[i - 1].1 + upper_of(caps[i - 1].2),
        )
    }
}

/// Substitutions to be applied when sanitizing the raw name-list lines.
pub struct Substitutions {
    /// Convert titles into proper title case; on by default.
    pub convert_to_proper_title_case: bool,
    /// Regex substitutions (pattern, replacement) applied in order.
    pub regular_expressions: Vec<(String, String)>,
    /// Plain string substitutions (from, to) applied in order.
    pub strings: Vec<(String, String)>,
    /// Strip characters NTFS does not allow; on by default.
    pub strip_invalid_ntfs_chars: bool,
    /// Fix letter case after spaced dashes; on by default.
    pub fix_case_after_dashes: bool,
    /// The validated regex substitutions, filled in by `initialize_regex`.
    pub regex_internal: Vec<(String, String)>,
}

impl Substitutions {
    /// Every stored regex pattern compiles.
    pub open spec fn regexes_wf(&self) -> bool {
        forall|j: int|
            0 <= j < self.regex_internal.deep_view().len() ==> rx::regex_valid(
                (#[trigger] self.regex_internal.deep_view()[j]).0,
            )
    }

    /// The stored substitutions are exactly the configured ones.
    pub open spec fn initialized(&self) -> bool {
        self.regex_internal.deep_view() == self.regular_expressions.deep_view()
    }

    /// Every configured regex pattern compiles.
    pub open spec fn all_patterns_valid(&self) -> bool {
        forall|j: int|
            0 <= j < self.regular_expressions.deep_view().len() ==> rx::regex_valid(
                (#[trigger] self.regular_expressions.deep_view()[j]).0,
            )
    }

    /// Validate the configured regex substitutions. True exactly when every
    /// pattern compiles; the validated pairs are then stored for `apply`.
    pub fn initialize_regex(&mut self) -> (r: bool)
        ensures
            final(self).convert_to_proper_title_case == old(self).convert_to_proper_title_case,
            final(self).regular_expressions.deep_view() == old(
                self,
            ).regular_expressions.deep_view(),
            final(self).strings.deep_view() == old(self).strings.deep_view(),
            final(self).strip_invalid_ntfs_chars == old(self).strip_invalid_ntfs_chars,
            final(self).fix_case_after_dashes == old(self).fix_case_after_dashes,
            r == final(self).all_patterns_valid(),
            r ==> final(self).initialized() && final(self).regexes_wf(),
    {
        self.regex_internal = Vec::new();
        let count = self.regular_expressions.len();
        let mut i: usize = 0;
        assert(self.regex_internal.deep_view() =~= self.regular_expressions.deep_view().take(0));
        while i < count
            invariant
                self.convert_to_proper_title_case == old(self).convert_to_proper_title_case,
                self.regular_expressions.deep_view() == old(self).regular_expressions.deep_view(),
                self.strings.deep_view() == old(self).strings.deep_view(),
                self.strip_invalid_ntfs_chars == old(self).strip_invalid_ntfs_chars,
                self.fix_case_after_dashes == old(self).fix_case_after_dashes,
                count == self.regular_expressions@.len(),
                i <= count,
                self.regex_internal.deep_view() == self.regular_expressions.deep_view().take(
                    i as int,
                ),
                forall|j: int|
                    0 <= j < i ==> rx::regex_valid(
                        (#[trigger] self.regular_expressions.deep_view()[j]).0,
                    ),
            decreases count - i,
        {
            let pattern = self.regular_expressions[i].0.clone();
            let replacement = self.regular_expressions[i].1.clone();
            proof {
                assert(self.regular_expressions.deep_view()[i as int] == (self.regular_expressions@[
                    i as int
                ].0@, self.regular_expressions@[i as int].1@));
            }
            if !rx::regex_compiles(pattern.as_str()) {
                assert(!self.all_patterns_valid());
                return false;
            }
            let ghost pv = pattern@;
            let ghost rv = replacement@;
            proof {
                assert(self.regex_internal.deep_view().len() == self.regex_internal@.len());
                assert(self.regular_expressions.deep_view().len()
                    == self.regular_expressions@.len());
                assert(self.regular_expressions.deep_view().take(i as int).len() == i as int);
                assert(self.regex_internal@.len() == i as int);
            }
            self.regex_internal.push((pattern, replacement));
            proof {
                assert(self.regex_internal@.len() == i + 1);
                assert(self.regex_internal.deep_view().len() == i + 1);
                assert(self.regex_internal@[i as int].0@ == pv);
                assert(self.regex_internal@[i as int].1@ == rv);
                assert(self.regex_internal.deep_view()[i as int] == self.regex_internal@[
                    i as int
                ].deep_view());
                assert(self.regex_internal.deep_view()[i as int] == (pv, rv));
                assert((pv, rv) == self.regular_expressions.deep_view()[i as int]);
            }
            assert(self.regex_internal.deep_view() =~= self.regular_expressions.deep_view().take(
                i + 1,
            ));
            i = i + 1;
        }
        assert(self.regular_expressions.deep_view().take(count as int)
            =~= self.regular_expressions.deep_view());
        assert(self.regular_expressions.deep_view().len() == count);
        true
    }

    /// The sanitized form of one raw line: trimmed; an empty result stays
    /// empty; otherwise title-cased when enabled, then the regex and string
    /// substitutions in order, NTFS sanitization, and the dash-case fix.
    pub open spec fn apply_spec(&self, s: Seq<char>) -> Seq<char> {
        let t = trim_spec(s);
        if t.len() == 0 {
            Seq::empty()
        } else {
            let t1 = if self.convert_to_proper_title_case {
                title_case_of(t)
            } else {
                t
            };
            let t2 = regex_subst_fold(
                t1,
                self.regex_internal.deep_view(),
                self.regex_internal.deep_view().len() as int,
            );
            let t3 = string_subst_fold(
                t2,
                self.strings.deep_view(),
                self.strings.deep_view().len() as int,
            );
            let t4 = if self.strip_invalid_ntfs_chars {
                ntfs_strip_spec(t3, t3.len() as int)
            } else {
                t3
            };
            if self.fix_case_after_dashes && contains_seq(t4, "–"@) && rx::regex_valid(
                upper_pattern_spec(),
            ) {
                let caps = rx::regex_captures2(upper_pattern_spec(), t4);
                dash_caps_fold(t4, caps, caps.len() as int)
            } else {
                t4
            }
        }
    }

    /// Apply the substitutions the profile specifies to one raw line.
    pub fn apply(&self, in_string: &str) -> (r: String)
        requires
            self.regexes_wf(),
        ensures
            r@ == self.apply_spec(in_string@),
    {
        // Ensure there are no stray tabs and spaces around the name.
        let mut line = strutil::trim(in_string);

        // If the input string is empty, there is nothing to do here.
        if line.as_str().unicode_len() == 0 {
            assert(line@ =~= Seq::<char>::empty());
            return line;
        }

        // This has to happen before the substitutions below.
        if self.convert_to_proper_title_case {
            line = titlecase_str(line.as_str());
        }

        // The regex substitutions, in order; each replaces the leftmost match.
        let ghost t1 = line@;
        let recount = self.regex_internal.len();
        let mut i: usize = 0;
        while i < recount
            invariant
                self.regexes_wf(),
                recount == self.regex_internal@.len(),
                i <= recount,
                line@ == regex_subst_fold(t1, self.regex_internal.deep_view(), i as int),
            decreases recount - i,
        {
            proof {
                assert(self.regex_internal.deep_view()[i as int] == (self.regex_internal@[
                    i as int
                ].0@, self.regex_internal@[i as int].1@));
            }
            line = rx::regex_replace(
                self.regex_internal[i].0.as_str(),
                line.as_str(),
                self.regex_internal[i].1.as_str(),
            );
            i = i + 1;
        }
        assert(self.regex_internal.deep_view().len() == recount);

        // The plain string substitutions, in order; each replaces everywhere.
        let ghost t2 = line@;
        let scount = self.strings.len();
        let mut j: usize = 0;
        while j < scount
            invariant
                scount == self.strings@.len(),
                j <= scount,
                line@ == string_subst_fold(t2, self.strings.deep_view(), j as int),
            decreases scount - j,
        {
            proof {
                assert(self.strings.deep_view()[j as int] == (self.strings@[j as int].0@, self
                    .strings@[j as int].1@));
            }
            line = strutil::replace_all(
                line.as_str(),
                self.strings[j].0.as_str(),
                self.strings[j].1.as_str(),
            );
            j = j + 1;
        }
        assert(self.strings.deep_view().len() == scount);

        // Strip the characters NTFS does not allow in file names.
        if self.strip_invalid_ntfs_chars {
            line = strip_ntfs_chars(line.as_str());
        }

        // Fix the letter case behind spaced dashes.
        let ghost t4 = line@;
        if self.fix_case_after_dashes && strutil::str_contains(line.as_str(), "–") {
            if rx::regex_compiles("(\\s[–-]\\s)(\\p{Ll})") {
                let caps = rx::regex_capture_pairs("(\\s[–-]\\s)(\\p{Ll})", line.as_str());
                let ccount = caps.len();
                let mut k: usize = 0;
                while k < ccount
                    invariant
                        ccount == caps@.len(),
                        rx::regex_valid(upper_pattern_spec()),
                        caps.deep_view() == rx::regex_captures2(upper_pattern_spec(), t4),
                        k <= ccount,
                        line@ == dash_caps_fold(t4, caps.deep_view(), k as int),
                    decreases ccount - k,
                {
                    proof {
                        assert(caps.deep_view()[k as int] == (caps@[k as int].0@, caps@[
                            k as int
                        ].1@, caps@[k as int].2@));
                    }
                    let upper = strutil::to_uppercase(caps[k].2.as_str());
                    let mut replacement = caps[k].1.clone();
                    replacement.append(upper.as_str());
                    line = strutil::replace_all(
                        line.as_str(),
                        caps[k].0.as_str(),
                        replacement.as_str(),
                    );
                    k = k + 1;
                }
                assert(caps.deep_view().len() == ccount);
            }
        }
        line
    }
}

/// Remove the characters NTFS does not allow in file names.
fn strip_ntfs_chars(s: &str) -> (r: String)
    ensures
        r@ == ntfs_strip_spec(s@, s@.len() as int),
{
    let len = s.unicode_len();
    let mut out = String::new();
    let mut i: usize = 0;
    assert(out@ =~= ntfs_strip_spec(s@, 0));
    while i < len
        invariant
            len == s@.len(),
            i <= len,
            out@ == ntfs_strip_spec(s@, i as int),
        decreases len - i,
    {
        let c = s.get_char(i);
        let bad = c == '/' || c == '?' || c == '<' || c == '>' || c == '\\' || c == ':' || c == '*'
            || c == '|' || c == '"';
        if !bad {
            let piece = s.substring_char(i, i + 1);
            out.append(piece);
            assert(piece@ =~= seq![s@[i as int]]);
        }
        assert(out@ =~= ntfs_strip_spec(s@, i + 1));
        i = i + 1;
    }
    out
}

/// Dash-case fixing is on unless the profile disables it.
pub fn default_fix_dashes() -> (r: bool)
    ensures
        r,
{
    true
}

/// NTFS sanitization is on unless the profile disables it.
pub fn default_strip_ntfs() -> (r: bool)
    ensures
        r,
{
    true
}

/// Title-casing is on unless the profile disables it.
pub fn default_title_case() -> (r: bool)
    ensures
        r,
{
    true
}

} // verus!
