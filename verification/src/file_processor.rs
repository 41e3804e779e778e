//! The file matcher: it pairs the natural-sorted input files with the
//! sanitized, padded output name and title list, and rejects a batch whose
//! counts do not line up.

use vstd::prelude::*;
use vstd::string::StrSliceExecFns;
use vstd::string::StringExecFns;

use crate::strutil;
use crate::strutil::{dec_spec, lower_of, padded_dec_spec, str_eq};
use crate::substitutions::Substitutions;
use crate::utils;

verus! {

broadcast use vstd::string::group_string_axioms;

/// The position just after the run of decimal digits starting at `i`.
pub open spec fn digit_run_end(s: Seq<char>, i: int) -> int
    decreases s.len() - i,
{
    if i < 0 || i >= s.len() || !strutil::is_digit(s[i]) {
        i
    } else {
        digit_run_end(s, i + 1)
    }
}

/// The natural comparison of two strings from position `i` on, as -1, 0 or 1.
/// The strings are walked in step; when both sides sit on a decimal digit,
/// the whole digit runs are compared as numbers — a longer run is the larger
/// number, and equal-length runs compare digit by digit — and any other
/// characters compare by code point. A proper prefix comes first.
pub open spec fn natural_cmp_from(a: Seq<char>, b: Seq<char>, i: int) -> int
    decreases a.len() - i,
{
    if i < 0 || (i >= a.len() && i >= b.len()) {
        0
    } else if i >= a.len() {
        -1
    } else if i >= b.len() {
        1
    } else if strutil::is_digit(a[i]) && strutil::is_digit(b[i]) {
        let run_a = digit_run_end(a, i) - i;
        let run_b = digit_run_end(b, i) - i;
        if run_a < run_b {
            -1
        } else if run_b < run_a {
            1
        } else if (a[i] as u32) < (b[i] as u32) {
            -1
        } else if (b[i] as u32) < (a[i] as u32) {
            1
        } else {
            natural_cmp_from(a, b, i + 1)
        }
    } else if (a[i] as u32) < (b[i] as u32) {
        -1
    } else if (b[i] as u32) < (a[i] as u32) {
        1
    } else {
        natural_cmp_from(a, b, i + 1)
    }
}

/// The natural ordering: a string is less than or equal to another when it
/// does not compare greater.
pub open spec fn natural_le(a: Seq<char>, b: Seq<char>) -> bool {
    natural_cmp_from(a, b, 0) <= 0
}

/// Swapping the two strings flips the comparison.
pub proof fn lemma_natural_cmp_antisym(a: Seq<char>, b: Seq<char>, i: int)
    ensures
        natural_cmp_from(a, b, i) == -natural_cmp_from(b, a, i),
    decreases a.len() - i,
{
    if 0 <= i && i < a.len() && i < b.len() {
        lemma_natural_cmp_antisym(a, b, i + 1);
    }
}

/// Whether `c` is a decimal digit.
fn is_digit_exec(c: char) -> (r: bool)
    ensures
        r == strutil::is_digit(c),
{
    matches!(c, '0' | '1' | '2' | '3' | '4' | '5' | '6' | '7' | '8' | '9')
}

/// Scan past the run of decimal digits starting at `start`.
fn digit_run_end_exec(s: &str, start: usize) -> (r: usize)
    requires
        start <= s@.len(),
    ensures
        r as int == digit_run_end(s@, start as int),
        start <= r <= s@.len(),
{
    let len = s.unicode_len();
    let mut k = start;
    while k < len && is_digit_exec(s.get_char(k))
        invariant
            len == s@.len(),
            start <= k <= len,
            digit_run_end(s@, start as int) == digit_run_end(s@, k as int),
        decreases len - k,
    {
        assert(digit_run_end(s@, k as int) == digit_run_end(s@, k + 1));
        k = k + 1;
    }
    k
}

/// Compare two strings with the natural ordering, as -1, 0 or 1.
fn natural_cmp(a: &str, b: &str) -> (r: i8)
    ensures
        r as int == natural_cmp_from(a@, b@, 0),
{
    let alen = a.unicode_len();
    let blen = b.unicode_len();
    let mut i: usize = 0;
    loop
        invariant
            alen == a@.len(),
            blen == b@.len(),
            i <= alen,
            i <= blen,
            natural_cmp_from(a@, b@, 0) == natural_cmp_from(a@, b@, i as int),
        decreases alen - i,
    {
        if i >= alen && i >= blen {
            return 0;
        }
        if i >= alen {
            return -1;
        }
        if i >= blen {
            return 1;
        }
        let ca = a.get_char(i);
        let cb = b.get_char(i);
        if is_digit_exec(ca) && is_digit_exec(cb) {
            let end_a = digit_run_end_exec(a, i);
            let end_b = digit_run_end_exec(b, i);
            let run_a = end_a - i;
            let run_b = end_b - i;
            if run_a < run_b {
                return -1;
            }
            if run_b < run_a {
                return 1;
            }
            if (ca as u32) < (cb as u32) {
                return -1;
            }
            if (cb as u32) < (ca as u32) {
                return 1;
            }
        } else {
            if (ca as u32) < (cb as u32) {
                return -1;
            }
            if (cb as u32) < (ca as u32) {
                return 1;
            }
        }
        i = i + 1;
    }
}

/// Whether `a` precedes or equals `b` in the natural ordering.
fn natural_leq(a: &str, b: &str) -> (r: bool)
    ensures
        r == natural_le(a@, b@),
        !r ==> natural_le(b@, a@),
{
    let c = natural_cmp(a, b);
    proof {
        lemma_natural_cmp_antisym(a@, b@, 0);
    }
    c <= 0
}

/// Every adjacent pair is in natural order.
pub open spec fn natural_sorted(s: Seq<Seq<char>>) -> bool {
    forall|i: int| 0 <= i < s.len() - 1 ==> natural_le(#[trigger] s[i], s[i + 1])
}

/// Whether a path passes the extension filter: it has an extension and its
/// lowercased extension is in the accepted list.
pub open spec fn ext_filter_keep(path: Seq<char>, exts: Seq<Seq<char>>) -> bool {
    utils::has_extension_spec(path) && exts.contains(lower_of(utils::extension_spec(path)))
}

/// The paths among the first `i` that pass the extension filter, in order.
pub open spec fn ext_filter_spec(paths: Seq<Seq<char>>, exts: Seq<Seq<char>>, i: int) -> Seq<
    Seq<char>,
>
    decreases i,
{
    if i <= 0 {
        Seq::empty()
    } else {
        ext_filter_spec(paths, exts, i - 1) + (if ext_filter_keep(paths[i - 1], exts) {
            seq![paths[i - 1]]
        } else {
            Seq::<Seq<char>>::empty()
        })
    }
}

/// Keep the paths whose lowercased extension is in the accepted list.
pub fn filter_by_file_extension(paths: &Vec<String>, exts: &Vec<String>) -> (r: Vec<String>)
    ensures
        r.deep_view() == ext_filter_spec(paths.deep_view(), exts.deep_view(), paths@.len() as int),
{
    let count = paths.len();
    let mut out: Vec<String> = Vec::new();
    let mut i: usize = 0;
    assert(out.deep_view() =~= ext_filter_spec(paths.deep_view(), exts.deep_view(), 0));
    while i < count
        invariant
            count == paths@.len(),
            i <= count,
            out.deep_view() == ext_filter_spec(paths.deep_view(), exts.deep_view(), i as int),
        decreases count - i,
    {
        let keep = match utils::get_file_extension(paths[i].as_str()) {
            Some(ext) => strutil::string_list_contains(exts, ext.as_str()),
            None => false,
        };
        assert(paths.deep_view()[i as int] == paths@[i as int]@);
        if keep {
            out.push(paths[i].clone());
        }
        assert(out.deep_view() =~= ext_filter_spec(paths.deep_view(), exts.deep_view(), i + 1));
        i = i + 1;
    }
    out
}

proof fn lemma_insert_to_multiset(s: Seq<Seq<char>>, k: int, x: Seq<char>)
    requires
        0 <= k <= s.len(),
    ensures
        s.insert(k, x).to_multiset() =~= s.to_multiset().insert(x),
{
    broadcast use vstd::seq_lib::group_to_multiset_ensures;

    let left = s.take(k);
    let right = s.skip(k);
    assert(s =~= left + right);
    assert(s.insert(k, x) =~= left.push(x) + right);
    vstd::seq_lib::lemma_multiset_commutative(left.push(x), right);
    vstd::seq_lib::lemma_multiset_commutative(left, right);
    assert(left.push(x).to_multiset() =~= left.to_multiset().insert(x));
    assert forall|y: Seq<char>|
        s.insert(k, x).to_multiset().count(y) == s.to_multiset().insert(x).count(y) by {
        assert(s.insert(k, x).to_multiset().count(y) == left.push(x).to_multiset().count(y)
            + right.to_multiset().count(y));
        assert(s.to_multiset().count(y) == left.to_multiset().count(y) + right.to_multiset().count(
            y,
        ));
    }
}

/// Sort paths with the natural ordering: the result is a reordering of the
/// input whose adjacent elements are in natural order.
pub fn natural_sort(paths: &Vec<String>) -> (r: Vec<String>)
    ensures
        r.deep_view().to_multiset() == paths.deep_view().to_multiset(),
        r@.len() == paths@.len(),
        natural_sorted(r.deep_view()),
{
    let count = paths.len();
    let mut out: Vec<String> = Vec::new();
    let mut i: usize = 0;
    proof {
        broadcast use vstd::seq_lib::group_to_multiset_ensures;

        assert(paths.deep_view().take(0) =~= Seq::<Seq<char>>::empty());
        assert(out.deep_view() =~= Seq::<Seq<char>>::empty());
    }
    while i < count
        invariant
            count == paths@.len(),
            i <= count,
            out@.len() == i,
            out.deep_view().to_multiset() == paths.deep_view().take(i as int).to_multiset(),
            natural_sorted(out.deep_view()),
        decreases count - i,
    {
        let x = paths[i].clone();
        let ghost xv = x@;
        let ghost pre = out.deep_view();
        assert(paths.deep_view()[i as int] == paths@[i as int]@);

        // Scan from the end for the place where the new path belongs.
        let mut k: usize = out.len();
        while k > 0 && !natural_leq(out[k - 1].as_str(), x.as_str())
            invariant
                k <= out@.len(),
                out@.len() == i,
                pre == out.deep_view(),
                forall|m: int| k <= m < i ==> natural_le(xv, #[trigger] pre[m]),
                x@ == xv,
            decreases k,
        {
            proof {
                assert(out.deep_view()[k - 1] == out@[k - 1]@);
            }
            k = k - 1;
        }
        if k > 0 {
            assert(natural_le(out.deep_view()[k - 1], xv)) by {
                assert(out.deep_view()[k - 1] == out@[k - 1]@);
            }
        }
        out.insert(k, x);
        proof {
            broadcast use vstd::seq_lib::group_to_multiset_ensures;

            assert(out.deep_view() =~= pre.insert(k as int, xv));
            lemma_insert_to_multiset(pre, k as int, xv);
            assert(paths.deep_view().take(i + 1).drop_last() =~= paths.deep_view().take(i as int));
            assert(paths.deep_view().take(i + 1) =~= paths.deep_view().take(i as int).push(
                paths.deep_view()[i as int],
            ));
            assert(out.deep_view().to_multiset() =~= paths.deep_view().take(i + 1).to_multiset());
            assert forall|m: int| 0 <= m < out.deep_view().len() - 1 implies natural_le(
                #[trigger] out.deep_view()[m],
                out.deep_view()[m + 1],
            ) by {
                let dv = out.deep_view();
                if m < k - 1 {
                    assert(dv[m] == pre[m] && dv[m + 1] == pre[m + 1]);
                } else if m == k - 1 {
                    assert(dv[m] == pre[m] && dv[m + 1] == xv);
                } else if m == k {
                    assert(dv[m] == xv && dv[m + 1] == pre[m]);
                } else {
                    assert(dv[m] == pre[m - 1] && dv[m + 1] == pre[m]);
                }
            }
        }
        i = i + 1;
    }
    assert(paths.deep_view().take(count as int) =~= paths.deep_view());
    out
}

/// How output file names are numbered: unpadded, or zero-padded to two, three
/// or four digits.
#[derive(Clone, Copy, Debug, PartialEq, Eq, Structural)]
pub enum PadType {
    One,
    Ten,
    Hundred,
    Thousand,
}

/// The output file name built from a sanitized name, an index and a pad type:
/// the zero-padded index, a spaced dash, the name, and the container
/// extension; without an index scheme, just the name and extension.
pub open spec fn padded_name_spec(name: Seq<char>, index: int, pad: Option<PadType>) -> Seq<char> {
    (match pad {
        Option::Some(PadType::One) => dec_spec(index) + " – "@ + name,
        Option::Some(PadType::Ten) => padded_dec_spec(index, 2) + " – "@ + name,
        Option::Some(PadType::Hundred) => padded_dec_spec(index, 3) + " – "@ + name,
        Option::Some(PadType::Thousand) => padded_dec_spec(index, 4) + " – "@ + name,
        Option::None => name,
    }) + ".mkv"@
}

/// The matcher's result: the output names and titles read from the name list,
/// and the natural-sorted input files paired with them.
pub struct FileProcessor {
    pub has_stop_clause: bool,
    pub input_paths: Vec<String>,
    pub output_paths: Vec<String>,
    pub titles: Vec<String>,
}

/// One pass over the first `i` name-list lines: whether the stop sentinel was
/// hit, the output paths, the titles, and the next index.
pub open spec fn output_list_spec(
    lines: Seq<Seq<char>>,
    output_dir: Seq<char>,
    start: int,
    pad: Option<PadType>,
    subs: &Substitutions,
    i: int,
) -> (bool, Seq<Seq<char>>, Seq<Seq<char>>, int)
    decreases i,
{
    if i <= 0 {
        (false, Seq::<Seq<char>>::empty(), Seq::<Seq<char>>::empty(), start)
    } else {
        let (stopped, outs, titles, idx) = output_list_spec(lines, output_dir, start, pad, subs, i - 1);
        if stopped {
            (stopped, outs, titles, idx)
        } else if lines[i - 1] == "###STOP###"@ {
            (true, outs, titles, idx)
        } else {
            let sanitized = subs.apply_spec(lines[i - 1]);
            if sanitized.len() == 0 || sanitized[0] == '#' {
                (false, outs, titles, idx)
            } else {
                (
                    false,
                    outs.push(
                        utils::push_segment_spec(output_dir, padded_name_spec(sanitized, idx, pad)),
                    ),
                    titles.push(sanitized),
                    idx + 1,
                )
            }
        }
    }
}

proof fn lemma_output_list_stopped(
    lines: Seq<Seq<char>>,
    output_dir: Seq<char>,
    start: int,
    pad: Option<PadType>,
    subs: &Substitutions,
    i: int,
    j: int,
)
    requires
        0 <= i <= j,
        output_list_spec(lines, output_dir, start, pad, subs, i).0,
    ensures
        output_list_spec(lines, output_dir, start, pad, subs, j) == output_list_spec(
            lines,
            output_dir,
            start,
            pad,
            subs,
            i,
        ),
    decreases j - i,
{
    if i < j {
        lemma_output_list_stopped(lines, output_dir, start, pad, subs, i, j - 1);
    }
}

impl FileProcessor {
    /// Build a file name from a sanitized name, an index and a pad type.
    pub fn file_name_from_padded_index(name: &str, index: usize, pad_type: Option<PadType>) -> (r:
        String)
        ensures
            r@ == padded_name_spec(name@, index as int, pad_type),
    {
        let mut out: String = match pad_type {
            Some(PadType::One) => {
                let mut s = strutil::usize_to_string(index);
                s.append(" – ");
                s
            },
            Some(PadType::Ten) => {
                let mut s = strutil::padded_usize_to_string(index, 2);
                s.append(" – ");
                s
            },
            Some(PadType::Hundred) => {
                let mut s = strutil::padded_usize_to_string(index, 3);
                s.append(" – ");
                s
            },
            Some(PadType::Thousand) => {
                let mut s = strutil::padded_usize_to_string(index, 4);
                s.append(" – ");
                s
            },
            None => String::new(),
        };
        out.append(name);
        out.append(".mkv");
        assert(out@ =~= padded_name_spec(name@, index as int, pad_type));
        out
    }

    /// Build the input file list: keep the supported container files, sort
    /// them naturally and, when the stop sentinel was hit, keep only as many
    /// as there are output names.
    pub fn build_input_list(&mut self, candidate_paths: &Vec<String>)
        requires
            old(self).input_paths@.len() == 0,
        ensures
            final(self).has_stop_clause == old(self).has_stop_clause,
            final(self).output_paths.deep_view() == old(self).output_paths.deep_view(),
            final(self).titles.deep_view() == old(self).titles.deep_view(),
            ({
                let filtered = ext_filter_spec(
                    candidate_paths.deep_view(),
                    seq!["mkv"@],
                    candidate_paths@.len() as int,
                );
                (filtered.len() == 0 ==> final(self).input_paths@.len() == 0) && (filtered.len() > 0
                    ==> exists|sorted: Seq<Seq<char>>|
                    {
                        &&& #[trigger] natural_sorted(sorted)
                        &&& sorted.to_multiset() == filtered.to_multiset()
                        &&& sorted.len() == filtered.len()
                        &&& final(self).input_paths.deep_view() == (if old(self).has_stop_clause
                            && old(self).output_paths@.len() < sorted.len() {
                            sorted.take(old(self).output_paths@.len() as int)
                        } else {
                            sorted
                        })
                    })
            }),
    {
        let mut exts: Vec<String> = Vec::new();
        exts.push("mkv".to_owned());
        proof {
            assert(exts.deep_view() =~= seq!["mkv"@]);
        }
        let filtered = filter_by_file_extension(candidate_paths, &exts);
        if filtered.len() == 0 {
            assert(filtered.deep_view().len() == 0);
            return ;
        }
        assert(filtered.deep_view().len() > 0);
        let sorted = natural_sort(&filtered);
        let ghost sorted_dv = sorted.deep_view();
        proof {
            broadcast use vstd::seq_lib::group_to_multiset_ensures;

            assert(sorted_dv.len() == sorted@.len());
            assert(filtered.deep_view().len() == filtered@.len());
        }
        self.input_paths = sorted;
        if self.has_stop_clause {
            let keep = self.output_paths.len();
            if keep < self.input_paths.len() {
                self.input_paths.truncate(keep);
                assert(self.input_paths.deep_view() =~= sorted_dv.take(keep as int));
            } else {
                self.input_paths.truncate(keep);
                assert(self.input_paths.deep_view() =~= sorted_dv);
            }
        }
        proof {
            let filtered_spec = ext_filter_spec(
                candidate_paths.deep_view(),
                seq!["mkv"@],
                candidate_paths@.len() as int,
            );
            assert(natural_sorted(sorted_dv) && sorted_dv.to_multiset()
                == filtered_spec.to_multiset() && sorted_dv.len() == filtered_spec.len()
                && self.input_paths.deep_view() == (if old(self).has_stop_clause
                && old(self).output_paths@.len() < sorted_dv.len() {
                sorted_dv.take(old(self).output_paths@.len() as int)
            } else {
                sorted_dv
            }));
        }
    }

    /// Pair the name list with the input files: read the output names, filter
    /// and sort the input files, truncate them to the name list when the stop
    /// sentinel was hit, and demand that the counts then agree exactly.
    pub fn new(
        name_lines: &Vec<String>,
        input_candidates: &Vec<String>,
        output_dir: &str,
        start_from: Option<usize>,
        index_pad_type: Option<PadType>,
        substitutions: &Substitutions,
    ) -> (r: Option<FileProcessor>)
        requires
            substitutions.regexes_wf(),
            (match start_from {
                Option::Some(s) => s + name_lines@.len() <= usize::MAX,
                Option::None => name_lines@.len() <= usize::MAX,
            }),
        ensures
            ({
                let (stopped, outs, titles, _) = output_list_spec(
                    name_lines.deep_view(),
                    output_dir@,
                    (match start_from {
                        Option::Some(s) => s as int,
                        Option::None => 0,
                    }),
                    index_pad_type,
                    substitutions,
                    name_lines@.len() as int,
                );
                let filtered = ext_filter_spec(
                    input_candidates.deep_view(),
                    seq!["mkv"@],
                    input_candidates@.len() as int,
                );
                let final_len: int = if stopped && outs.len() < filtered.len() {
                    outs.len() as int
                } else {
                    filtered.len() as int
                };
                &&& (r is Some <==> (outs.len() > 0 && titles.len() > 0 && filtered.len() > 0
                    && final_len == outs.len()))
                &&& (r is Some ==> {
                    let fp = r->0;
                    &&& fp.has_stop_clause == stopped
                    &&& fp.output_paths.deep_view() == outs
                    &&& fp.titles.deep_view() == titles
                    &&& fp.input_paths@.len() == outs.len()
                    &&& exists|sorted: Seq<Seq<char>>|
                        {
                            &&& #[trigger] natural_sorted(sorted)
                            &&& sorted.to_multiset() == filtered.to_multiset()
                            &&& sorted.len() == filtered.len()
                            &&& fp.input_paths.deep_view() == (if stopped && outs.len()
                                < sorted.len() {
                                sorted.take(outs.len() as int)
                            } else {
                                sorted
                            })
                        }
                })
            }),
    {
        let mut s = FileProcessor {
            has_stop_clause: false,
            input_paths: Vec::new(),
            output_paths: Vec::new(),
            titles: Vec::new(),
        };

        // Build the output file name list.
        s.build_output_list(name_lines, output_dir, start_from, index_pad_type, substitutions);
        proof {
            assert(s.output_paths.deep_view().len() == s.output_paths@.len());
            assert(s.titles.deep_view().len() == s.titles@.len());
        }
        if s.output_paths.len() == 0 || s.titles.len() == 0 {
            return None;
        }

        // Build the list of input file paths.
        let ghost outs_dv = s.output_paths.deep_view();
        let ghost titles_dv = s.titles.deep_view();
        let ghost stop = s.has_stop_clause;
        s.build_input_list(input_candidates);
        proof {
            assert(s.input_paths.deep_view().len() == s.input_paths@.len());
        }
        if s.input_paths.len() == 0 {
            proof {
                let filtered = ext_filter_spec(
                    input_candidates.deep_view(),
                    seq!["mkv"@],
                    input_candidates@.len() as int,
                );
                if filtered.len() > 0 {
                    let sorted = choose|sorted: Seq<Seq<char>>|
                        {
                            &&& #[trigger] natural_sorted(sorted)
                            &&& sorted.to_multiset() == filtered.to_multiset()
                            &&& sorted.len() == filtered.len()
                            &&& s.input_paths.deep_view() == (if stop && outs_dv.len()
                                < sorted.len() {
                                sorted.take(outs_dv.len() as int)
                            } else {
                                sorted
                            })
                        };
                    assert(s.input_paths.deep_view().len() == 0);
                    assert(outs_dv.len() > 0);
                }
            }
            return None;
        }

        // The number of input files must equal the number of output names.
        if s.input_paths.len() != s.output_paths.len() {
            return None;
        }
        Some(s)
    }

    /// Read the output name list: lines are sanitized and paired with padded,
    /// indexed output paths; the stop sentinel ends the list; empty and
    /// comment lines are skipped.
    pub fn build_output_list(
        &mut self,
        lines: &Vec<String>,
        output_dir: &str,
        start_from: Option<usize>,
        index_pad_type: Option<PadType>,
        substitutions: &Substitutions,
    )
        requires
            substitutions.regexes_wf(),
            old(self).output_paths@.len() == 0,
            old(self).titles@.len() == 0,
            !old(self).has_stop_clause,
            (match start_from {
                Option::Some(s) => s + lines@.len() <= usize::MAX,
                Option::None => lines@.len() <= usize::MAX,
            }),
        ensures
            final(self).input_paths@ == old(self).input_paths@,
            ({
                let (stopped, outs, titles, _) = output_list_spec(
                    lines.deep_view(),
                    output_dir@,
                    (match start_from {
                        Option::Some(s) => s as int,
                        Option::None => 0,
                    }),
                    index_pad_type,
                    substitutions,
                    lines@.len() as int,
                );
                final(self).has_stop_clause == stopped && final(self).output_paths.deep_view()
                    == outs && final(self).titles.deep_view() == titles
            }),
    {
        let ghost start = (match start_from {
            Option::Some(s) => s as int,
            Option::None => 0,
        });
        let mut index: usize = match start_from {
            Some(s) => s,
            None => 0,
        };
        let count = lines.len();
        let mut i: usize = 0;
        let mut stopped = false;
        while i < count && !stopped
            invariant
                substitutions.regexes_wf(),
                count == lines@.len(),
                i <= count,
                start + count <= usize::MAX,
                self.input_paths@ == old(self).input_paths@,
                self.has_stop_clause == stopped,
                index as int <= start + i,
                (stopped, self.output_paths.deep_view(), self.titles.deep_view(), index as int)
                    == output_list_spec(
                    lines.deep_view(),
                    output_dir@,
                    start,
                    index_pad_type,
                    substitutions,
                    i as int,
                ),
            decreases count - i,
        {
            let ghost pre_outs = self.output_paths.deep_view();
            let ghost pre_titles = self.titles.deep_view();
            let line = &lines[i];
            assert(line@ == lines.deep_view()[i as int]);
            if str_eq(line.as_str(), "###STOP###") {
                stopped = true;
                self.has_stop_clause = true;
            } else {
                let sanitized = substitutions.apply(line.as_str());
                let slen = sanitized.as_str().unicode_len();
                let skip_line = slen == 0 || sanitized.as_str().get_char(0) == '#';
                if !skip_line {
                    let file_name = FileProcessor::file_name_from_padded_index(
                        sanitized.as_str(),
                        index,
                        index_pad_type,
                    );
                    let mut segs: Vec<String> = Vec::new();
                    segs.push(file_name);
                    let out_path = utils::join_path_segments(output_dir, &segs);
                    proof {
                        assert(segs.deep_view() =~= seq![
                            padded_name_spec(sanitized@, index as int, index_pad_type),
                        ]);
                        assert(utils::join_segments_spec(output_dir@, segs.deep_view(), 0)
                            == utils::join_segments_spec(
                            utils::push_segment_spec(output_dir@, segs.deep_view()[0]),
                            segs.deep_view(),
                            1,
                        ));
                    }
                    self.output_paths.push(out_path);
                    self.titles.push(sanitized);
                    index = index + 1;
                    proof {
                        assert(self.output_paths.deep_view() =~= pre_outs.push(
                            utils::push_segment_spec(
                                output_dir@,
                                padded_name_spec(
                                    substitutions.apply_spec(lines.deep_view()[i as int]),
                                    index - 1,
                                    index_pad_type,
                                ),
                            ),
                        ));
                        assert(self.titles.deep_view() =~= pre_titles.push(
                            substitutions.apply_spec(lines.deep_view()[i as int]),
                        ));
                    }
                }
            }
            i = i + 1;
        }
        if stopped {
            proof {
                lemma_output_list_stopped(
                    lines.deep_view(),
                    output_dir@,
                    start,
                    index_pad_type,
                    substitutions,
                    i as int,
                    count as int,
                );
            }
        }
    }
}

} // verus!
