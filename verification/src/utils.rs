//! General helpers: yes/no rendering, duration formatting and the library's
//! model of file paths (file name, extension, joining segments).

use vstd::prelude::*;
use vstd::string::StrSliceExecFns;
use vstd::string::StringExecFns;

use crate::strutil;
use crate::strutil::{dec_spec, lower_of};

verus! {

/// Convert a boolean value to yes or no.
pub fn bool_to_yes_no(b: bool) -> (r: String)
    ensures
        b ==> r@ == "yes"@,
        !b ==> r@ == "no"@,
{
    if b {
        "yes".to_owned()
    } else {
        "no".to_owned()
    }
}

/// One component of a rendered duration: an amount and its unit name.
pub struct DurationUnit<'a> {
    pub amount: u64,
    pub unit: &'a str,
}

/// "N unit", with a plural "s" whenever the amount is not exactly one.
pub open spec fn unit_render_spec(amount: int, unit: Seq<char>) -> Seq<char> {
    dec_spec(amount) + " "@ + unit + (if amount != 1 {
        "s"@
    } else {
        Seq::<char>::empty()
    })
}

impl<'a> DurationUnit<'a> {
    pub fn new(amount: u64, unit: &'a str) -> (r: Self)
        ensures
            r.amount == amount,
            r.unit@ == unit@,
    {
        Self { amount, unit }
    }

    /// Render the unit, pluralised unless the amount is exactly one.
    pub fn render(&self) -> (r: String)
        ensures
            r@ == unit_render_spec(self.amount as int, self.unit@),
    {
        let mut out = strutil::u64_to_string(self.amount);
        out.append(" ");
        out.append(self.unit);
        if self.amount != 1 {
            out.append("s");
        }
        assert(out@ =~= unit_render_spec(self.amount as int, self.unit@));
        out
    }
}

/// The number of seconds in a minute.
pub const SECONDS_IN_MINUTE: u64 = 60;

/// The number of seconds in an hour.
pub const SECONDS_IN_HOUR: u64 = 3600;

/// The number of seconds in a day.
pub const SECONDS_IN_DAY: u64 = 86400;

/// The (amount, unit) components of a duration, largest unit first; a unit is
/// present exactly when the remainder so far reaches it.
pub open spec fn duration_units_spec(seconds: int) -> Seq<(int, Seq<char>)> {
    let u0 = Seq::<(int, Seq<char>)>::empty();
    let u1 = if seconds >= 86400 {
        u0.push((seconds / 86400, "day"@))
    } else {
        u0
    };
    let s1 = seconds % 86400;
    let u2 = if s1 >= 3600 {
        u1.push((s1 / 3600, "hour"@))
    } else {
        u1
    };
    let s2 = s1 % 3600;
    let u3 = if s2 >= 60 {
        u2.push((s2 / 60, "minute"@))
    } else {
        u2
    };
    let s3 = s2 % 60;
    if s3 >= 1 {
        u3.push((s3, "second"@))
    } else {
        u3
    }
}

/// Join rendered units from position `i` on: ", " between units and "and "
/// before the last one when there are several.
pub open spec fn join_units_spec(us: Seq<(int, Seq<char>)>, i: int) -> Seq<char>
    decreases us.len() - i,
{
    if i < 0 || i >= us.len() {
        Seq::empty()
    } else {
        (if i == us.len() - 1 && us.len() > 1 {
            "and "@
        } else {
            Seq::<char>::empty()
        }) + unit_render_spec(us[i].0, us[i].1) + (if i < us.len() - 1 {
            ", "@
        } else {
            Seq::<char>::empty()
        }) + join_units_spec(us, i + 1)
    }
}

/// The full rendering of a duration given in seconds.
pub open spec fn format_duration_spec(seconds: int) -> Seq<char> {
    let us = duration_units_spec(seconds);
    if us.len() == 0 {
        "less than 1 second"@
    } else {
        join_units_spec(us, 0)
    }
}

/// Convert a duration (in seconds) into days, hours, minutes and seconds.
pub fn format_duration(seconds: u64) -> (r: String)
    ensures
        r@ == format_duration_spec(seconds as int),
{
    let mut units: Vec<DurationUnit> = Vec::new();
    let mut rem = seconds;
    if rem >= SECONDS_IN_DAY {
        units.push(DurationUnit::new(rem / SECONDS_IN_DAY, "day"));
        rem = rem % SECONDS_IN_DAY;
    } else {
        assert(rem == rem % 86400);
    }
    if rem >= SECONDS_IN_HOUR {
        units.push(DurationUnit::new(rem / SECONDS_IN_HOUR, "hour"));
        rem = rem % SECONDS_IN_HOUR;
    } else {
        assert(rem == rem % 3600);
    }
    if rem >= SECONDS_IN_MINUTE {
        units.push(DurationUnit::new(rem / SECONDS_IN_MINUTE, "minute"));
        rem = rem % SECONDS_IN_MINUTE;
    } else {
        assert(rem == rem % 60);
    }
    if rem >= 1 {
        units.push(DurationUnit::new(rem, "second"));
    }
    let ghost us = duration_units_spec(seconds as int);
    assert(units@.len() == us.len() && forall|k: int|
        0 <= k < us.len() ==> units@[k].amount == us[k].0 && units@[k].unit@ == us[k].1);
    if units.len() == 0 {
        return "less than 1 second".to_owned();
    }
    let mut formatted = String::new();
    let count = units.len();
    let mut i: usize = 0;
    while i < count
        invariant
            count == units@.len(),
            count == us.len(),
            count >= 1,
            i <= count,
            forall|k: int|
                0 <= k < us.len() ==> units@[k].amount == us[k].0 && units@[k].unit@ == us[k].1,
            join_units_spec(us, 0) == formatted@ + join_units_spec(us, i as int),
        decreases count - i,
    {
        let ghost pre = formatted@;
        if i == count - 1 && count > 1 {
            formatted.append("and ");
        }
        let piece = units[i].render();
        formatted.append(piece.as_str());
        if i < count - 1 {
            formatted.append(", ");
        }
        i = i + 1;
        assert(formatted@ + join_units_spec(us, i as int) =~= pre + join_units_spec(
            us,
            i - 1,
        ));
    }
    assert(formatted@ =~= formatted@ + join_units_spec(us, count as int));
    formatted
}

/// A path separator character.
pub open spec fn is_sep(c: char) -> bool {
    c == '/' || c == '\\'
}

/// The position just after the last separator strictly before `j` (or 0).
pub open spec fn last_sep_end(s: Seq<char>, j: int) -> int
    decreases j,
{
    if j <= 0 {
        0
    } else if is_sep(s[j - 1]) {
        j
    } else {
        last_sep_end(s, j - 1)
    }
}

/// The position just after the last `.` of the final path component strictly
/// before `j`, or 0 when the final component holds no dot.
pub open spec fn last_dot_end(s: Seq<char>, j: int) -> int
    decreases j,
{
    if j <= 0 {
        0
    } else if s[j - 1] == '.' {
        j
    } else if is_sep(s[j - 1]) {
        0
    } else {
        last_dot_end(s, j - 1)
    }
}

/// The final component of a path: everything after the last separator.
pub open spec fn file_name_spec(s: Seq<char>) -> Seq<char> {
    s.skip(last_sep_end(s, s.len() as int))
}

/// Whether the final path component carries an extension: it holds a dot that
/// is not its first character.
pub open spec fn has_extension_spec(s: Seq<char>) -> bool {
    let d = last_dot_end(s, s.len() as int);
    let c = last_sep_end(s, s.len() as int);
    d > c + 1
}

/// The extension of the final path component (without the dot, not lowercased).
pub open spec fn extension_spec(s: Seq<char>) -> Seq<char> {
    s.skip(last_dot_end(s, s.len() as int))
}

proof fn lemma_last_sep_end_step(s: Seq<char>, j: int)
    requires
        0 < j <= s.len(),
        !is_sep(s[j - 1]),
    ensures
        last_sep_end(s, j) == last_sep_end(s, j - 1),
{
}

proof fn lemma_last_dot_end_step(s: Seq<char>, j: int)
    requires
        0 < j <= s.len(),
        s[j - 1] != '.',
        !is_sep(s[j - 1]),
    ensures
        last_dot_end(s, j) == last_dot_end(s, j - 1),
{
}

proof fn lemma_last_dot_end_bounds(s: Seq<char>, j: int)
    requires
        0 <= j <= s.len(),
    ensures
        0 <= last_dot_end(s, j) <= j,
    decreases j,
{
    if j > 0 && s[j - 1] != '.' && !is_sep(s[j - 1]) {
        lemma_last_dot_end_bounds(s, j - 1);
    }
}

/// Scan for the position just after the last separator of the whole path.
fn find_last_sep_end(s: &str) -> (r: usize)
    ensures
        r as int == last_sep_end(s@, s@.len() as int),
        r <= s@.len(),
{
    let len = s.unicode_len();
    let mut k: usize = len;
    while k > 0
        invariant
            len == s@.len(),
            k <= len,
            last_sep_end(s@, len as int) == last_sep_end(s@, k as int),
        decreases k,
    {
        let c = s.get_char(k - 1);
        if c == '/' || c == '\\' {
            return k;
        }
        proof {
            lemma_last_sep_end_step(s@, k as int);
        }
        k = k - 1;
    }
    0
}

/// Scan for the position just after the last dot of the final path component.
fn find_last_dot_end(s: &str) -> (r: usize)
    ensures
        r as int == last_dot_end(s@, s@.len() as int),
        r <= s@.len(),
{
    let len = s.unicode_len();
    let mut k: usize = len;
    while k > 0
        invariant
            len == s@.len(),
            k <= len,
            last_dot_end(s@, len as int) == last_dot_end(s@, k as int),
        decreases k,
    {
        let c = s.get_char(k - 1);
        if c == '.' {
            return k;
        }
        if c == '/' || c == '\\' {
            return 0;
        }
        proof {
            lemma_last_dot_end_step(s@, k as int);
        }
        k = k - 1;
    }
    0
}

/// Get the name and extension of a given file path: everything after the last
/// separator. Returns None when that part is empty.
pub fn get_file_name(fp: &str) -> (r: Option<String>)
    ensures
        r is Some <==> file_name_spec(fp@).len() > 0,
        r is Some ==> r->0@ == file_name_spec(fp@),
{
    let len = fp.unicode_len();
    let c = find_last_sep_end(fp);
    if c == len {
        assert(file_name_spec(fp@) =~= Seq::<char>::empty());
        None
    } else {
        let name = fp.substring_char(c, len);
        assert(name@ =~= file_name_spec(fp@));
        Some(name.to_owned())
    }
}

/// Get the extension of a given file path, lowercased. Returns None when the
/// final component holds no dot, or its only dot starts it.
pub fn get_file_extension(fp: &str) -> (r: Option<String>)
    ensures
        r is Some <==> has_extension_spec(fp@),
        r is Some ==> r->0@ == lower_of(extension_spec(fp@)),
{
    let len = fp.unicode_len();
    let c = find_last_sep_end(fp);
    let d = find_last_dot_end(fp);
    if d > 0 && d - 1 > c {
        proof {
            lemma_last_dot_end_bounds(fp@, len as int);
        }
        let ext = fp.substring_char(d, len);
        assert(ext@ =~= extension_spec(fp@));
        Some(strutil::to_lowercase(ext))
    } else {
        None
    }
}

/// One step of joining: append a segment behind a separator, unless the base
/// is empty or already ends in a separator.
pub open spec fn push_segment_spec(base: Seq<char>, seg: Seq<char>) -> Seq<char> {
    if base.len() == 0 {
        seg
    } else if is_sep(base[base.len() - 1]) {
        base + seg
    } else {
        base + "/"@ + seg
    }
}

/// The result of joining all segments onto the base, first to last.
pub open spec fn join_segments_spec(base: Seq<char>, segs: Seq<Seq<char>>, i: int) -> Seq<char>
    decreases segs.len() - i,
{
    if i < 0 || i >= segs.len() {
        base
    } else {
        join_segments_spec(push_segment_spec(base, segs[i]), segs, i + 1)
    }
}

/// Join several path segments into a single path. Segments are treated as
/// relative names.
pub fn join_path_segments(base: &str, paths: &Vec<String>) -> (r: String)
    ensures
        r@ == join_segments_spec(base@, paths.deep_view(), 0),
{
    let mut out = base.to_owned();
    let count = paths.len();
    let mut i: usize = 0;
    while i < count
        invariant
            count == paths@.len(),
            i <= count,
            join_segments_spec(base@, paths.deep_view(), 0) == join_segments_spec(
                out@,
                paths.deep_view(),
                i as int,
            ),
        decreases count - i,
    {
        let ghost pre = out@;
        let blen = out.as_str().unicode_len();
        if blen == 0 {
            out = paths[i].clone();
        } else {
            let last = out.as_str().get_char(blen - 1);
            if !(last == '/' || last == '\\') {
                out.append("/");
            }
            out.append(paths[i].as_str());
        }
        i = i + 1;
        assert(out@ =~= push_segment_spec(pre, paths.deep_view()[i - 1]));
    }
    out
}

/// The path with its extension replaced (or appended when there is none).
pub open spec fn swap_extension_spec(s: Seq<char>, new_ext: Seq<char>) -> Seq<char> {
    if file_name_spec(s).len() == 0 {
        s
    } else if has_extension_spec(s) {
        s.take(last_dot_end(s, s.len() as int)) + new_ext
    } else {
        s + "."@ + new_ext
    }
}

/// Swapping a path's extension for the extension it already has leaves the
/// path unchanged.
pub proof fn lemma_same_extension_swap_identity(s: Seq<char>, e: Seq<char>)
    requires
        has_extension_spec(s),
        extension_spec(s) == e,
    ensures
        swap_extension_spec(s, e) == s,
{
    let len = s.len() as int;
    let d = last_dot_end(s, len);
    let c = last_sep_end(s, len);
    lemma_last_dot_end_bounds(s, len);
    lemma_last_sep_end_bounds_all(s, len);
    assert(file_name_spec(s).len() > 0) by {
        assert(len - c > 0);
    }
    assert(s.take(d) + s.skip(d) =~= s);
}

proof fn lemma_last_sep_end_bounds_all(s: Seq<char>, j: int)
    requires
        0 <= j <= s.len(),
    ensures
        0 <= last_sep_end(s, j) <= j,
    decreases j,
{
    if j > 0 && !is_sep(s[j - 1]) {
        lemma_last_sep_end_bounds_all(s, j - 1);
    }
}

/// Swap the extension of a file path for a new one.
pub fn swap_file_extension(fp: &str, new_ext: &str) -> (r: String)
    ensures
        r@ == swap_extension_spec(fp@, new_ext@),
{
    let len = fp.unicode_len();
    let c = find_last_sep_end(fp);
    if c == len {
        assert(file_name_spec(fp@) =~= Seq::<char>::empty());
        return fp.to_owned();
    }
    assert(file_name_spec(fp@).len() > 0);
    let d = find_last_dot_end(fp);
    if d > 0 && d - 1 > c {
        let stem = fp.substring_char(0, d);
        let mut out = stem.to_owned();
        out.append(new_ext);
        assert(out@ =~= swap_extension_spec(fp@, new_ext@));
        out
    } else {
        let mut out = fp.to_owned();
        out.append(".");
        out.append(new_ext);
        assert(out@ =~= swap_extension_spec(fp@, new_ext@));
        out
    }
}

} // verus!
