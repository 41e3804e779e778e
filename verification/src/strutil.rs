//! Verified building blocks for working with strings: equality, substring
//! search, replacement, trimming, splitting and decimal rendering.

use vstd::prelude::*;
use vstd::string::StrSliceExecFns;
use vstd::string::StringExecFns;

verus! {

broadcast use vstd::string::group_string_axioms;

/// The needle `n` occurs in `h` starting at position `i`.
pub open spec fn match_at(h: Seq<char>, n: Seq<char>, i: int) -> bool {
    0 <= i && i + n.len() <= h.len() && h.subrange(i, i + n.len() as int) == n
}

/// The needle `n` occurs somewhere in `h`.
pub open spec fn contains_seq(h: Seq<char>, n: Seq<char>) -> bool {
    exists|i: int| match_at(h, n, i)
}

/// Character-for-character equality of two string slices.
pub fn str_eq(a: &str, b: &str) -> (r: bool)
    ensures
        r == (a@ == b@),
{
    let alen = a.unicode_len();
    let blen = b.unicode_len();
    if alen != blen {
        assert(a@ != b@) by {
            assert(a@.len() != b@.len());
        }
        return false;
    }
    let mut i: usize = 0;
    while i < alen
        invariant
            alen == a@.len(),
            blen == b@.len(),
            alen == blen,
            i <= alen,
            forall|k: int| 0 <= k < i ==> a@[k] == b@[k],
        decreases alen - i,
    {
        if a.get_char(i) != b.get_char(i) {
            return false;
        }
        i = i + 1;
    }
    assert(a@ =~= b@);
    true
}

/// Does the needle match the haystack at position `i`?
fn match_here(h: &str, n: &str, i: usize) -> (r: bool)
    requires
        i + n@.len() <= h@.len(),
    ensures
        r == match_at(h@, n@, i as int),
{
    let hlen = h.unicode_len();
    let nlen = n.unicode_len();
    let mut j: usize = 0;
    while j < nlen
        invariant
            hlen == h@.len(),
            nlen == n@.len(),
            i + nlen <= h@.len(),
            j <= nlen,
            forall|k: int| 0 <= k < j ==> h@[i + k] == n@[k],
        decreases nlen - j,
    {
        if h.get_char(i + j) != n.get_char(j) {
            assert(h@.subrange(i as int, i + n@.len()) != n@) by {
                assert(h@.subrange(i as int, i + n@.len())[j as int] == h@[i + j]);
            }
            return false;
        }
        j = j + 1;
    }
    assert(h@.subrange(i as int, i + n@.len()) =~= n@);
    true
}

/// Substring search: true exactly when `n` occurs in `h`.
pub fn str_contains(h: &str, n: &str) -> (r: bool)
    ensures
        r == contains_seq(h@, n@),
{
    let hlen = h.unicode_len();
    let nlen = n.unicode_len();
    if nlen > hlen {
        assert(!contains_seq(h@, n@));
        return false;
    }
    let limit = hlen - nlen;
    let mut i: usize = 0;
    loop
        invariant
            hlen == h@.len(),
            nlen == n@.len(),
            nlen <= hlen,
            limit == hlen - nlen,
            i <= limit,
            forall|k: int| 0 <= k < i ==> !match_at(h@, n@, k),
        decreases limit - i,
    {
        if match_here(h, n, i) {
            return true;
        }
        if i == limit {
            assert(forall|k: int| match_at(h@, n@, k) ==> 0 <= k <= limit);
            return false;
        }
        i = i + 1;
    }
}

/// Replacement of every non-overlapping occurrence of `from`, scanning left to
/// right. An empty pattern is deliberately treated as matching nowhere, so the
/// string comes back unchanged instead of having the replacement injected at
/// every character boundary.
pub open spec fn replace_all_spec(s: Seq<char>, from: Seq<char>, to: Seq<char>) -> Seq<char>
    decreases s.len(),
{
    if from.len() == 0 || s.len() < from.len() {
        s
    } else if s.subrange(0, from.len() as int) == from {
        to + replace_all_spec(s.skip(from.len() as int), from, to)
    } else {
        s.take(1) + replace_all_spec(s.skip(1), from, to)
    }
}

/// Replace every non-overlapping occurrence of `from` in `s` with `to`; an
/// empty pattern leaves the string unchanged.
pub fn replace_all(s: &str, from: &str, to: &str) -> (r: String)
    ensures
        r@ == replace_all_spec(s@, from@, to@),
{
    let slen = s.unicode_len();
    let flen = from.unicode_len();
    let mut out = String::new();
    if flen == 0 {
        let whole = s.substring_char(0, slen);
        out.append(whole);
        assert(out@ =~= replace_all_spec(s@, from@, to@)) by {
            assert(s@.subrange(0, s@.len() as int) =~= s@);
        }
        return out;
    }
    let mut i: usize = 0;
    assert(s@.skip(0) =~= s@);
    assert(out@ + replace_all_spec(s@, from@, to@) =~= replace_all_spec(s@, from@, to@));
    while i < slen
        invariant
            slen == s@.len(),
            flen == from@.len(),
            flen > 0,
            i <= slen,
            replace_all_spec(s@, from@, to@) == out@ + replace_all_spec(
                s@.skip(i as int),
                from@,
                to@,
            ),
        decreases slen - i,
    {
        let ghost pre = out@;
        let ghost suffix = s@.skip(i as int);
        if flen <= slen - i && match_here(s, from, i) {
            assert(suffix.subrange(0, from@.len() as int) =~= s@.subrange(
                i as int,
                i + from@.len(),
            ));
            out.append(to);
            i = i + flen;
            assert(suffix.skip(from@.len() as int) =~= s@.skip(i as int));
            assert(out@ + replace_all_spec(s@.skip(i as int), from@, to@) =~= pre
                + replace_all_spec(suffix, from@, to@));
        } else {
            assert(suffix.len() >= from@.len() ==> suffix.subrange(0, from@.len() as int)
                != from@) by {
                if suffix.len() >= from@.len() {
                    assert(suffix.subrange(0, from@.len() as int) =~= s@.subrange(
                        i as int,
                        i + from@.len(),
                    ));
                }
            }
            let piece = s.substring_char(i, i + 1);
            out.append(piece);
            i = i + 1;
            assert(piece@ =~= suffix.take(1));
            assert(suffix.skip(1) =~= s@.skip(i as int));
            assert(out@ + replace_all_spec(s@.skip(i as int), from@, to@) =~= pre
                + replace_all_spec(suffix, from@, to@));
        }
    }
    assert(s@.skip(slen as int) =~= Seq::<char>::empty());
    assert(replace_all_spec(Seq::<char>::empty(), from@, to@) =~= Seq::<char>::empty());
    assert(out@ =~= out@ + Seq::<char>::empty());
    out
}

/// Splitting on a separator, scanning left to right; the separator itself is
/// dropped. An empty separator yields the whole string as one piece.
pub open spec fn split_spec(s: Seq<char>, sep: Seq<char>) -> Seq<Seq<char>>
    decreases s.len(),
{
    if sep.len() == 0 || s.len() < sep.len() {
        seq![s]
    } else if s.subrange(0, sep.len() as int) == sep {
        seq![Seq::<char>::empty()] + split_spec(s.skip(sep.len() as int), sep)
    } else {
        let rest = split_spec(s.skip(1), sep);
        seq![seq![s[0]] + rest[0]] + rest.skip(1)
    }
}

pub proof fn lemma_split_spec_len(s: Seq<char>, sep: Seq<char>)
    ensures
        split_spec(s, sep).len() >= 1,
    decreases s.len(),
{
    if sep.len() == 0 || s.len() < sep.len() {
    } else if s.subrange(0, sep.len() as int) == sep {
        lemma_split_spec_len(s.skip(sep.len() as int), sep);
    } else {
        lemma_split_spec_len(s.skip(1), sep);
    }
}

/// The pieces of `rest` with `cur` prepended to the first piece.
spec fn prepend_first(rest: Seq<Seq<char>>, cur: Seq<char>) -> Seq<Seq<char>> {
    seq![cur + rest[0]] + rest.skip(1)
}

/// Split `s` on every occurrence of `sep`.
pub fn split_str(s: &str, sep: &str) -> (r: Vec<String>)
    ensures
        r.deep_view() == split_spec(s@, sep@),
{
    let slen = s.unicode_len();
    let seplen = sep.unicode_len();
    let mut out: Vec<String> = Vec::new();
    if seplen == 0 {
        let whole = s.substring_char(0, slen);
        out.push(whole.to_owned());
        assert(s@.subrange(0, s@.len() as int) =~= s@);
        assert(out.deep_view() =~= split_spec(s@, sep@));
        return out;
    }
    let mut cur = String::new();
    let mut i: usize = 0;
    proof {
        assert(s@.skip(0) =~= s@);
        lemma_split_spec_len(s@, sep@);
        assert(out.deep_view() + prepend_first(split_spec(s@, sep@), cur@) =~= prepend_first(
            split_spec(s@, sep@),
            cur@,
        ));
        assert(prepend_first(split_spec(s@, sep@), Seq::<char>::empty()) =~= split_spec(s@, sep@))
            by {
            assert(Seq::<char>::empty() + split_spec(s@, sep@)[0] =~= split_spec(s@, sep@)[0]);
            assert(seq![split_spec(s@, sep@)[0]] + split_spec(s@, sep@).skip(1) =~= split_spec(
                s@,
                sep@,
            ));
        }
    }
    while i < slen
        invariant
            slen == s@.len(),
            seplen == sep@.len(),
            seplen > 0,
            i <= slen,
            split_spec(s@, sep@) == out.deep_view() + prepend_first(
                split_spec(s@.skip(i as int), sep@),
                cur@,
            ),
        decreases slen - i,
    {
        let ghost suffix = s@.skip(i as int);
        let ghost pre_out = out.deep_view();
        let ghost pre_cur = cur@;
        if seplen <= slen - i && match_here(s, sep, i) {
            assert(suffix.subrange(0, sep@.len() as int) =~= s@.subrange(i as int, i + sep@.len()));
            out.push(cur);
            cur = String::new();
            i = i + seplen;
            proof {
                let rest = split_spec(s@.skip(i as int), sep@);
                lemma_split_spec_len(s@.skip(i as int), sep@);
                assert(suffix.skip(sep@.len() as int) =~= s@.skip(i as int));
                assert(split_spec(suffix, sep@) == seq![Seq::<char>::empty()] + rest);
                assert(prepend_first(seq![Seq::<char>::empty()] + rest, pre_cur) =~= seq![pre_cur]
                    + rest) by {
                    assert(pre_cur + (seq![Seq::<char>::empty()] + rest)[0] =~= pre_cur);
                    assert((seq![Seq::<char>::empty()] + rest).skip(1) =~= rest);
                }
                assert(prepend_first(rest, Seq::<char>::empty()) =~= rest) by {
                    assert(Seq::<char>::empty() + rest[0] =~= rest[0]);
                    assert(seq![rest[0]] + rest.skip(1) =~= rest);
                }
                assert(out.deep_view() =~= pre_out + seq![pre_cur]);
                assert(out.deep_view() + prepend_first(rest, cur@) =~= pre_out + prepend_first(
                    split_spec(suffix, sep@),
                    pre_cur,
                ));
            }
        } else {
            assert(suffix.len() >= sep@.len() ==> suffix.subrange(0, sep@.len() as int) != sep@)
                by {
                if suffix.len() >= sep@.len() {
                    assert(suffix.subrange(0, sep@.len() as int) =~= s@.subrange(
                        i as int,
                        i + sep@.len(),
                    ));
                }
            }
            let piece = s.substring_char(i, i + 1);
            cur.append(piece);
            i = i + 1;
            proof {
                let rest = split_spec(s@.skip(i as int), sep@);
                lemma_split_spec_len(s@.skip(i as int), sep@);
                assert(suffix.skip(1) =~= s@.skip(i as int));
                assert(suffix[0] == s@[i - 1]);
                assert(cur@ =~= pre_cur + seq![suffix[0]]);
                if suffix.len() >= sep@.len() {
                    assert(split_spec(suffix, sep@) == seq![seq![suffix[0]] + rest[0]]
                        + rest.skip(1));
                    assert(prepend_first(split_spec(suffix, sep@), pre_cur) =~= prepend_first(
                        rest,
                        cur@,
                    )) by {
                        assert(pre_cur + (seq![seq![suffix[0]] + rest[0]] + rest.skip(1))[0]
                            =~= cur@ + rest[0]);
                        assert((seq![seq![suffix[0]] + rest[0]] + rest.skip(1)).skip(1)
                            =~= rest.skip(1));
                    }
                } else {
                    // The remaining text is shorter than the separator: both the
                    // old and the new suffix split into a single piece.
                    assert(split_spec(suffix, sep@) == seq![suffix]);
                    assert(split_spec(suffix.skip(1), sep@) == seq![suffix.skip(1)]);
                    assert(prepend_first(split_spec(suffix, sep@), pre_cur) =~= prepend_first(
                        rest,
                        cur@,
                    )) by {
                        assert(pre_cur + suffix =~= cur@ + suffix.skip(1));
                        assert(seq![pre_cur + suffix].skip(1) =~= Seq::<Seq<char>>::empty());
                        assert(seq![cur@ + suffix.skip(1)].skip(1) =~= Seq::<Seq<char>>::empty());
                    }
                }
            }
        }
    }
    proof {
        assert(s@.skip(slen as int) =~= Seq::<char>::empty());
        assert(split_spec(Seq::<char>::empty(), sep@) =~= seq![Seq::<char>::empty()]);
    }
    out.push(cur);
    proof {
        let ghost fin = split_spec(s@.skip(slen as int), sep@);
        assert(prepend_first(fin, cur@) =~= seq![cur@]) by {
            assert(cur@ + fin[0] =~= cur@);
            assert(fin.skip(1) =~= Seq::<Seq<char>>::empty());
            assert(seq![cur@ + fin[0]] + fin.skip(1) =~= seq![cur@]);
        }
    }
    assert(out.deep_view() =~= split_spec(s@, sep@));
    out
}

/// What `str::to_lowercase` returns: a function of the characters alone.
pub uninterp spec fn lower_of(s: Seq<char>) -> Seq<char>;

/// Relies on str::to_lowercase: the result depends on the characters alone,
/// and an empty string stays empty.
#[verifier::external_body]
pub fn to_lowercase(s: &str) -> (r: String)
    ensures
        r@ == lower_of(s@),
        s@.len() == 0 ==> r@.len() == 0,
{
    s.to_lowercase()
}

/// What `str::to_uppercase` returns: a function of the characters alone.
pub uninterp spec fn upper_of(s: Seq<char>) -> Seq<char>;

/// Relies on str::to_uppercase: the result depends on the characters alone,
/// and an empty string stays empty.
#[verifier::external_body]
pub fn to_uppercase(s: &str) -> (r: String)
    ensures
        r@ == upper_of(s@),
        s@.len() == 0 ==> r@.len() == 0,
{
    s.to_uppercase()
}

/// Whether a list of strings holds one equal to the needle.
pub fn string_list_contains(list: &Vec<String>, needle: &str) -> (r: bool)
    ensures
        r == list.deep_view().contains(needle@),
{
    let count = list.len();
    let mut i: usize = 0;
    while i < count
        invariant
            count == list@.len(),
            i <= count,
            forall|k: int| 0 <= k < i ==> list.deep_view()[k] != needle@,
        decreases count - i,
    {
        if str_eq(list[i].as_str(), needle) {
            assert(list.deep_view()[i as int] == list@[i as int]@);
            return true;
        }
        assert(list.deep_view()[i as int] == list@[i as int]@);
        i = i + 1;
    }
    assert(!list.deep_view().contains(needle@));
    false
}

/// Whether a character counts as whitespace for trimming.
pub uninterp spec fn is_white(c: char) -> bool;

/// Relies on char::is_whitespace: the result depends on the character alone,
/// and space, tab and the line-break characters are whitespace.
#[verifier::external_body]
pub fn char_is_whitespace(c: char) -> (r: bool)
    ensures
        r == is_white(c),
        (c == ' ' || c == '\t' || c == '\n' || c == '\r') ==> r,
{
    c.is_whitespace()
}

/// Index of the first non-whitespace character at or after `i` (or the length).
pub open spec fn first_non_white(s: Seq<char>, i: int) -> int
    decreases s.len() - i,
{
    if i < 0 || i >= s.len() {
        i
    } else if is_white(s[i]) {
        first_non_white(s, i + 1)
    } else {
        i
    }
}

/// Exclusive end of the last non-whitespace character before `j` (or 0).
pub open spec fn last_non_white(s: Seq<char>, j: int) -> int
    decreases j,
{
    if j <= 0 {
        0
    } else if j > s.len() {
        j
    } else if is_white(s[j - 1]) {
        last_non_white(s, j - 1)
    } else {
        j
    }
}

/// The string with leading and trailing whitespace removed.
pub open spec fn trim_spec(s: Seq<char>) -> Seq<char> {
    let a = first_non_white(s, 0);
    let b = last_non_white(s, s.len() as int);
    if a <= b {
        s.subrange(a, b)
    } else {
        Seq::empty()
    }
}

proof fn lemma_first_non_white_step(s: Seq<char>, i: int)
    requires
        0 <= i < s.len(),
        is_white(s[i]),
    ensures
        first_non_white(s, i) == first_non_white(s, i + 1),
{
}

proof fn lemma_last_non_white_step(s: Seq<char>, j: int)
    requires
        0 < j <= s.len(),
        is_white(s[j - 1]),
    ensures
        last_non_white(s, j) == last_non_white(s, j - 1),
{
}

proof fn lemma_last_non_white_le(s: Seq<char>, j: int)
    requires
        0 <= j <= s.len(),
    ensures
        0 <= last_non_white(s, j) <= j,
    decreases j,
{
    if j > 0 && is_white(s[j - 1]) {
        lemma_last_non_white_le(s, j - 1);
    }
}

/// Remove leading and trailing whitespace.
pub fn trim(s: &str) -> (r: String)
    ensures
        r@ == trim_spec(s@),
{
    let len = s.unicode_len();
    let mut a: usize = 0;
    while a < len && char_is_whitespace(s.get_char(a))
        invariant
            len == s@.len(),
            a <= len,
            first_non_white(s@, 0) == first_non_white(s@, a as int),
        decreases len - a,
    {
        proof {
            lemma_first_non_white_step(s@, a as int);
        }
        a = a + 1;
    }
    assert(first_non_white(s@, 0) == a as int);
    let mut b: usize = len;
    while b > a && char_is_whitespace(s.get_char(b - 1))
        invariant
            len == s@.len(),
            a <= b <= len,
            a as int == first_non_white(s@, 0),
            last_non_white(s@, len as int) == last_non_white(s@, b as int),
        decreases b,
    {
        proof {
            lemma_last_non_white_step(s@, b as int);
        }
        b = b - 1;
    }
    if b == a {
        // Everything from `a` on (back to `a`) was whitespace.
        let r = String::new();
        assert(r@ =~= trim_spec(s@)) by {
            lemma_last_non_white_le(s@, a as int);
            if last_non_white(s@, s@.len() as int) == a as int {
                assert(s@.subrange(a as int, a as int) =~= Seq::<char>::empty());
            }
        }
        r
    } else {
        assert(!is_white(s@[b - 1]));
        assert(last_non_white(s@, b as int) == b as int);
        let r = s.substring_char(a, b);
        assert(r@ == trim_spec(s@));
        r.to_owned()
    }
}

/// The decimal digit character for `d`.
pub open spec fn digit_char(d: int) -> char {
    if d == 0 {
        '0'
    } else if d == 1 {
        '1'
    } else if d == 2 {
        '2'
    } else if d == 3 {
        '3'
    } else if d == 4 {
        '4'
    } else if d == 5 {
        '5'
    } else if d == 6 {
        '6'
    } else if d == 7 {
        '7'
    } else if d == 8 {
        '8'
    } else {
        '9'
    }
}

/// Decimal rendering of a non-negative integer, most significant digit first.
pub open spec fn dec_spec(n: int) -> Seq<char>
    decreases n,
{
    if n < 0 {
        Seq::empty()
    } else if n < 10 {
        seq![digit_char(n)]
    } else {
        dec_spec(n / 10).push(digit_char(n % 10))
    }
}

/// Decimal rendering of an integer, with a leading minus sign when negative.
pub open spec fn int_dec_spec(n: int) -> Seq<char> {
    if n < 0 {
        seq!['-'] + dec_spec(-n)
    } else {
        dec_spec(n)
    }
}

/// Decimal rendering zero-padded on the left to at least `width` characters.
pub open spec fn padded_dec_spec(n: int, width: int) -> Seq<char> {
    if dec_spec(n).len() >= width {
        dec_spec(n)
    } else {
        Seq::new((width - dec_spec(n).len()) as nat, |i: int| '0') + dec_spec(n)
    }
}

fn digit_str(d: u64) -> (r: &'static str)
    requires
        d < 10,
    ensures
        r@ =~= seq![digit_char(d as int)],
{
    proof {
        reveal_strlit("0");
        reveal_strlit("1");
        reveal_strlit("2");
        reveal_strlit("3");
        reveal_strlit("4");
        reveal_strlit("5");
        reveal_strlit("6");
        reveal_strlit("7");
        reveal_strlit("8");
        reveal_strlit("9");
    }
    if d == 0 {
        "0"
    } else if d == 1 {
        "1"
    } else if d == 2 {
        "2"
    } else if d == 3 {
        "3"
    } else if d == 4 {
        "4"
    } else if d == 5 {
        "5"
    } else if d == 6 {
        "6"
    } else if d == 7 {
        "7"
    } else if d == 8 {
        "8"
    } else {
        "9"
    }
}

/// Whether `c` is a decimal digit.
pub open spec fn is_digit(c: char) -> bool {
    c == '0' || c == '1' || c == '2' || c == '3' || c == '4' || c == '5' || c == '6' || c == '7'
        || c == '8' || c == '9'
}

/// The numeric value of a digit character.
pub open spec fn digit_val(c: char) -> int {
    if c == '0' {
        0
    } else if c == '1' {
        1
    } else if c == '2' {
        2
    } else if c == '3' {
        3
    } else if c == '4' {
        4
    } else if c == '5' {
        5
    } else if c == '6' {
        6
    } else if c == '7' {
        7
    } else if c == '8' {
        8
    } else {
        9
    }
}

/// Every character is a decimal digit.
pub open spec fn all_digits(s: Seq<char>) -> bool {
    forall|i: int| 0 <= i < s.len() ==> is_digit(s[i])
}

/// The value of a string of decimal digits.
pub open spec fn digits_val(s: Seq<char>) -> int
    decreases s.len(),
{
    if s.len() == 0 {
        0
    } else {
        digits_val(s.take(s.len() - 1)) * 10 + digit_val(s[s.len() - 1])
    }
}

proof fn lemma_digits_val_nonneg(s: Seq<char>)
    ensures
        digits_val(s) >= 0,
    decreases s.len(),
{
    if s.len() > 0 {
        lemma_digits_val_nonneg(s.take(s.len() - 1));
        lemma_mul_add_ge(digits_val(s.take(s.len() - 1)), digit_val(s[s.len() - 1]));
    }
}

proof fn lemma_mul_add_ge(a: int, d: int)
    requires
        a >= 0,
        d >= 0,
    ensures
        a * 10 + d >= a,
        a * 10 + d >= 0,
{
    assert(a * 10 + d >= a && a * 10 + d >= 0) by (nonlinear_arith)
        requires
            a >= 0,
            d >= 0,
    ;
}

fn exec_digit_val(c: char) -> (r: Option<u64>)
    ensures
        r is Some <==> is_digit(c),
        r is Some ==> r->0 as int == digit_val(c),
{
    match c {
        '0' => Some(0),
        '1' => Some(1),
        '2' => Some(2),
        '3' => Some(3),
        '4' => Some(4),
        '5' => Some(5),
        '6' => Some(6),
        '7' => Some(7),
        '8' => Some(8),
        '9' => Some(9),
        _ => None,
    }
}

/// Parse a string of decimal digits as a u32. Returns None when the string is
/// empty, holds a non-digit, or the value does not fit.
pub fn parse_u32(s: &str) -> (r: Option<u32>)
    ensures
        r is Some <==> (s@.len() > 0 && all_digits(s@) && digits_val(s@) <= u32::MAX),
        r is Some ==> r->0 as int == digits_val(s@),
{
    let len = s.unicode_len();
    if len == 0 {
        return None;
    }
    let mut acc: u64 = 0;
    let mut over = false;
    let mut i: usize = 0;
    while i < len
        invariant
            len == s@.len(),
            i <= len,
            forall|k: int| 0 <= k < i ==> is_digit(s@[k]),
            !over ==> acc as int == digits_val(s@.take(i as int)) && acc <= u32::MAX,
            over ==> digits_val(s@.take(i as int)) > u32::MAX,
        decreases len - i,
    {
        let c = s.get_char(i);
        let d = match exec_digit_val(c) {
            Some(d) => d,
            None => {
                assert(!all_digits(s@));
                return None;
            },
        };
        let ghost prefix = s@.take(i as int);
        let ghost prefix1 = s@.take(i + 1);
        proof {
            assert(prefix1.take(prefix1.len() - 1) =~= prefix);
            assert(prefix1[prefix1.len() - 1] == s@[i as int]);
            assert(digits_val(prefix1) == digits_val(prefix) * 10 + digit_val(s@[i as int]));
            lemma_digits_val_nonneg(prefix);
            lemma_mul_add_ge(digits_val(prefix), digit_val(s@[i as int]));
        }
        if !over {
            acc = acc * 10 + d;
            if acc > 0xFFFF_FFFF {
                over = true;
            }
        }
        i = i + 1;
    }
    assert(s@.take(len as int) =~= s@);
    if over {
        None
    } else {
        Some(acc as u32)
    }
}

/// Render an unsigned integer in decimal.
pub fn u64_to_string(n: u64) -> (r: String)
    ensures
        r@ == dec_spec(n as int),
    decreases n,
{
    if n < 10 {
        let mut out = String::new();
        out.append(digit_str(n));
        assert(out@ =~= dec_spec(n as int));
        out
    } else {
        let mut out = u64_to_string(n / 10);
        out.append(digit_str(n % 10));
        assert(out@ =~= dec_spec(n as int));
        out
    }
}

/// Render a usize in decimal.
pub fn usize_to_string(n: usize) -> (r: String)
    ensures
        r@ == dec_spec(n as int),
{
    u64_to_string(n as u64)
}

/// Render a u32 in decimal.
pub fn u32_to_string(n: u32) -> (r: String)
    ensures
        r@ == dec_spec(n as int),
{
    u64_to_string(n as u64)
}

/// Render an i32 in decimal, with a minus sign when negative.
pub fn i32_to_string(n: i32) -> (r: String)
    ensures
        r@ == int_dec_spec(n as int),
{
    if n < 0 {
        let mut out = String::new();
        out.append("-");
        let mag: u64 = (-(n as i64)) as u64;
        let digits = u64_to_string(mag);
        out.append(digits.as_str());
        proof {
            reveal_strlit("-");
        }
        assert(out@ =~= int_dec_spec(n as int));
        out
    } else {
        let out = u64_to_string(n as u64);
        assert(out@ =~= int_dec_spec(n as int));
        out
    }
}

/// Render a usize in decimal, zero-padded on the left to at least `width`.
pub fn padded_usize_to_string(n: usize, width: usize) -> (r: String)
    ensures
        r@ == padded_dec_spec(n as int, width as int),
{
    let digits = u64_to_string(n as u64);
    let dlen = digits.as_str().unicode_len();
    let mut out = String::new();
    if dlen >= width {
        out.append(digits.as_str());
        assert(out@ =~= padded_dec_spec(n as int, width as int));
        return out;
    }
    let pad = width - dlen;
    let mut i: usize = 0;
    while i < pad
        invariant
            i <= pad,
            out@ =~= Seq::new(i as nat, |k: int| '0'),
        decreases pad - i,
    {
        let ghost pre = out@;
        out.append("0");
        proof {
            reveal_strlit("0");
        }
        assert(out@ =~= Seq::new((i + 1) as nat, |k: int| '0'));
        i = i + 1;
    }
    out.append(digits.as_str());
    assert(out@ =~= padded_dec_spec(n as int, width as int));
    out
}

} // verus!
