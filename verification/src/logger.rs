//! The run log: messages are buffered as (text, console) entries that the
//! surrounding program drains to the console and the log file.

use vstd::prelude::*;
use vstd::string::StrSliceExecFns;
use vstd::string::StringExecFns;

use crate::strutil;
use crate::strutil::{replace_all_spec, split_spec};

verus! {

broadcast use vstd::string::group_string_axioms;

/// The buffered run log.
pub struct Logger {
    /// Whether writing to the log file is active.
    pub enabled: bool,
    /// Whether the next section is the first one.
    pub is_first_section: bool,
    /// The buffered entries: the text and whether it goes to the console.
    pub entries: Vec<(String, bool)>,
}

impl Logger {
    pub fn new() -> (r: Logger)
        ensures
            !r.enabled,
            r.is_first_section,
            r.entries@.len() == 0,
    {
        Logger { enabled: false, is_first_section: true, entries: Vec::new() }
    }

    /// Buffer a message with a line ending.
    pub fn log(&mut self, message: &str, console: bool)
        ensures
            final(self).enabled == old(self).enabled,
            final(self).is_first_section == old(self).is_first_section,
            final(self).entries.deep_view() == old(self).entries.deep_view().push(
                (message@ + "\r\n"@, console),
            ),
    {
        let mut text = message.to_owned();
        text.append("\r\n");
        let ghost tv = text@;
        self.entries.push((text, console));
        assert(self.entries.deep_view() =~= old(self).entries.deep_view().push((tv, console)));
    }

    /// Buffer a message without a line ending.
    pub fn log_inline(&mut self, message: &str, console: bool)
        ensures
            final(self).enabled == old(self).enabled,
            final(self).is_first_section == old(self).is_first_section,
            final(self).entries.deep_view() == old(self).entries.deep_view().push(
                (message@, console),
            ),
    {
        self.entries.push((message.to_owned(), console));
        assert(self.entries.deep_view() =~= old(self).entries.deep_view().push(
            (message@, console),
        ));
    }
}

/// Whether the next section is the first one.
pub fn is_first_section(logger: &Logger) -> (r: bool)
    ensures
        r == logger.is_first_section,
{
    logger.is_first_section
}

/// Whether writing to the log file is active.
pub fn is_logger_enabled(logger: &Logger) -> (r: bool)
    ensures
        r == logger.enabled,
{
    logger.enabled
}

/// Turn writing to the log file on or off.
pub fn set_enabled(logger: &mut Logger, enabled: bool)
    ensures
        final(logger).enabled == enabled,
        final(logger).is_first_section == old(logger).is_first_section,
        final(logger).entries.deep_view() == old(logger).entries.deep_view(),
{
    logger.enabled = enabled;
}

/// Mark whether the next section is the first one.
pub fn set_is_first_section(logger: &mut Logger, first: bool)
    ensures
        final(logger).enabled == old(logger).enabled,
        final(logger).is_first_section == first,
        final(logger).entries.deep_view() == old(logger).entries.deep_view(),
{
    logger.is_first_section = first;
}

/// Buffer a message with a line ending.
pub fn log(logger: &mut Logger, message: &str, console: bool)
    ensures
        final(logger).enabled == old(logger).enabled,
        final(logger).is_first_section == old(logger).is_first_section,
        final(logger).entries.deep_view() == old(logger).entries.deep_view().push(
            (message@ + "\r\n"@, console),
        ),
{
    logger.log(message, console);
}

/// Buffer a message without a line ending.
pub fn log_inline(logger: &mut Logger, message: &str, console: bool)
    ensures
        final(logger).enabled == old(logger).enabled,
        final(logger).is_first_section == old(logger).is_first_section,
        final(logger).entries.deep_view() == old(logger).entries.deep_view().push(
            (message@, console),
        ),
{
    logger.log_inline(message, console);
}

/// The log entries of one captured output: one per non-empty line, with
/// carriage returns removed and a quoting prefix added.
pub open spec fn output_lines_spec(
    lines: Seq<Seq<char>>,
    console: bool,
    i: int,
) -> Seq<(Seq<char>, bool)>
    decreases i,
{
    if i <= 0 {
        Seq::empty()
    } else {
        let clean = replace_all_spec(lines[i - 1], "\r"@, Seq::<char>::empty());
        output_lines_spec(lines, console, i - 1) + (if clean.len() == 0 {
            Seq::<(Seq<char>, bool)>::empty()
        } else {
            seq![(">\t"@ + clean + "\r\n"@, console)]
        })
    }
}

/// Buffer the lines of a captured tool output, quoted, skipping empty lines.
pub fn log_output_lines(logger: &mut Logger, output: &str, console: bool)
    ensures
        final(logger).enabled == old(logger).enabled,
        final(logger).is_first_section == old(logger).is_first_section,
        final(logger).entries.deep_view() == old(logger).entries.deep_view() + output_lines_spec(
            split_spec(output@, "\n"@),
            console,
            split_spec(output@, "\n"@).len() as int,
        ),
{
    let lines = strutil::split_str(output, "\n");
    let ghost base = logger.entries.deep_view();
    let count = lines.len();
    let mut i: usize = 0;
    assert(logger.entries.deep_view() =~= base + output_lines_spec(lines.deep_view(), console, 0));
    while i < count
        invariant
            count == lines@.len(),
            i <= count,
            logger.enabled == old(logger).enabled,
            logger.is_first_section == old(logger).is_first_section,
            logger.entries.deep_view() == base + output_lines_spec(
                lines.deep_view(),
                console,
                i as int,
            ),
        decreases count - i,
    {
        assert(lines.deep_view()[i as int] == lines@[i as int]@);
        let clean = strutil::replace_all(lines[i].as_str(), "\r", "");
        proof {
            reveal_strlit("");
            assert(""@ =~= Seq::<char>::empty());
        }
        if clean.as_str().unicode_len() != 0 {
            let mut text = ">\t".to_owned();
            text.append(clean.as_str());
            logger.log(text.as_str(), console);
        }
        assert(logger.entries.deep_view() =~= base + output_lines_spec(
            lines.deep_view(),
            console,
            i + 1,
        ));
        i = i + 1;
    }
    assert(lines.deep_view() == split_spec(output@, "\n"@));
}

/// A section banner: the title centered in a 60-character dashed rule, or the
/// bare title when it is too long.
pub open spec fn section_banner_spec(title: Seq<char>) -> Seq<char> {
    if title.len() >= 60 {
        title
    } else {
        Seq::new(((60 - title.len()) / 2) as nat, |i: int| '-') + title + Seq::new(
            ((60 - title.len()) - (60 - title.len()) / 2) as nat,
            |i: int| '-',
        )
    }
}

fn dashes(n: usize) -> (r: String)
    ensures
        r@ == Seq::new(n as nat, |i: int| '-'),
{
    let mut out = String::new();
    let mut i: usize = 0;
    assert(out@ =~= Seq::new(0nat, |k: int| '-'));
    while i < n
        invariant
            i <= n,
            out@ == Seq::new(i as nat, |k: int| '-'),
        decreases n - i,
    {
        out.append("-");
        proof {
            reveal_strlit("-");
        }
        assert(out@ =~= Seq::new((i + 1) as nat, |k: int| '-'));
        i = i + 1;
    }
    out
}

/// Buffer a section banner: a blank line first, except before the first one.
pub fn section(logger: &mut Logger, title: &str, console: bool)
    ensures
        final(logger).enabled == old(logger).enabled,
        !final(logger).is_first_section,
        final(logger).entries.deep_view() == (if old(logger).is_first_section {
            old(logger).entries.deep_view()
        } else {
            old(logger).entries.deep_view().push(("\r\n"@, console))
        }).push((section_banner_spec(title@) + "\r\n"@, console)),
{
    if is_first_section(logger) {
        set_is_first_section(logger, false);
    } else {
        log(logger, "", console);
        proof {
            reveal_strlit("");
            assert(""@ + "\r\n"@ =~= "\r\n"@);
        }
    }
    let tlen = title.unicode_len();
    let banner: String = if tlen >= 60 {
        title.to_owned()
    } else {
        let left = (60 - tlen) / 2;
        let right = (60 - tlen) - left;
        let mut b = dashes(left);
        b.append(title);
        let r = dashes(right);
        b.append(r.as_str());
        b
    };
    assert(banner@ =~= section_banner_spec(title@));
    logger.log(banner.as_str(), console);
}

/// Buffer a subsection header: the title in brackets.
pub fn subsection(logger: &mut Logger, title: &str, console: bool)
    ensures
        final(logger).enabled == old(logger).enabled,
        final(logger).is_first_section == old(logger).is_first_section,
        final(logger).entries.deep_view() == old(logger).entries.deep_view().push(
            ("["@ + title@ + "]"@ + "\r\n"@, console),
        ),
{
    let mut text = "[".to_owned();
    text.append(title);
    text.append("]");
    logger.log(text.as_str(), console);
}

} // verus!
