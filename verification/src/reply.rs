//! SMTP reply framing: the multi-line reply parser and its wire model.
//!
//! An upstream reply is a run of lines, each starting with a three-digit code.
//! The fourth character is `-` on continuation lines and a space (or the line
//! ends after the code) on the terminating line; every line of one reply must
//! carry the same code. The parser keeps each accepted line verbatim, so that
//! writing a parsed reply back to the wire reproduces the input byte for byte.

use vstd::prelude::*;

use crate::text::{code_digits, code_to_digits};

verus! {

/// Whether `c` is an ASCII decimal digit.
pub open spec fn is_digit_char(c: char) -> bool {
    '0' <= c && c <= '9'
}

/// A reply line is well-formed when it starts with three digits followed by
/// either the end of the line, a space, or a `-` continuation marker.
pub open spec fn reply_line_wf(l: Seq<char>) -> bool {
    &&& l.len() >= 3
    &&& is_digit_char(l[0])
    &&& is_digit_char(l[1])
    &&& is_digit_char(l[2])
    &&& (l.len() == 3 || l[3] == ' ' || l[3] == '-')
}

/// The numeric code carried by a well-formed reply line.
pub open spec fn line_code(l: Seq<char>) -> int {
    (l[0] as int - 48) * 100 + (l[1] as int - 48) * 10 + (l[2] as int - 48)
}

/// Whether a well-formed reply line terminates its reply.
pub open spec fn line_is_final(l: Seq<char>) -> bool {
    l.len() == 3 || l[3] == ' '
}

/// A full reply frame: at least one line, all well-formed with one shared
/// code, every line but the last a continuation, and the last line final.
pub open spec fn reply_frame_ok(lines: Seq<Seq<char>>) -> bool {
    &&& lines.len() > 0
    &&& forall|i: int|
        0 <= i < lines.len() ==> reply_line_wf(#[trigger] lines[i]) && line_code(lines[i])
            == line_code(lines[0])
    &&& forall|i: int| 0 <= i < lines.len() - 1 ==> !line_is_final(#[trigger] lines[i])
    &&& line_is_final(lines.last())
}

/// One parsed SMTP reply: the shared code and the raw lines, each kept
/// without its CRLF terminator.
pub struct SmtpReply {
    pub code: u16,
    pub lines: Vec<String>,
}

impl SmtpReply {
    /// A parsed reply is valid when its lines form a reply frame for its code.
    pub open spec fn wf(&self) -> bool {
        &&& reply_frame_ok(self.lines.deep_view())
        &&& line_code(self.lines.deep_view()[0]) == self.code as int
    }

    /// The code class: 2 for 2xx, 3 for 3xx, and so on.
    pub fn code_class(&self) -> (r: u16)
        ensures
            r == self.code / 100,
    {
        self.code / 100
    }
}

/// The wire image of a run of reply lines: each line followed by CRLF.
pub open spec fn lines_wire(lines: Seq<Seq<char>>) -> Seq<char>
    decreases lines.len(),
{
    if lines.len() == 0 {
        Seq::empty()
    } else {
        lines_wire(lines.drop_last()) + lines.last() + "\r\n"@
    }
}

/// Framing faults the parser can report, mirroring the upstream diagnostics.
#[derive(Debug)]
pub enum FramingError {
    /// A line shorter than three characters or without a three-digit code.
    BadCodeLine { line: String },
    /// A line whose code differs from the code of the first line.
    CodeMismatch { expected: u16, got: u16 },
    /// A fourth character that is neither a space nor `-`.
    BadSeparator,
}

impl FramingError {
    /// The diagnostic text for this fault, as surfaced to the client.
    pub fn message(&self) -> (r: String)
        ensures
            self matches FramingError::BadCodeLine { line } ==> r@
                == "invalid SMTP reply line from upstream: "@ + line@,
            self matches FramingError::CodeMismatch { expected, got } ==> ((*expected <= 999
                && *got <= 999) ==> r@
                == "inconsistent SMTP reply code from upstream: expected "@ + code_digits(
                *expected as int,
            ) + ", got "@ + code_digits(*got as int)),
            (self is BadSeparator) ==> r@
                == "invalid SMTP multiline reply separator from upstream"@,
    {
        match self {
            FramingError::BadCodeLine { line } => {
                let mut out = String::new();
                out.append("invalid SMTP reply line from upstream: ");
                out.append(line.as_str());
                out
            },
            FramingError::CodeMismatch { expected, got } => {
                let mut out = String::new();
                out.append("inconsistent SMTP reply code from upstream: expected ");
                if *expected <= 999 {
                    let d = code_to_digits(*expected);
                    out.append(d.as_str());
                }
                out.append(", got ");
                if *got <= 999 {
                    let d = code_to_digits(*got);
                    out.append(d.as_str());
                }
                out
            },
            FramingError::BadSeparator => {
                let mut out = String::new();
                out.append("invalid SMTP multiline reply separator from upstream");
                out
            },
        }
    }
}

/// What one pushed line did to the parser.
pub enum ReplyProgress {
    /// The reply is not finished; more lines are needed.
    NeedMore,
    /// The pushed line terminated the reply.
    Done(SmtpReply),
}

/// Incremental parser for one (possibly multi-line) SMTP reply.
///
/// The embedding program reads one CRLF-stripped line at a time and pushes it
/// here until the parser reports `Done` or an error.
pub struct ReplyParser {
    pub code: u16,
    pub lines: Vec<String>,
}

impl ReplyParser {
    /// The lines accepted so far.
    pub open spec fn pending(&self) -> Seq<Seq<char>> {
        self.lines.deep_view()
    }

    /// Between pushes: every accepted line is a well-formed continuation line
    /// and all accepted lines share the stored code.
    pub open spec fn wf(&self) -> bool {
        &&& forall|i: int|
            0 <= i < self.pending().len() ==> reply_line_wf(#[trigger] self.pending()[i])
                && !line_is_final(self.pending()[i]) && line_code(self.pending()[i])
                == self.code as int
        &&& 0 <= self.code <= 999
    }

    /// A fresh parser with no pending lines.
    pub fn new() -> (r: ReplyParser)
        ensures
            r.wf(),
            r.pending() == Seq::<Seq<char>>::empty(),
    {
        let r = ReplyParser { code: 0, lines: Vec::new() };
        proof {
            assert(r.pending() =~= Seq::<Seq<char>>::empty());
        }
        r
    }

    /// Consumes one CRLF-stripped line.
    ///
    /// On `Done(reply)` the accepted lines plus `line` form a reply frame and
    /// the parser is reset; on `NeedMore` the line is a well-formed
    /// continuation line with a matching code; on an error the line broke the
    /// framing rules and the parser's pending lines are unchanged.
    pub fn push_line(&mut self, line: String) -> (r: Result<ReplyProgress, FramingError>)
        requires
            old(self).wf(),
        ensures
            final(self).wf(),
            match r {
                Ok(ReplyProgress::Done(reply)) => {
                    &&& reply.wf()
                    &&& reply.lines.deep_view() == old(self).pending().push(line@)
                    &&& reply.code as int == line_code(reply.lines.deep_view()[0])
                    &&& reply_line_wf(line@)
                    &&& line_is_final(line@)
                    &&& (old(self).pending().len() > 0 ==> line_code(line@) == old(self).code as int)
                    &&& final(self).pending() == Seq::<Seq<char>>::empty()
                },
                Ok(ReplyProgress::NeedMore) => {
                    &&& reply_line_wf(line@)
                    &&& !line_is_final(line@)
                    &&& (old(self).pending().len() > 0 ==> line_code(line@) == old(self).code as int)
                    &&& final(self).pending() == old(self).pending().push(line@)
                    &&& final(self).code as int == line_code(line@)
                },
                Err(e) => {
                    &&& final(self).pending() == old(self).pending()
                    &&& ((e is BadCodeLine) <==> !(reply_line_wf(line@) || (line@.len() >= 3
                        && is_digit_char(line@[0]) && is_digit_char(line@[1]) && is_digit_char(
                        line@[2],
                    ))))
                    &&& (e is CodeMismatch ==> old(self).pending().len() > 0 && line_code(line@)
                        != old(self).code as int)
                    &&& (e is BadSeparator ==> !reply_line_wf(line@))
                    &&& !(reply_line_wf(line@) && (old(self).pending().len() == 0 || line_code(
                        line@,
                    ) == old(self).code as int))
                },
            },
    {
        let len = line.as_str().unicode_len();
        if len < 3 {
            return Err(FramingError::BadCodeLine { line });
        }
        let c0 = line.as_str().get_char(0);
        let c1 = line.as_str().get_char(1);
        let c2 = line.as_str().get_char(2);
        if !(('0' <= c0 && c0 <= '9') && ('0' <= c1 && c1 <= '9') && ('0' <= c2 && c2 <= '9')) {
            return Err(FramingError::BadCodeLine { line });
        }
        let code: u16 = ((c0 as u32 - 48) * 100 + (c1 as u32 - 48) * 10 + (c2 as u32 - 48)) as u16;
        assert(code as int == line_code(line@));
        if self.lines.len() > 0 && code != self.code {
            return Err(FramingError::CodeMismatch { expected: self.code, got: code });
        }
        let is_final = len == 3 || line.as_str().get_char(3) == ' ';
        if !is_final && line.as_str().get_char(3) != '-' {
            return Err(FramingError::BadSeparator);
        }
        self.code = code;
        if is_final {
            let mut lines: Vec<String> = Vec::new();
            core::mem::swap(&mut self.lines, &mut lines);
            lines.push(line);
            let reply = SmtpReply { code, lines };
            proof {
                assert(reply.lines.deep_view() =~= old(self).pending().push(line@));
                assert(self.pending() =~= Seq::<Seq<char>>::empty());
                assert(reply.wf());
            }
            Ok(ReplyProgress::Done(reply))
        } else {
            self.lines.push(line);
            proof {
                assert(self.pending() =~= old(self).pending().push(line@));
            }
            Ok(ReplyProgress::NeedMore)
        }
    }
}

/// Parses a complete run of lines as one SMTP reply.
///
/// Succeeds exactly on well-framed runs, and then returns the lines verbatim.
pub fn parse_reply_lines(lines: &Vec<String>) -> (r: Result<SmtpReply, FramingError>)
    ensures
        r matches Ok(reply) ==> {
            &&& reply.wf()
            &&& reply.lines.deep_view() == lines.deep_view()
            &&& reply_frame_ok(lines.deep_view())
        },
        reply_frame_ok(lines.deep_view()) ==> r is Ok,
{
    let ghost all = lines.deep_view();
    let mut parser = ReplyParser::new();
    let n = lines.len();
    let mut i: usize = 0;
    while i < n
        invariant
            parser.wf(),
            i <= n,
            n == lines.len(),
            all == lines.deep_view(),
            all.len() == n,
            parser.pending() == all.subrange(0, i as int),
            forall|j: int|
                0 <= j < i ==> reply_line_wf(#[trigger] all[j]) && !line_is_final(all[j]),
            forall|j: int| 0 <= j < i ==> line_code(#[trigger] all[j]) == line_code(all[0]),
            i > 0 ==> parser.code as int == line_code(all[0]),
        decreases n - i,
    {
        let line = lines[i].clone();
        assert(line@ == all[i as int]);
        match parser.push_line(line) {
            Ok(ReplyProgress::Done(reply)) => {
                if i + 1 < n {
                    // Lines after the terminating line cannot belong to this reply.
                    assert(!reply_frame_ok(all)) by {
                        assert(line_is_final(all[i as int]));
                    }
                    return Err(FramingError::BadSeparator);
                }
                proof {
                    assert(reply.lines.deep_view() =~= all);
                }
                return Ok(reply);
            },
            Ok(ReplyProgress::NeedMore) => {
                proof {
                    assert(parser.pending() =~= all.subrange(0, i + 1 as int));
                }
            },
            Err(e) => {
                proof {
                    if reply_frame_ok(all) {
                        assert(reply_line_wf(all[i as int]));
                        if i > 0 {
                            assert(line_code(all[i as int]) == line_code(all[0]));
                        }
                    }
                }
                return Err(e);
            },
        }
        i += 1;
    }
    // The run ended without a terminating line.
    proof {
        if reply_frame_ok(all) {
            assert(n > 0);
            assert(line_is_final(all[n - 1]));
        }
    }
    Err(FramingError::BadCodeLine { line: String::new() })
}

/// Framing round trip. `parse_reply_lines` returns, for any well-framed run
/// of lines, a reply holding exactly those lines; this law closes the loop:
/// writing any such reply back — each line followed by CRLF, as the reply
/// writer does — emits a wire image byte-identical to the parsed input, and
/// the reply's code is the code of its first line.
pub proof fn lemma_reply_round_trip(reply: SmtpReply, lines: Seq<Seq<char>>)
    requires
        reply.wf(),
        reply.lines.deep_view() == lines,
    ensures
        lines_wire(reply.lines.deep_view()) == lines_wire(lines),
        reply_frame_ok(lines),
        line_code(lines[0]) == reply.code as int,
{
}

} // verus!
