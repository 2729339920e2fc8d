//! The event and action vocabulary between a session core and its driver.
//!
//! A session core never touches a socket. The driver (the embedding program,
//! or a test) reads and writes; after each event it hands the core, the core
//! answers with the one action the driver must perform next.

use vstd::prelude::*;

use crate::mx::{MxCandidate, MxResolutionError};
use crate::reply::SmtpReply;

verus! {

/// How the reply to a command forwarded upstream is treated.
#[derive(Clone, Copy, Debug, PartialEq, Eq, Structural)]
pub enum CmdKind {
    /// Forward the upstream reply to the client verbatim.
    Plain,
    /// Forward the reply, then end the session.
    Quit,
    /// A DATA command: a 3xx reply opens the body stream.
    Data,
}

/// What the driver observed and hands to the session core.
pub enum SessionEvent {
    /// One raw line read from the client, terminator included.
    ClientLine(String),
    /// The client closed its connection.
    ClientClosed,
    /// An upstream connection attempt succeeded.
    ConnectOk,
    /// An upstream connection attempt failed, with the I/O error text.
    ConnectFailed(String),
    /// One full reply parsed from the upstream.
    UpstreamReply(SmtpReply),
    /// Reading or writing the upstream failed: the framing or I/O error text.
    UpstreamFailed(String),
    /// The TLS handshake succeeded.
    TlsOk,
    /// The TLS handshake failed, with the reason.
    TlsFailed(String),
    /// The MX resolver answered for the domain the core asked about.
    MxResolved(Result<Vec<MxCandidate>, MxResolutionError>),
}

/// What the driver must do next.
pub enum SessionAction {
    /// Read the next client line; feed `ClientLine` or `ClientClosed`.
    AwaitClientLine,
    /// Write these lines (each with CRLF) to the client, then read the next
    /// client line.
    Reply { lines: Vec<String> },
    /// Write these lines to the client, then end the session.
    ReplyAndClose { lines: Vec<String> },
    /// End the session without writing.
    CloseSession,
    /// Connect to the upstream at `address`; feed `ConnectOk` or
    /// `ConnectFailed`.
    ConnectUpstream { address: String },
    /// Write `line` (plus CRLF) to the upstream, then read one upstream
    /// reply; feed `UpstreamReply` or `UpstreamFailed`.
    SendUpstream { line: String },
    /// Read one upstream reply; feed `UpstreamReply` or `UpstreamFailed`.
    AwaitUpstreamReply,
    /// Write this raw DATA line to the upstream verbatim, then read the next
    /// client line.
    ForwardData { line: String },
    /// Write this raw terminator line to the upstream verbatim, then read
    /// the upstream's final reply.
    ForwardDataEnd { line: String },
    /// Write these lines to the client, then run the TLS handshake on the
    /// client connection; feed `TlsOk` or `TlsFailed`.
    ReplyThenTls { lines: Vec<String> },
    /// Run the TLS handshake on the upstream connection; feed `TlsOk` or
    /// `TlsFailed`.
    StartTlsUpgrade,
    /// Ask the MX resolver for `domain`; feed `MxResolved`.
    ResolveMx { domain: String },
}

/// Whether an action moves bytes toward the upstream.
pub open spec fn forwards_upstream(a: SessionAction) -> bool {
    ||| a is SendUpstream
    ||| a is ForwardData
    ||| a is ForwardDataEnd
}

/// `a` writes exactly `lines` to the client and stays in the session.
pub open spec fn is_reply(a: SessionAction, lines: Seq<Seq<char>>) -> bool {
    a matches SessionAction::Reply { lines: l } && l.deep_view() == lines
}

/// `a` writes the one line `line` to the client and stays in the session.
pub open spec fn is_reply1(a: SessionAction, line: Seq<char>) -> bool {
    is_reply(a, seq![line])
}

/// `a` writes exactly `lines` to the client and ends the session.
pub open spec fn is_reply_close(a: SessionAction, lines: Seq<Seq<char>>) -> bool {
    a matches SessionAction::ReplyAndClose { lines: l } && l.deep_view() == lines
}

/// `a` writes the one line `line` to the client and ends the session.
pub open spec fn is_reply_close1(a: SessionAction, line: Seq<char>) -> bool {
    is_reply_close(a, seq![line])
}

/// `a` sends `line` to the upstream and awaits its reply.
pub open spec fn is_send_upstream(a: SessionAction, line: Seq<char>) -> bool {
    a matches SessionAction::SendUpstream { line: l } && l@ == line
}

/// `a` dials the upstream at `address`.
pub open spec fn is_connect(a: SessionAction, address: Seq<char>) -> bool {
    a matches SessionAction::ConnectUpstream { address: ad } && ad@ == address
}

/// `a` forwards the raw DATA line `line` upstream and reads on from the client.
pub open spec fn is_forward_data(a: SessionAction, line: Seq<char>) -> bool {
    a matches SessionAction::ForwardData { line: l } && l@ == line
}

/// `a` forwards the raw terminator `line` upstream and awaits the final reply.
pub open spec fn is_forward_data_end(a: SessionAction, line: Seq<char>) -> bool {
    a matches SessionAction::ForwardDataEnd { line: l } && l@ == line
}

/// `a` writes the one line `line`, then runs the client-side TLS handshake.
pub open spec fn is_reply_then_tls1(a: SessionAction, line: Seq<char>) -> bool {
    a matches SessionAction::ReplyThenTls { lines: l } && l.deep_view() == seq![line]
}

/// `a` asks the resolver about `domain`.
pub open spec fn is_resolve(a: SessionAction, domain: Seq<char>) -> bool {
    a matches SessionAction::ResolveMx { domain: d } && d@ == domain
}

/// An action that writes the one literal line `text` to the client.
pub fn reply_lit(text: &str) -> (a: SessionAction)
    ensures
        is_reply1(a, text@),
{
    let mut lines: Vec<String> = Vec::new();
    lines.push(String::from_str(text));
    proof {
        assert(lines.deep_view() =~= seq![text@]);
    }
    SessionAction::Reply { lines }
}

/// An action that writes one line made of `prefix` followed by `rest`.
pub fn reply_cat2(prefix: &str, rest: &str) -> (a: SessionAction)
    ensures
        is_reply1(a, prefix@ + rest@),
{
    let mut line = String::from_str(prefix);
    line.append(rest);
    let mut lines: Vec<String> = Vec::new();
    lines.push(line);
    proof {
        assert(lines.deep_view() =~= seq![prefix@ + rest@]);
    }
    SessionAction::Reply { lines }
}

/// An action that writes the one literal line `text` and closes the session.
pub fn reply_close_lit(text: &str) -> (a: SessionAction)
    ensures
        is_reply_close1(a, text@),
{
    let mut lines: Vec<String> = Vec::new();
    lines.push(String::from_str(text));
    proof {
        assert(lines.deep_view() =~= seq![text@]);
    }
    SessionAction::ReplyAndClose { lines }
}

/// An action that relays a parsed upstream reply to the client verbatim.
pub fn reply_forward(reply: SmtpReply) -> (a: SessionAction)
    ensures
        is_reply(a, reply.lines.deep_view()),
{
    SessionAction::Reply { lines: reply.lines }
}

/// An action that relays a parsed upstream reply and closes the session.
pub fn reply_forward_close(reply: SmtpReply) -> (a: SessionAction)
    ensures
        is_reply_close(a, reply.lines.deep_view()),
{
    SessionAction::ReplyAndClose { lines: reply.lines }
}

} // verus!
