//! The inbound session orchestrator.
//!
//! An inbound session accepts mail from an external sender, optionally
//! upgrades the connection with STARTTLS, and relays commands and the DATA
//! body to a configured local MTA. The orchestrator here is a state machine
//! over [`SessionEvent`]s: the embedding program performs the socket reads,
//! writes, connects and TLS handshakes that each returned [`SessionAction`]
//! asks for, and feeds the outcome back in. Every protocol decision — reply
//! text, ordering rules, the TLS policy gate, line-length enforcement and the
//! telemetry counters — is made, and verified, here.

use vstd::prelude::*;

use crate::command::{argument_of, split_command, trim_crlf, trim_crlf_seq, verb_of, wire_len, line_byte_len, is_data_terminator, is_term_line};
use crate::config::ConfigError;
use crate::reply::SmtpReply;
use crate::session::{CmdKind, SessionAction, SessionEvent};
use crate::text::{is_blank_seq, is_blank};

verus! {

/// Default bound on one protocol line, in bytes, terminator included.
pub const DEFAULT_MAX_LINE_LEN: usize = 4096;

/// TLS stance of the inbound listener toward its clients.
#[derive(Clone, Copy, Debug, PartialEq, Eq, Structural)]
pub enum InboundTlsPolicy {
    /// Offer STARTTLS but accept mail over plaintext too.
    Opportunistic,
    /// Reject MAIL, RCPT and DATA until the session is TLS-protected.
    RequireTls,
}

/// Configuration of the inbound listener.
///
/// Addresses are carried as `host:port` text; the embedding program parses
/// and dials them.
pub struct ListenerConfig {
    /// The address the listener binds.
    pub bind_addr: String,
    /// The host name announced in the banner and used for upstream EHLO.
    pub banner_host: String,
    /// Whether EHLO advertises STARTTLS.
    pub advertise_starttls: bool,
    /// The TLS policy enforced toward clients.
    pub inbound_tls_policy: InboundTlsPolicy,
    /// Bound on one line in bytes, terminator included; at least 512.
    pub max_line_len: usize,
    /// The local MTA to relay to, if any.
    pub postfix_upstream_addr: Option<String>,
}

/// What a valid inbound configuration looks like.
pub open spec fn inbound_config_ok(c: ListenerConfig) -> bool {
    &&& !is_blank_seq(c.banner_host@)
    &&& c.max_line_len >= 512
    &&& !(c.postfix_upstream_addr matches Some(u) && u@ == c.bind_addr@)
    &&& !(c.inbound_tls_policy is RequireTls && !c.advertise_starttls)
}

/// The message reported for an invalid inbound configuration: that of the
/// first violated rule, in the order the rules are checked.
pub open spec fn inbound_config_error_text(c: ListenerConfig) -> Seq<char> {
    if is_blank_seq(c.banner_host@) {
        "banner_host must not be empty"@
    } else if c.max_line_len < 512 {
        "max_line_len must be at least 512 bytes"@
    } else if c.postfix_upstream_addr matches Some(u) && u@ == c.bind_addr@ {
        "postfix_upstream_addr must not equal bind_addr"@
    } else {
        "inbound_tls_policy=require-tls requires advertise_starttls=true"@
    }
}

impl ListenerConfig {
    /// Checks the configuration, reporting the first violated rule.
    pub fn validate(&self) -> (r: Result<(), ConfigError>)
        ensures
            r is Ok <==> inbound_config_ok(*self),
            r matches Err(e) ==> e.message@ == inbound_config_error_text(*self),
    {
        if is_blank(self.banner_host.as_str()) {
            return Err(ConfigError::new("banner_host must not be empty"));
        }
        if self.max_line_len < 512 {
            return Err(ConfigError::new("max_line_len must be at least 512 bytes"));
        }
        match &self.postfix_upstream_addr {
            Some(upstream) => {
                if crate::text::str_eq(upstream.as_str(), self.bind_addr.as_str()) {
                    return Err(ConfigError::new("postfix_upstream_addr must not equal bind_addr"));
                }
            },
            None => {},
        }
        match self.inbound_tls_policy {
            InboundTlsPolicy::RequireTls => {
                if !self.advertise_starttls {
                    return Err(
                        ConfigError::new(
                            "inbound_tls_policy=require-tls requires advertise_starttls=true",
                        ),
                    );
                }
            },
            InboundTlsPolicy::Opportunistic => {},
        }
        Ok(())
    }
}

impl Clone for ListenerConfig {
    /// An exact copy of the configuration.
    fn clone(&self) -> (r: ListenerConfig)
        ensures
            r == *self,
    {
        ListenerConfig {
            bind_addr: self.bind_addr.clone(),
            banner_host: self.banner_host.clone(),
            advertise_starttls: self.advertise_starttls,
            inbound_tls_policy: self.inbound_tls_policy,
            max_line_len: self.max_line_len,
            postfix_upstream_addr: match &self.postfix_upstream_addr {
                Some(u) => Some(u.clone()),
                None => None,
            },
        }
    }
}

impl Default for ListenerConfig {
    /// A local loopback listener with STARTTLS offered opportunistically.
    fn default() -> (r: ListenerConfig)
        ensures
            r.bind_addr@ == "127.0.0.1:2525"@,
            r.banner_host@ == "localhost"@,
            r.advertise_starttls,
            r.inbound_tls_policy is Opportunistic,
            r.max_line_len == DEFAULT_MAX_LINE_LEN,
            r.postfix_upstream_addr is None,
    {
        ListenerConfig {
            bind_addr: String::from_str("127.0.0.1:2525"),
            banner_host: String::from_str("localhost"),
            advertise_starttls: true,
            inbound_tls_policy: InboundTlsPolicy::Opportunistic,
            max_line_len: DEFAULT_MAX_LINE_LEN,
            postfix_upstream_addr: None,
        }
    }
}

/// A failed TLS upgrade; always a temporary condition.
pub enum TlsUpgradeError {
    Temporary(String),
}

impl TlsUpgradeError {
    /// The human-readable reason carried by the error.
    pub fn message(&self) -> (r: String)
        ensures
            self matches TlsUpgradeError::Temporary(m) ==> r@ == m@,
    {
        match self {
            TlsUpgradeError::Temporary(m) => m.clone(),
        }
    }
}

/// A TLS upgrader that does nothing and reports success; for tests and for
/// deployments that terminate TLS elsewhere.
#[derive(Clone, Copy, Debug, Default)]
pub struct NoopTlsUpgrader;

/// TLS-related telemetry of one inbound session.
#[derive(Clone, Copy, Debug, PartialEq, Eq, Structural, Default)]
pub struct InboundTelemetry {
    /// STARTTLS commands that were accepted and reached the handshake.
    pub starttls_attempts: usize,
    /// Handshakes that failed after STARTTLS was accepted.
    pub tls_upgrade_failures: usize,
    /// MAIL, RCPT or DATA commands rejected under RequireTls without TLS.
    pub require_tls_rejections: usize,
}

/// What one inbound session did, returned when it ends.
#[derive(Clone, Copy, Debug, PartialEq, Eq, Structural)]
pub struct SessionSummary {
    /// Non-empty commands received from the client.
    pub command_count: usize,
    /// Protocol violations answered with an error reply.
    pub protocol_errors: usize,
    /// Whether the session upgraded to TLS.
    pub tls_negotiated: bool,
    /// The policy the listener was running under.
    pub inbound_tls_policy: InboundTlsPolicy,
    /// TLS counters.
    pub telemetry: InboundTelemetry,
}

} // verus!

verus! {

/// Where an inbound session stands between events.
pub enum InboundMode {
    /// Awaiting the next client command line.
    Command,
    /// STARTTLS accepted; awaiting the handshake outcome.
    TlsHandshake,
    /// Dialing the upstream; the triggering command waits in `pending`.
    Connecting { pending: String, kind: CmdKind },
    /// Connected; awaiting the upstream banner.
    AwaitBanner { pending: String, kind: CmdKind },
    /// Banner accepted and EHLO sent; awaiting the upstream EHLO reply.
    AwaitHello { pending: String, kind: CmdKind },
    /// A command was forwarded; awaiting the upstream reply.
    AwaitCmdReply { kind: CmdKind },
    /// Relaying DATA body lines from the client to the upstream.
    Streaming,
    /// The body terminator went upstream; awaiting the final reply.
    AwaitDataFinal,
    /// Consuming a DATA body locally (no upstream configured).
    Consuming,
    /// The session has ended.
    Closed,
}

/// The inbound session state machine.
pub struct InboundSessionCore {
    /// The listener configuration this session runs under.
    pub config: ListenerConfig,
    /// Whether the session upgraded to TLS; never cleared once set.
    pub tls_active: bool,
    /// Whether a greeting was seen since session start or the last upgrade.
    pub ehlo_seen: bool,
    /// Non-empty commands received.
    pub command_count: usize,
    /// Protocol violations answered with an error reply.
    pub protocol_errors: usize,
    /// STARTTLS commands that reached the handshake.
    pub starttls_attempts: usize,
    /// Handshakes that failed after STARTTLS was accepted.
    pub tls_upgrade_failures: usize,
    /// Commands rejected under RequireTls without TLS.
    pub require_tls_rejections: usize,
    /// Whether an upstream relay connection is established.
    pub relay_live: bool,
    /// The phase of the session.
    pub mode: InboundMode,
}

/// The command line carried by a raw client line: the line without CRLF.
pub open spec fn cmd_of(l: Seq<char>) -> Seq<char> {
    trim_crlf_seq(l)
}

/// The peer name echoed in the EHLO greeting.
pub open spec fn ehlo_target(arg: Seq<char>) -> Seq<char> {
    if arg.len() == 0 {
        "client"@
    } else {
        arg
    }
}

/// The greeting line of the EHLO reply.
pub open spec fn ehlo_greet_line(banner: Seq<char>, target: Seq<char>) -> Seq<char> {
    "250-"@ + banner + " greets "@ + target
}

/// The full EHLO reply: greeting, STARTTLS when offered, and the SIZE
/// terminator.
pub open spec fn ehlo_reply_lines(banner: Seq<char>, target: Seq<char>, starttls: bool) -> Seq<
    Seq<char>,
> {
    if starttls {
        seq![ehlo_greet_line(banner, target), "250-STARTTLS"@, "250 SIZE 10485760"@]
    } else {
        seq![ehlo_greet_line(banner, target), "250 SIZE 10485760"@]
    }
}

/// The 503 reply for MAIL, RCPT or DATA before a greeting.
pub open spec fn ehlo_required_line(tls: bool) -> Seq<char> {
    if tls {
        "503 5.5.1 Send EHLO after STARTTLS"@
    } else {
        "503 5.5.1 Send EHLO before MAIL"@
    }
}

/// The 451 reply when the upstream relay cannot be used.
pub open spec fn relay_unavailable_line(msg: Seq<char>) -> Seq<char> {
    "451 4.4.0 Postfix relay unavailable: "@ + msg
}

/// The 451 reply when the DATA relay toward the upstream fails.
pub open spec fn data_failure_line(msg: Seq<char>) -> Seq<char> {
    "451 4.3.0 DATA relay failure: "@ + msg
}

/// The 451 reply when reading a locally-consumed DATA body fails.
pub open spec fn data_read_failure_line(msg: Seq<char>) -> Seq<char> {
    "451 4.3.0 DATA read failure: "@ + msg
}

/// The 454 reply after a failed TLS handshake.
pub open spec fn tls_unavailable_line(msg: Seq<char>) -> Seq<char> {
    "454 4.7.0 TLS not available due to temporary reason: "@ + msg
}

/// The diagnostic for an upstream banner outside the 2xx class.
pub open spec fn banner_err_text(code: int, lines: Seq<Seq<char>>) -> Seq<char> {
    "upstream Postfix banner was non-2xx ("@ + crate::text::code_digits(code) + "): "@
        + crate::text::join_pipe_seq(lines)
}

/// The diagnostic for an upstream EHLO reply outside the 2xx class.
pub open spec fn hello_err_text(code: int, lines: Seq<Seq<char>>) -> Seq<char> {
    "upstream Postfix EHLO was non-2xx ("@ + crate::text::code_digits(code) + "): "@
        + crate::text::join_pipe_seq(lines)
}

/// `s` with one more protocol error.
pub open spec fn note_protocol_error(s: InboundSessionCore) -> InboundSessionCore {
    InboundSessionCore { protocol_errors: (s.protocol_errors + 1) as usize, ..s }
}

/// `s` with one more counted command.
pub open spec fn note_command(s: InboundSessionCore) -> InboundSessionCore {
    InboundSessionCore { command_count: (s.command_count + 1) as usize, ..s }
}

/// `s` with one more RequireTls rejection.
pub open spec fn note_require_tls_rejection(s: InboundSessionCore) -> InboundSessionCore {
    InboundSessionCore { require_tls_rejections: (s.require_tls_rejections + 1) as usize, ..s }
}

/// `s` with one more STARTTLS attempt.
pub open spec fn note_starttls_attempt(s: InboundSessionCore) -> InboundSessionCore {
    InboundSessionCore { starttls_attempts: (s.starttls_attempts + 1) as usize, ..s }
}

/// `s` with one more failed TLS upgrade, counted as a protocol error too.
pub open spec fn note_tls_failure(s: InboundSessionCore) -> InboundSessionCore {
    InboundSessionCore {
        tls_upgrade_failures: (s.tls_upgrade_failures + 1) as usize,
        protocol_errors: (s.protocol_errors + 1) as usize,
        ..s
    }
}

/// `s` in mode `m`.
pub open spec fn with_mode(s: InboundSessionCore, m: InboundMode) -> InboundSessionCore {
    InboundSessionCore { mode: m, ..s }
}

/// `s` with the relay connection gone.
pub open spec fn drop_relay(s: InboundSessionCore) -> InboundSessionCore {
    InboundSessionCore { relay_live: false, ..s }
}

/// Whether `a` and `b` agree on everything but the mode.
pub open spec fn same_except_mode(a: InboundSessionCore, b: InboundSessionCore) -> bool {
    &&& a.config == b.config
    &&& a.tls_active == b.tls_active
    &&& a.ehlo_seen == b.ehlo_seen
    &&& a.command_count == b.command_count
    &&& a.protocol_errors == b.protocol_errors
    &&& a.starttls_attempts == b.starttls_attempts
    &&& a.tls_upgrade_failures == b.tls_upgrade_failures
    &&& a.require_tls_rejections == b.require_tls_rejections
    &&& a.relay_live == b.relay_live
}

/// The transition for a STARTTLS command (already counted in `s1`).
pub open spec fn starttls_post(
    s1: InboundSessionCore,
    post: InboundSessionCore,
    a: SessionAction,
) -> bool {
    if !s1.config.advertise_starttls {
        post == note_protocol_error(s1) && crate::session::is_reply1(
            a,
            "502 5.5.1 STARTTLS not supported"@,
        )
    } else if s1.tls_active {
        post == note_protocol_error(s1) && crate::session::is_reply1(
            a,
            "503 5.5.1 TLS already active"@,
        )
    } else if !s1.ehlo_seen {
        post == note_protocol_error(s1) && crate::session::is_reply1(
            a,
            "503 5.5.1 Send EHLO before STARTTLS"@,
        )
    } else {
        post == with_mode(note_starttls_attempt(s1), InboundMode::TlsHandshake)
            && crate::session::is_reply_then_tls1(a, "220 Ready to start TLS"@)
    }
}

/// The transition for MAIL, RCPT or DATA (already counted in `s1`).
pub open spec fn mail_rcpt_data_post(
    s1: InboundSessionCore,
    v: Seq<char>,
    c: Seq<char>,
    post: InboundSessionCore,
    a: SessionAction,
) -> bool {
    if s1.config.inbound_tls_policy is RequireTls && !s1.tls_active {
        post == note_require_tls_rejection(s1) && crate::session::is_reply1(
            a,
            "530 5.7.0 Must issue STARTTLS first"@,
        )
    } else if !s1.ehlo_seen {
        post == note_protocol_error(s1) && crate::session::is_reply1(
            a,
            ehlo_required_line(s1.tls_active),
        )
    } else {
        let kind = if v == "DATA"@ {
            CmdKind::Data
        } else {
            CmdKind::Plain
        };
        match s1.config.postfix_upstream_addr {
            Some(addr) => if s1.relay_live {
                same_except_mode(post, s1) && (post.mode matches InboundMode::AwaitCmdReply {
                    kind: k,
                } && k == kind) && crate::session::is_send_upstream(a, c)
            } else {
                same_except_mode(post, s1) && (post.mode matches InboundMode::Connecting {
                    pending,
                    kind: k,
                } && pending@ == c && k == kind) && crate::session::is_connect(a, addr@)
            },
            None => if v == "MAIL"@ {
                post == s1 && crate::session::is_reply1(a, "250 2.1.0 Sender OK"@)
            } else if v == "RCPT"@ {
                post == s1 && crate::session::is_reply1(a, "250 2.1.5 Recipient OK"@)
            } else {
                post == with_mode(s1, InboundMode::Consuming) && crate::session::is_reply1(
                    a,
                    "354 End data with <CR><LF>.<CR><LF>"@,
                )
            },
        }
    }
}

/// The transition for RSET or NOOP (already counted in `s1`).
pub open spec fn forward_or_local_post(
    s1: InboundSessionCore,
    c: Seq<char>,
    local: Seq<char>,
    post: InboundSessionCore,
    a: SessionAction,
) -> bool {
    if s1.relay_live {
        same_except_mode(post, s1) && (post.mode matches InboundMode::AwaitCmdReply { kind }
            && kind is Plain) && crate::session::is_send_upstream(a, c)
    } else {
        post == s1 && crate::session::is_reply1(a, local)
    }
}

/// The transition for QUIT (already counted in `s1`).
pub open spec fn quit_post(
    s1: InboundSessionCore,
    c: Seq<char>,
    post: InboundSessionCore,
    a: SessionAction,
) -> bool {
    if s1.relay_live {
        same_except_mode(post, s1) && (post.mode matches InboundMode::AwaitCmdReply { kind }
            && kind is Quit) && crate::session::is_send_upstream(a, c)
    } else {
        post == with_mode(s1, InboundMode::Closed) && crate::session::is_reply_close1(
            a,
            "221 2.0.0 Bye"@,
        )
    }
}

/// The greeting and STARTTLS verbs differ from the gated mail verbs, so
/// the RequireTls gate can be decided branch by branch.
proof fn lemma_verbs_distinct()
    ensures
        "EHLO"@ != "MAIL"@,
        "EHLO"@ != "RCPT"@,
        "EHLO"@ != "DATA"@,
        "HELO"@ != "MAIL"@,
        "HELO"@ != "RCPT"@,
        "HELO"@ != "DATA"@,
        "STARTTLS"@ != "MAIL"@,
        "STARTTLS"@ != "RCPT"@,
        "STARTTLS"@ != "DATA"@,
{
    reveal_strlit("EHLO");
    reveal_strlit("HELO");
    reveal_strlit("STARTTLS");
    reveal_strlit("MAIL");
    reveal_strlit("RCPT");
    reveal_strlit("DATA");
    assert("EHLO"@[0] == 'E' && "HELO"@[0] == 'H' && "STARTTLS"@[0] == 'S');
    assert("MAIL"@[0] == 'M' && "RCPT"@[0] == 'R' && "DATA"@[0] == 'D');
}

/// The RequireTls gate: a MAIL, RCPT or DATA command arriving in command
/// mode over plaintext while the listener requires TLS.
pub open spec fn require_tls_gate(pre: InboundSessionCore, l: Seq<char>) -> bool {
    let c = cmd_of(l);
    let v = verb_of(c);
    &&& pre.mode is Command
    &&& wire_len(l) <= pre.config.max_line_len
    &&& c.len() > 0
    &&& (v == "MAIL"@ || v == "RCPT"@ || v == "DATA"@)
    &&& pre.config.inbound_tls_policy is RequireTls
    &&& !pre.tls_active
}

/// The transition for one raw client line in command mode.
pub open spec fn command_post(
    pre: InboundSessionCore,
    l: Seq<char>,
    post: InboundSessionCore,
    a: SessionAction,
) -> bool {
    let c = cmd_of(l);
    let v = verb_of(c);
    let arg = argument_of(c);
    if wire_len(l) > pre.config.max_line_len {
        post == note_protocol_error(pre) && crate::session::is_reply1(
            a,
            "500 5.5.2 Line too long"@,
        )
    } else if c.len() == 0 {
        post == note_protocol_error(pre) && crate::session::is_reply1(a, "500 5.5.2 Empty command"@)
    } else {
        let s1 = note_command(pre);
        if v == "EHLO"@ || v == "HELO"@ {
            post == (InboundSessionCore { ehlo_seen: true, ..s1 }) && crate::session::is_reply(
                a,
                ehlo_reply_lines(
                    pre.config.banner_host@,
                    ehlo_target(arg),
                    pre.config.advertise_starttls && !pre.tls_active,
                ),
            )
        } else if v == "STARTTLS"@ {
            starttls_post(s1, post, a)
        } else if v == "MAIL"@ || v == "RCPT"@ || v == "DATA"@ {
            mail_rcpt_data_post(s1, v, c, post, a)
        } else if v == "RSET"@ {
            forward_or_local_post(s1, c, "250 2.0.0 Reset state"@, post, a)
        } else if v == "NOOP"@ {
            forward_or_local_post(s1, c, "250 2.0.0 OK"@, post, a)
        } else if v == "QUIT"@ {
            quit_post(s1, c, post, a)
        } else {
            post == note_protocol_error(s1) && crate::session::is_reply1(
                a,
                "502 5.5.1 Command not implemented"@,
            )
        }
    }
}

/// The full transition relation of the inbound session core.
pub open spec fn inbound_step_post(
    pre: InboundSessionCore,
    ev: SessionEvent,
    post: InboundSessionCore,
    a: SessionAction,
) -> bool {
    match pre.mode {
        InboundMode::Command => match ev {
            SessionEvent::ClientClosed => post == with_mode(pre, InboundMode::Closed) && a
                is CloseSession,
            SessionEvent::ClientLine(l) => command_post(pre, l@, post, a),
            _ => false,
        },
        InboundMode::TlsHandshake => match ev {
            SessionEvent::TlsOk => post == (InboundSessionCore {
                tls_active: true,
                ehlo_seen: false,
                relay_live: false,
                mode: InboundMode::Command,
                ..pre
            }) && a is AwaitClientLine,
            SessionEvent::TlsFailed(m) => post == with_mode(note_tls_failure(pre), InboundMode::Command)
                && crate::session::is_reply1(a, tls_unavailable_line(m@)),
            _ => false,
        },
        InboundMode::Connecting { pending, kind } => match ev {
            SessionEvent::ConnectOk => same_except_mode(post, pre) && (post.mode
                matches InboundMode::AwaitBanner { pending: p, kind: k } && p@ == pending@ && k
                == kind) && a is AwaitUpstreamReply,
            SessionEvent::ConnectFailed(m) => post == with_mode(
                drop_relay(note_protocol_error(pre)),
                InboundMode::Command,
            ) && crate::session::is_reply1(a, relay_unavailable_line(m@)),
            _ => false,
        },
        InboundMode::AwaitBanner { pending, kind } => match ev {
            SessionEvent::UpstreamReply(r) => if r.code / 100 == 2 {
                same_except_mode(post, pre) && (post.mode matches InboundMode::AwaitHello {
                    pending: p,
                    kind: k,
                } && p@ == pending@ && k == kind) && crate::session::is_send_upstream(
                    a,
                    "EHLO "@ + pre.config.banner_host@,
                )
            } else {
                post == with_mode(drop_relay(note_protocol_error(pre)), InboundMode::Command)
                    && crate::session::is_reply1(
                    a,
                    relay_unavailable_line(banner_err_text(r.code as int, r.lines.deep_view())),
                )
            },
            SessionEvent::UpstreamFailed(m) => post == with_mode(
                drop_relay(note_protocol_error(pre)),
                InboundMode::Command,
            ) && crate::session::is_reply1(a, relay_unavailable_line(m@)),
            _ => false,
        },
        InboundMode::AwaitHello { pending, kind } => match ev {
            SessionEvent::UpstreamReply(r) => if r.code / 100 == 2 {
                post == (InboundSessionCore {
                    relay_live: true,
                    mode: InboundMode::AwaitCmdReply { kind },
                    ..pre
                }) && crate::session::is_send_upstream(a, pending@)
            } else {
                post == with_mode(drop_relay(note_protocol_error(pre)), InboundMode::Command)
                    && crate::session::is_reply1(
                    a,
                    relay_unavailable_line(hello_err_text(r.code as int, r.lines.deep_view())),
                )
            },
            SessionEvent::UpstreamFailed(m) => post == with_mode(
                drop_relay(note_protocol_error(pre)),
                InboundMode::Command,
            ) && crate::session::is_reply1(a, relay_unavailable_line(m@)),
            _ => false,
        },
        InboundMode::AwaitCmdReply { kind } => match ev {
            SessionEvent::UpstreamReply(r) => match kind {
                CmdKind::Plain => post == with_mode(pre, InboundMode::Command)
                    && crate::session::is_reply(a, r.lines.deep_view()),
                CmdKind::Quit => post == with_mode(pre, InboundMode::Closed)
                    && crate::session::is_reply_close(a, r.lines.deep_view()),
                CmdKind::Data => if r.code / 100 == 3 {
                    post == with_mode(pre, InboundMode::Streaming) && crate::session::is_reply(
                        a,
                        r.lines.deep_view(),
                    )
                } else {
                    post == with_mode(pre, InboundMode::Command) && crate::session::is_reply(
                        a,
                        r.lines.deep_view(),
                    )
                },
            },
            SessionEvent::UpstreamFailed(m) => match kind {
                CmdKind::Quit => post == with_mode(pre, InboundMode::Closed)
                    && crate::session::is_reply_close1(a, "221 2.0.0 Bye"@),
                _ => post == with_mode(drop_relay(note_protocol_error(pre)), InboundMode::Command)
                    && crate::session::is_reply1(a, relay_unavailable_line(m@)),
            },
            _ => false,
        },
        InboundMode::Streaming => match ev {
            SessionEvent::ClientLine(l) => if wire_len(l@) > pre.config.max_line_len {
                post == with_mode(drop_relay(note_protocol_error(pre)), InboundMode::Command)
                    && crate::session::is_reply1(
                    a,
                    data_failure_line("DATA line exceeds max_line_len during relay"@),
                )
            } else if is_term_line(l@) {
                post == with_mode(pre, InboundMode::AwaitDataFinal)
                    && crate::session::is_forward_data_end(a, l@)
            } else {
                post == pre && crate::session::is_forward_data(a, l@)
            },
            SessionEvent::ClientClosed => post == with_mode(
                drop_relay(note_protocol_error(pre)),
                InboundMode::Command,
            ) && crate::session::is_reply1(
                a,
                data_failure_line("connection closed during DATA relay"@),
            ),
            SessionEvent::UpstreamFailed(m) => post == with_mode(
                drop_relay(note_protocol_error(pre)),
                InboundMode::Command,
            ) && crate::session::is_reply1(a, data_failure_line(m@)),
            _ => false,
        },
        InboundMode::AwaitDataFinal => match ev {
            SessionEvent::UpstreamReply(r) => post == with_mode(pre, InboundMode::Command)
                && crate::session::is_reply(a, r.lines.deep_view()),
            SessionEvent::UpstreamFailed(m) => post == with_mode(
                drop_relay(note_protocol_error(pre)),
                InboundMode::Command,
            ) && crate::session::is_reply1(a, data_failure_line(m@)),
            _ => false,
        },
        InboundMode::Consuming => match ev {
            SessionEvent::ClientLine(l) => if wire_len(l@) > pre.config.max_line_len {
                post == with_mode(note_protocol_error(pre), InboundMode::Command)
                    && crate::session::is_reply1(a, data_read_failure_line("DATA line too long"@))
            } else if is_term_line(l@) {
                post == with_mode(pre, InboundMode::Command) && crate::session::is_reply1(
                    a,
                    "250 2.0.0 Queued"@,
                )
            } else {
                post == pre && a is AwaitClientLine
            },
            SessionEvent::ClientClosed => post == with_mode(
                note_protocol_error(pre),
                InboundMode::Command,
            ) && crate::session::is_reply1(
                a,
                data_read_failure_line("connection closed during DATA"@),
            ),
            _ => false,
        },
        InboundMode::Closed => false,
    }
}

} // verus!

verus! {

impl InboundSessionCore {
    /// Which events the session can take next; the driver keeps to these.
    pub open spec fn expects(&self, ev: SessionEvent) -> bool {
        match self.mode {
            InboundMode::Command => ev is ClientLine || ev is ClientClosed,
            InboundMode::Consuming => ev is ClientLine || ev is ClientClosed,
            InboundMode::Streaming => ev is ClientLine || ev is ClientClosed || ev
                is UpstreamFailed,
            InboundMode::TlsHandshake => ev is TlsOk || ev is TlsFailed,
            InboundMode::Connecting { .. } => ev is ConnectOk || ev is ConnectFailed,
            InboundMode::AwaitBanner { .. } | InboundMode::AwaitHello { .. }
                | InboundMode::AwaitCmdReply { .. } | InboundMode::AwaitDataFinal => (ev
                matches SessionEvent::UpstreamReply(r) && r.wf()) || ev is UpstreamFailed,
            InboundMode::Closed => false,
        }
    }

    /// All counters have room for one more increment.
    pub open spec fn counters_ok(&self) -> bool {
        &&& self.command_count < usize::MAX
        &&& self.protocol_errors < usize::MAX
        &&& self.starttls_attempts < usize::MAX
        &&& self.tls_upgrade_failures < usize::MAX
        &&& self.require_tls_rejections < usize::MAX
    }

    /// A fresh session under `config`: plaintext, nothing seen, no relay.
    pub fn new(config: ListenerConfig) -> (r: InboundSessionCore)
        ensures
            r.config == config,
            !r.tls_active,
            !r.ehlo_seen,
            r.command_count == 0,
            r.protocol_errors == 0,
            r.starttls_attempts == 0,
            r.tls_upgrade_failures == 0,
            r.require_tls_rejections == 0,
            !r.relay_live,
            r.mode is Command,
    {
        InboundSessionCore {
            config,
            tls_active: false,
            ehlo_seen: false,
            command_count: 0,
            protocol_errors: 0,
            starttls_attempts: 0,
            tls_upgrade_failures: 0,
            require_tls_rejections: 0,
            relay_live: false,
            mode: InboundMode::Command,
        }
    }

    /// The banner the session opens with.
    pub fn banner_line(&self) -> (r: String)
        ensures
            r@ == "220 "@ + self.config.banner_host@ + " ESMTP VERZOLA"@,
    {
        let mut line = String::from_str("220 ");
        line.append(self.config.banner_host.as_str());
        line.append(" ESMTP VERZOLA");
        line
    }

    /// The session's telemetry, as reported when the session ends.
    pub fn summary(&self) -> (r: SessionSummary)
        ensures
            r == (SessionSummary {
                command_count: self.command_count,
                protocol_errors: self.protocol_errors,
                tls_negotiated: self.tls_active,
                inbound_tls_policy: self.config.inbound_tls_policy,
                telemetry: InboundTelemetry {
                    starttls_attempts: self.starttls_attempts,
                    tls_upgrade_failures: self.tls_upgrade_failures,
                    require_tls_rejections: self.require_tls_rejections,
                },
            }),
    {
        SessionSummary {
            command_count: self.command_count,
            protocol_errors: self.protocol_errors,
            tls_negotiated: self.tls_active,
            inbound_tls_policy: self.config.inbound_tls_policy,
            telemetry: InboundTelemetry {
                starttls_attempts: self.starttls_attempts,
                tls_upgrade_failures: self.tls_upgrade_failures,
                require_tls_rejections: self.require_tls_rejections,
            },
        }
    }

    /// Takes one event and answers with the next action for the driver.
    ///
    /// The whole inbound protocol — reply text, ordering, TLS policy, line
    /// bounds, counters — is pinned by [`inbound_step_post`]. On top of it,
    /// the extra clauses state the session laws: `tls_active` only ever
    /// rises, `ehlo_seen` falls only on a successful STARTTLS upgrade, and
    /// an over-long client line is answered locally, with nothing forwarded
    /// upstream.
    pub fn step(&mut self, event: SessionEvent) -> (a: SessionAction)
        requires
            old(self).expects(event),
            old(self).counters_ok(),
        ensures
            inbound_step_post(*old(self), event, *final(self), a),
            final(self).config == old(self).config,
            old(self).tls_active ==> final(self).tls_active,
            final(self).tls_active != old(self).tls_active ==> old(self).mode is TlsHandshake
                && event is TlsOk,
            old(self).ehlo_seen && !final(self).ehlo_seen ==> old(self).mode is TlsHandshake
                && event is TlsOk,
            event matches SessionEvent::ClientLine(l) && wire_len(l@)
                > old(self).config.max_line_len ==> !crate::session::forwards_upstream(a) && (a
                is Reply),
            event matches SessionEvent::ClientLine(l) && require_tls_gate(*old(self), l@) ==> {
                &&& final(self).require_tls_rejections == old(self).require_tls_rejections + 1
                &&& crate::session::is_reply1(a, "530 5.7.0 Must issue STARTTLS first"@)
                &&& !crate::session::forwards_upstream(a)
            },
            final(self).command_count >= old(self).command_count,
            final(self).protocol_errors >= old(self).protocol_errors,
            final(self).require_tls_rejections >= old(self).require_tls_rejections,
    {
        let ghost pre = *old(self);
        let mut mode = InboundMode::Closed;
        core::mem::swap(&mut self.mode, &mut mode);
        match mode {
            InboundMode::Command => match event {
                SessionEvent::ClientClosed => {
                    self.mode = InboundMode::Closed;
                    SessionAction::CloseSession
                },
                SessionEvent::ClientLine(line) => self.handle_command_line(Ghost(pre), line),
                _ => {
                    proof {
                        assert(false);
                    }
                    SessionAction::CloseSession
                },
            },
            InboundMode::TlsHandshake => match event {
                SessionEvent::TlsOk => {
                    self.tls_active = true;
                    self.ehlo_seen = false;
                    self.relay_live = false;
                    self.mode = InboundMode::Command;
                    SessionAction::AwaitClientLine
                },
                SessionEvent::TlsFailed(m) => {
                    self.tls_upgrade_failures = self.tls_upgrade_failures + 1;
                    self.protocol_errors = self.protocol_errors + 1;
                    self.mode = InboundMode::Command;
                    crate::session::reply_cat2(
                        "454 4.7.0 TLS not available due to temporary reason: ",
                        m.as_str(),
                    )
                },
                _ => {
                    proof {
                        assert(false);
                    }
                    SessionAction::CloseSession
                },
            },
            InboundMode::Connecting { pending, kind } => match event {
                SessionEvent::ConnectOk => {
                    self.mode = InboundMode::AwaitBanner { pending, kind };
                    SessionAction::AwaitUpstreamReply
                },
                SessionEvent::ConnectFailed(m) => {
                    self.relay_live = false;
                    self.protocol_errors = self.protocol_errors + 1;
                    self.mode = InboundMode::Command;
                    crate::session::reply_cat2(
                        "451 4.4.0 Postfix relay unavailable: ",
                        m.as_str(),
                    )
                },
                _ => {
                    proof {
                        assert(false);
                    }
                    SessionAction::CloseSession
                },
            },
            InboundMode::AwaitBanner { pending, kind } => match event {
                SessionEvent::UpstreamReply(r) => {
                    if r.code / 100 == 2 {
                        self.mode = InboundMode::AwaitHello { pending, kind };
                        let mut hello = String::from_str("EHLO ");
                        hello.append(self.config.banner_host.as_str());
                        SessionAction::SendUpstream { line: hello }
                    } else {
                        self.relay_live = false;
                        self.protocol_errors = self.protocol_errors + 1;
                        self.mode = InboundMode::Command;
                        let mut msg = String::from_str("upstream Postfix banner was non-2xx (");
                        let digits = crate::text::code_to_digits(r.code);
                        msg.append(digits.as_str());
                        msg.append("): ");
                        let joined = crate::text::join_pipe(&r.lines);
                        msg.append(joined.as_str());
                        crate::session::reply_cat2(
                            "451 4.4.0 Postfix relay unavailable: ",
                            msg.as_str(),
                        )
                    }
                },
                SessionEvent::UpstreamFailed(m) => {
                    self.relay_live = false;
                    self.protocol_errors = self.protocol_errors + 1;
                    self.mode = InboundMode::Command;
                    crate::session::reply_cat2(
                        "451 4.4.0 Postfix relay unavailable: ",
                        m.as_str(),
                    )
                },
                _ => {
                    proof {
                        assert(false);
                    }
                    SessionAction::CloseSession
                },
            },
            InboundMode::AwaitHello { pending, kind } => match event {
                SessionEvent::UpstreamReply(r) => {
                    if r.code / 100 == 2 {
                        self.relay_live = true;
                        self.mode = InboundMode::AwaitCmdReply { kind };
                        SessionAction::SendUpstream { line: pending }
                    } else {
                        self.relay_live = false;
                        self.protocol_errors = self.protocol_errors + 1;
                        self.mode = InboundMode::Command;
                        let mut msg = String::from_str("upstream Postfix EHLO was non-2xx (");
                        let digits = crate::text::code_to_digits(r.code);
                        msg.append(digits.as_str());
                        msg.append("): ");
                        let joined = crate::text::join_pipe(&r.lines);
                        msg.append(joined.as_str());
                        crate::session::reply_cat2(
                            "451 4.4.0 Postfix relay unavailable: ",
                            msg.as_str(),
                        )
                    }
                },
                SessionEvent::UpstreamFailed(m) => {
                    self.relay_live = false;
                    self.protocol_errors = self.protocol_errors + 1;
                    self.mode = InboundMode::Command;
                    crate::session::reply_cat2(
                        "451 4.4.0 Postfix relay unavailable: ",
                        m.as_str(),
                    )
                },
                _ => {
                    proof {
                        assert(false);
                    }
                    SessionAction::CloseSession
                },
            },
            InboundMode::AwaitCmdReply { kind } => match event {
                SessionEvent::UpstreamReply(r) => match kind {
                    CmdKind::Plain => {
                        self.mode = InboundMode::Command;
                        crate::session::reply_forward(r)
                    },
                    CmdKind::Quit => {
                        self.mode = InboundMode::Closed;
                        crate::session::reply_forward_close(r)
                    },
                    CmdKind::Data => {
                        if r.code / 100 == 3 {
                            self.mode = InboundMode::Streaming;
                        } else {
                            self.mode = InboundMode::Command;
                        }
                        crate::session::reply_forward(r)
                    },
                },
                SessionEvent::UpstreamFailed(m) => match kind {
                    CmdKind::Quit => {
                        self.mode = InboundMode::Closed;
                        crate::session::reply_close_lit("221 2.0.0 Bye")
                    },
                    _ => {
                        self.relay_live = false;
                        self.protocol_errors = self.protocol_errors + 1;
                        self.mode = InboundMode::Command;
                        crate::session::reply_cat2(
                            "451 4.4.0 Postfix relay unavailable: ",
                            m.as_str(),
                        )
                    },
                },
                _ => {
                    proof {
                        assert(false);
                    }
                    SessionAction::CloseSession
                },
            },
            InboundMode::Streaming => match event {
                SessionEvent::ClientLine(line) => {
                    if line_byte_len(line.as_str()) > self.config.max_line_len {
                        self.relay_live = false;
                        self.protocol_errors = self.protocol_errors + 1;
                        self.mode = InboundMode::Command;
                        crate::session::reply_cat2(
                            "451 4.3.0 DATA relay failure: ",
                            "DATA line exceeds max_line_len during relay",
                        )
                    } else if is_data_terminator(line.as_str()) {
                        self.mode = InboundMode::AwaitDataFinal;
                        SessionAction::ForwardDataEnd { line }
                    } else {
                        self.mode = InboundMode::Streaming;
                        SessionAction::ForwardData { line }
                    }
                },
                SessionEvent::ClientClosed => {
                    self.relay_live = false;
                    self.protocol_errors = self.protocol_errors + 1;
                    self.mode = InboundMode::Command;
                    crate::session::reply_cat2(
                        "451 4.3.0 DATA relay failure: ",
                        "connection closed during DATA relay",
                    )
                },
                SessionEvent::UpstreamFailed(m) => {
                    self.relay_live = false;
                    self.protocol_errors = self.protocol_errors + 1;
                    self.mode = InboundMode::Command;
                    crate::session::reply_cat2("451 4.3.0 DATA relay failure: ", m.as_str())
                },
                _ => {
                    proof {
                        assert(false);
                    }
                    SessionAction::CloseSession
                },
            },
            InboundMode::AwaitDataFinal => match event {
                SessionEvent::UpstreamReply(r) => {
                    self.mode = InboundMode::Command;
                    crate::session::reply_forward(r)
                },
                SessionEvent::UpstreamFailed(m) => {
                    self.relay_live = false;
                    self.protocol_errors = self.protocol_errors + 1;
                    self.mode = InboundMode::Command;
                    crate::session::reply_cat2("451 4.3.0 DATA relay failure: ", m.as_str())
                },
                _ => {
                    proof {
                        assert(false);
                    }
                    SessionAction::CloseSession
                },
            },
            InboundMode::Consuming => match event {
                SessionEvent::ClientLine(line) => {
                    if line_byte_len(line.as_str()) > self.config.max_line_len {
                        self.protocol_errors = self.protocol_errors + 1;
                        self.mode = InboundMode::Command;
                        crate::session::reply_cat2(
                            "451 4.3.0 DATA read failure: ",
                            "DATA line too long",
                        )
                    } else if is_data_terminator(line.as_str()) {
                        self.mode = InboundMode::Command;
                        crate::session::reply_lit("250 2.0.0 Queued")
                    } else {
                        self.mode = InboundMode::Consuming;
                        SessionAction::AwaitClientLine
                    }
                },
                SessionEvent::ClientClosed => {
                    self.protocol_errors = self.protocol_errors + 1;
                    self.mode = InboundMode::Command;
                    crate::session::reply_cat2(
                        "451 4.3.0 DATA read failure: ",
                        "connection closed during DATA",
                    )
                },
                _ => {
                    proof {
                        assert(false);
                    }
                    SessionAction::CloseSession
                },
            },
            InboundMode::Closed => {
                proof {
                    assert(false);
                }
                SessionAction::CloseSession
            },
        }
    }

    /// Handles one raw client line in command mode.
    fn handle_command_line(&mut self, Ghost(pre): Ghost<InboundSessionCore>, line: String) -> (a:
        SessionAction)
        requires
            *old(self) == (InboundSessionCore { mode: InboundMode::Closed, ..pre }),
            pre.mode is Command,
            pre.counters_ok(),
        ensures
            command_post(pre, line@, *final(self), a),
            require_tls_gate(pre, line@) ==> {
                &&& final(self).require_tls_rejections == pre.require_tls_rejections + 1
                &&& crate::session::is_reply1(a, "530 5.7.0 Must issue STARTTLS first"@)
                &&& !crate::session::forwards_upstream(a)
            },
            final(self).config == pre.config,
            final(self).tls_active == pre.tls_active,
            final(self).ehlo_seen == pre.ehlo_seen || (final(self).ehlo_seen && !pre.ehlo_seen),
            wire_len(line@) > pre.config.max_line_len ==> !crate::session::forwards_upstream(a)
                && (a is Reply),
            final(self).command_count >= pre.command_count,
            final(self).protocol_errors >= pre.protocol_errors,
            final(self).require_tls_rejections >= pre.require_tls_rejections,
    {
        if line_byte_len(line.as_str()) > self.config.max_line_len {
            self.protocol_errors = self.protocol_errors + 1;
            self.mode = InboundMode::Command;
            return crate::session::reply_lit("500 5.5.2 Line too long");
        }
        let cmd = trim_crlf(line.as_str());
        if cmd.as_str().unicode_len() == 0 {
            self.protocol_errors = self.protocol_errors + 1;
            self.mode = InboundMode::Command;
            return crate::session::reply_lit("500 5.5.2 Empty command");
        }
        self.command_count = self.command_count + 1;
        let (verb, arg) = split_command(cmd.as_str());
        let v = verb.as_str();
        proof {
            lemma_verbs_distinct();
        }
        if crate::text::str_eq(v, "EHLO") || crate::text::str_eq(v, "HELO") {
            self.ehlo_seen = true;
            self.mode = InboundMode::Command;
            let mut greet = String::from_str("250-");
            greet.append(self.config.banner_host.as_str());
            greet.append(" greets ");
            if arg.as_str().unicode_len() == 0 {
                greet.append("client");
            } else {
                greet.append(arg.as_str());
            }
            let mut lines: Vec<String> = Vec::new();
            lines.push(greet);
            let offer = self.config.advertise_starttls && !self.tls_active;
            if offer {
                lines.push(String::from_str("250-STARTTLS"));
            }
            lines.push(String::from_str("250 SIZE 10485760"));
            proof {
                let c = cmd_of(line@);
                assert(lines.deep_view() =~~= ehlo_reply_lines(
                    pre.config.banner_host@,
                    ehlo_target(argument_of(c)),
                    pre.config.advertise_starttls && !pre.tls_active,
                ));
            }
            return SessionAction::Reply { lines };
        }
        if crate::text::str_eq(v, "STARTTLS") {
            if !self.config.advertise_starttls {
                self.protocol_errors = self.protocol_errors + 1;
                self.mode = InboundMode::Command;
                return crate::session::reply_lit("502 5.5.1 STARTTLS not supported");
            }
            if self.tls_active {
                self.protocol_errors = self.protocol_errors + 1;
                self.mode = InboundMode::Command;
                return crate::session::reply_lit("503 5.5.1 TLS already active");
            }
            if !self.ehlo_seen {
                self.protocol_errors = self.protocol_errors + 1;
                self.mode = InboundMode::Command;
                return crate::session::reply_lit("503 5.5.1 Send EHLO before STARTTLS");
            }
            self.starttls_attempts = self.starttls_attempts + 1;
            self.mode = InboundMode::TlsHandshake;
            let mut lines: Vec<String> = Vec::new();
            lines.push(String::from_str("220 Ready to start TLS"));
            proof {
                assert(lines.deep_view() =~~= seq!["220 Ready to start TLS"@]);
            }
            return SessionAction::ReplyThenTls { lines };
        }
        let is_mail = crate::text::str_eq(v, "MAIL");
        let is_rcpt = crate::text::str_eq(v, "RCPT");
        let is_data = crate::text::str_eq(v, "DATA");
        if is_mail || is_rcpt || is_data {
            let require_gate = match self.config.inbound_tls_policy {
                InboundTlsPolicy::RequireTls => !self.tls_active,
                InboundTlsPolicy::Opportunistic => false,
            };
            if require_gate {
                self.require_tls_rejections = self.require_tls_rejections + 1;
                self.mode = InboundMode::Command;
                return crate::session::reply_lit("530 5.7.0 Must issue STARTTLS first");
            }
            if !self.ehlo_seen {
                self.protocol_errors = self.protocol_errors + 1;
                self.mode = InboundMode::Command;
                if self.tls_active {
                    return crate::session::reply_lit("503 5.5.1 Send EHLO after STARTTLS");
                } else {
                    return crate::session::reply_lit("503 5.5.1 Send EHLO before MAIL");
                }
            }
            let kind = if is_data {
                CmdKind::Data
            } else {
                CmdKind::Plain
            };
            let has_upstream = match &self.config.postfix_upstream_addr {
                Some(_) => true,
                None => false,
            };
            if has_upstream {
                if self.relay_live {
                    self.mode = InboundMode::AwaitCmdReply { kind };
                    return SessionAction::SendUpstream { line: cmd };
                } else {
                    let address = match &self.config.postfix_upstream_addr {
                        Some(addr) => addr.clone(),
                        None => String::new(),
                    };
                    self.mode = InboundMode::Connecting { pending: cmd, kind };
                    return SessionAction::ConnectUpstream { address };
                }
            }
            if is_mail {
                self.mode = InboundMode::Command;
                return crate::session::reply_lit("250 2.1.0 Sender OK");
            }
            if is_rcpt {
                self.mode = InboundMode::Command;
                return crate::session::reply_lit("250 2.1.5 Recipient OK");
            }
            self.mode = InboundMode::Consuming;
            return crate::session::reply_lit("354 End data with <CR><LF>.<CR><LF>");
        }
        if crate::text::str_eq(v, "RSET") {
            if self.relay_live {
                self.mode = InboundMode::AwaitCmdReply { kind: CmdKind::Plain };
                return SessionAction::SendUpstream { line: cmd };
            }
            self.mode = InboundMode::Command;
            return crate::session::reply_lit("250 2.0.0 Reset state");
        }
        if crate::text::str_eq(v, "NOOP") {
            if self.relay_live {
                self.mode = InboundMode::AwaitCmdReply { kind: CmdKind::Plain };
                return SessionAction::SendUpstream { line: cmd };
            }
            self.mode = InboundMode::Command;
            return crate::session::reply_lit("250 2.0.0 OK");
        }
        if crate::text::str_eq(v, "QUIT") {
            if self.relay_live {
                self.mode = InboundMode::AwaitCmdReply { kind: CmdKind::Quit };
                return SessionAction::SendUpstream { line: cmd };
            }
            self.mode = InboundMode::Closed;
            return crate::session::reply_close_lit("221 2.0.0 Bye");
        }
        self.protocol_errors = self.protocol_errors + 1;
        self.mode = InboundMode::Command;
        crate::session::reply_lit("502 5.5.1 Command not implemented")
    }
}

/// Whether MAIL, RCPT and DATA may proceed: a greeting has been seen.
pub fn can_process_mail_command(state: &InboundSessionCore) -> (r: bool)
    ensures
        r == state.ehlo_seen,
{
    state.ehlo_seen
}

/// The 503 text used when a greeting is still owed.
pub fn required_ehlo_message(state: &InboundSessionCore) -> (r: &'static str)
    ensures
        ("503 "@ + r@) == ehlo_required_line(state.tls_active),
{
    if state.tls_active {
        proof {
            reveal_strlit("503 ");
            reveal_strlit("5.5.1 Send EHLO after STARTTLS");
            reveal_strlit("503 5.5.1 Send EHLO after STARTTLS");
            assert(("503 "@ + "5.5.1 Send EHLO after STARTTLS"@)
                =~= "503 5.5.1 Send EHLO after STARTTLS"@);
        }
        "5.5.1 Send EHLO after STARTTLS"
    } else {
        proof {
            reveal_strlit("503 ");
            reveal_strlit("5.5.1 Send EHLO before MAIL");
            reveal_strlit("503 5.5.1 Send EHLO before MAIL");
            assert(("503 "@ + "5.5.1 Send EHLO before MAIL"@)
                =~= "503 5.5.1 Send EHLO before MAIL"@);
        }
        "5.5.1 Send EHLO before MAIL"
    }
}

} // verus!
