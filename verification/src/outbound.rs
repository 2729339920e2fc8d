//! The outbound session orchestrator.
//!
//! An outbound session accepts mail from the local MTA, stages the MAIL
//! command, extracts the recipient domain from the first RCPT, resolves the
//! domain's MX candidates, and relays the transaction to the best reachable
//! MX under the effective TLS policy. Like the inbound orchestrator it is a
//! state machine over [`SessionEvent`]s; the embedding program dials, reads,
//! writes and hands back the outcomes. MX ordering, failover, TLS policy
//! execution, status mapping and all reply text are decided — and verified —
//! here.

use vstd::prelude::*;

use crate::address::{is_mail_from_argument, mail_from_ok, parse_recipient_domain, recipient_domain_of};
use crate::command::{argument_of, split_command, trim_crlf, trim_crlf_seq, verb_of, wire_len, line_byte_len, is_data_terminator, is_term_line};
use crate::config::ConfigError;
use crate::mx::{MxCandidate, MxResolutionError, stable_sort_spec, sort_candidates};
use crate::reply::SmtpReply;
use crate::session::{SessionAction, SessionEvent};
use crate::status::{RelayStage, deferred_line, map_remote_status};
use crate::text::{is_blank_seq, is_blank, lower_seq, trim_seq, upper_seq};

verus! {

pub use crate::mx::MxResolver;
pub use crate::mx::NoopMxResolver;

/// Default bound on one protocol line, in bytes, terminator included.
pub const DEFAULT_MAX_LINE_LEN: usize = 4096;

/// TLS stance of the outbound relay toward remote MX hosts.
#[derive(Clone, Copy, Debug, PartialEq, Eq, Structural)]
pub enum OutboundTlsPolicy {
    /// Use STARTTLS when the remote offers it; fall back to plaintext.
    Opportunistic,
    /// Deliver only over TLS; defer when it cannot be negotiated.
    RequireTls,
}

/// A per-domain TLS policy rule; the domain is stored normalized
/// (trimmed and lower-cased).
pub struct OutboundDomainTlsPolicy {
    /// The normalized recipient domain the rule applies to.
    pub domain: String,
    /// The policy for that domain.
    pub policy: OutboundTlsPolicy,
}

impl OutboundDomainTlsPolicy {
    /// Builds a rule, normalizing the domain and rejecting an empty one.
    pub fn new(domain: &str, policy: OutboundTlsPolicy) -> (r: Result<
        OutboundDomainTlsPolicy,
        ConfigError,
    >)
        ensures
            r matches Ok(p) ==> p.domain@ == lower_seq(trim_seq(domain@)) && p.domain@.len() > 0
                && p.policy == policy,
            r is Err <==> trim_seq(domain@).len() == 0,
            r matches Err(e) ==> e.message@ == "tls policy domain must not be empty"@,
    {
        let trimmed = crate::text::trim_copy(domain);
        let tlen = trimmed.as_str().unicode_len();
        if tlen == 0 {
            return Err(ConfigError::new("tls policy domain must not be empty"));
        }
        let normalized = crate::text::lower_span(trimmed.as_str(), 0, tlen);
        proof {
            assert(trimmed@.subrange(0, tlen as int) =~= trim_seq(domain@));
        }
        Ok(OutboundDomainTlsPolicy { domain: normalized, policy })
    }
}

impl Clone for OutboundDomainTlsPolicy {
    /// An exact copy of the rule.
    fn clone(&self) -> (r: OutboundDomainTlsPolicy)
        ensures
            r == *self,
    {
        OutboundDomainTlsPolicy { domain: self.domain.clone(), policy: self.policy }
    }
}

/// Configuration of the outbound listener.
pub struct OutboundListenerConfig {
    /// The address the listener binds.
    pub bind_addr: String,
    /// The host name announced in the banner and used for remote EHLO.
    pub banner_host: String,
    /// The TLS policy applied when no per-domain rule matches.
    pub outbound_tls_policy: OutboundTlsPolicy,
    /// Per-domain overrides; normalized domains must be unique.
    pub per_domain_tls_policies: Vec<OutboundDomainTlsPolicy>,
    /// Bound on one line in bytes, terminator included; at least 512.
    pub max_line_len: usize,
}

/// Whether two rules of the list name the same normalized domain.
pub open spec fn has_duplicate_domain(rules: Seq<OutboundDomainTlsPolicy>) -> bool {
    exists|i: int, j: int|
        0 <= i < j < rules.len() && (#[trigger] rules[i].domain@) == (#[trigger] rules[j].domain@)
}

/// What a valid outbound configuration looks like.
pub open spec fn outbound_config_ok(c: OutboundListenerConfig) -> bool {
    &&& !is_blank_seq(c.banner_host@)
    &&& c.max_line_len >= 512
    &&& !has_duplicate_domain(c.per_domain_tls_policies@)
}

/// The message reported for an invalid outbound configuration: that of the
/// first violated rule, in the order the rules are checked.
pub open spec fn outbound_config_error_text(c: OutboundListenerConfig) -> Seq<char> {
    if is_blank_seq(c.banner_host@) {
        "banner_host must not be empty"@
    } else if c.max_line_len < 512 {
        "max_line_len must be at least 512 bytes"@
    } else {
        "per_domain_tls_policies contains duplicate domain rule"@
    }
}

impl OutboundListenerConfig {
    /// Checks the configuration, reporting the first violated rule.
    pub fn validate(&self) -> (r: Result<(), ConfigError>)
        ensures
            r is Ok <==> outbound_config_ok(*self),
            r matches Err(e) ==> e.message@ == outbound_config_error_text(*self),
    {
        if is_blank(self.banner_host.as_str()) {
            return Err(ConfigError::new("banner_host must not be empty"));
        }
        if self.max_line_len < 512 {
            return Err(ConfigError::new("max_line_len must be at least 512 bytes"));
        }
        let rules = &self.per_domain_tls_policies;
        let n = rules.len();
        let mut j: usize = 1;
        if n > 0 {
            while j < n
                invariant
                    !is_blank_seq(self.banner_host@),
                    self.max_line_len >= 512,
                    rules@ == self.per_domain_tls_policies@,
                    1 <= j <= n,
                    n == rules@.len(),
                    forall|p: int, q: int|
                        0 <= p < q < j ==> (#[trigger] rules@[p].domain@) != (
                        #[trigger] rules@[q].domain@),
                decreases n - j,
            {
                let mut i: usize = 0;
                while i < j
                    invariant
                        !is_blank_seq(self.banner_host@),
                        self.max_line_len >= 512,
                        rules@ == self.per_domain_tls_policies@,
                        0 <= i <= j < n,
                        n == rules@.len(),
                        forall|p: int|
                            0 <= p < i ==> (#[trigger] rules@[p].domain@)
                                != rules@[j as int].domain@,
                    decreases j - i,
                {
                    if crate::text::str_eq(rules[i].domain.as_str(), rules[j].domain.as_str()) {
                        proof {
                            let pi = i as int;
                            let pj = j as int;
                            assert(0 <= pi < pj < rules@.len() && rules@[pi].domain@ == rules@[
                                pj].domain@);
                            assert(has_duplicate_domain(rules@));
                        }
                        return Err(
                            ConfigError::new(
                                "per_domain_tls_policies contains duplicate domain rule",
                            ),
                        );
                    }
                    i += 1;
                }
                j += 1;
            }
        }
        proof {
            assert(!has_duplicate_domain(self.per_domain_tls_policies@));
        }
        Ok(())
    }
}

impl Clone for OutboundListenerConfig {
    /// A copy of the configuration carrying the same values.
    fn clone(&self) -> (r: OutboundListenerConfig)
        ensures
            r.bind_addr == self.bind_addr,
            r.banner_host == self.banner_host,
            r.outbound_tls_policy == self.outbound_tls_policy,
            r.per_domain_tls_policies@ == self.per_domain_tls_policies@,
            r.max_line_len == self.max_line_len,
    {
        let mut rules: Vec<OutboundDomainTlsPolicy> = Vec::new();
        let mut i: usize = 0;
        while i < self.per_domain_tls_policies.len()
            invariant
                0 <= i <= self.per_domain_tls_policies@.len(),
                rules@ == self.per_domain_tls_policies@.subrange(0, i as int),
            decreases self.per_domain_tls_policies@.len() - i,
        {
            rules.push(self.per_domain_tls_policies[i].clone());
            proof {
                assert(rules@ =~= self.per_domain_tls_policies@.subrange(0, i + 1 as int));
            }
            i += 1;
        }
        proof {
            assert(rules@ =~= self.per_domain_tls_policies@);
        }
        OutboundListenerConfig {
            bind_addr: self.bind_addr.clone(),
            banner_host: self.banner_host.clone(),
            outbound_tls_policy: self.outbound_tls_policy,
            per_domain_tls_policies: rules,
            max_line_len: self.max_line_len,
        }
    }
}

impl Default for OutboundListenerConfig {
    /// A local loopback relay with opportunistic TLS and no domain rules.
    fn default() -> (r: OutboundListenerConfig)
        ensures
            r.bind_addr@ == "127.0.0.1:10025"@,
            r.banner_host@ == "localhost"@,
            r.outbound_tls_policy is Opportunistic,
            r.per_domain_tls_policies@.len() == 0,
            r.max_line_len == DEFAULT_MAX_LINE_LEN,
    {
        OutboundListenerConfig {
            bind_addr: String::from_str("127.0.0.1:10025"),
            banner_host: String::from_str("localhost"),
            outbound_tls_policy: OutboundTlsPolicy::Opportunistic,
            per_domain_tls_policies: Vec::new(),
            max_line_len: DEFAULT_MAX_LINE_LEN,
        }
    }
}

/// The index of the first rule naming `domain`, or `-1` when none does.
pub open spec fn rule_index(rules: Seq<OutboundDomainTlsPolicy>, domain: Seq<char>) -> int
    decreases rules.len(),
{
    if rules.len() == 0 {
        -1
    } else if rules[0].domain@ == domain {
        0
    } else {
        let rest = rule_index(rules.drop_first(), domain);
        if rest < 0 {
            -1
        } else {
            rest + 1
        }
    }
}

/// The policy in force for `domain`: its rule if one exists, else the
/// global policy.
pub open spec fn effective_policy(
    rules: Seq<OutboundDomainTlsPolicy>,
    global: OutboundTlsPolicy,
    domain: Seq<char>,
) -> OutboundTlsPolicy {
    if rule_index(rules, domain) >= 0 {
        rules[rule_index(rules, domain)].policy
    } else {
        global
    }
}

proof fn lemma_rule_index(rules: Seq<OutboundDomainTlsPolicy>, domain: Seq<char>, k: int)
    requires
        -1 <= k < rules.len(),
        forall|i: int| 0 <= i < k ==> rules[i].domain@ != domain,
        k >= 0 ==> rules[k].domain@ == domain,
        k == -1 ==> forall|i: int| 0 <= i < rules.len() ==> rules[i].domain@ != domain,
    ensures
        rule_index(rules, domain) == k,
    decreases rules.len(),
{
    if rules.len() > 0 && rules[0].domain@ != domain {
        let rest = rules.drop_first();
        if k == -1 {
            lemma_rule_index(rest, domain, -1);
        } else {
            lemma_rule_index(rest, domain, k - 1);
        }
    }
}

/// Looks up the policy in force for a (normalized) recipient domain.
pub fn resolve_effective_policy(
    config: &OutboundListenerConfig,
    domain: &str,
) -> (r: OutboundTlsPolicy)
    ensures
        r == effective_policy(
            config.per_domain_tls_policies@,
            config.outbound_tls_policy,
            domain@,
        ),
{
    let rules = &config.per_domain_tls_policies;
    let n = rules.len();
    let mut i: usize = 0;
    while i < n
        invariant
            rules@ == config.per_domain_tls_policies@,
            0 <= i <= n,
            n == rules@.len(),
            forall|p: int| 0 <= p < i ==> rules@[p].domain@ != domain@,
        decreases n - i,
    {
        if crate::text::str_eq(rules[i].domain.as_str(), domain) {
            proof {
                lemma_rule_index(rules@, domain@, i as int);
                assert(rule_index(rules@, domain@) == i as int);
            }
            return rules[i].policy;
        }
        i += 1;
    }
    proof {
        lemma_rule_index(rules@, domain@, -1);
    }
    config.outbound_tls_policy
}

/// Whether one raw EHLO reply line advertises the STARTTLS extension.
pub open spec fn line_advertises_starttls(l: Seq<char>) -> bool {
    l.len() >= 4 && upper_seq(trim_seq(l.subrange(4, l.len() as int))) == upper_seq("STARTTLS"@)
}

/// Whether an EHLO reply advertises STARTTLS on any of its lines.
pub open spec fn advertises_starttls(lines: Seq<Seq<char>>) -> bool {
    exists|i: int| 0 <= i < lines.len() && line_advertises_starttls(#[trigger] lines[i])
}

/// Scans a parsed EHLO reply for the STARTTLS extension.
pub fn reply_advertises_starttls(reply: &SmtpReply) -> (r: bool)
    ensures
        r == advertises_starttls(reply.lines.deep_view()),
{
    let n = reply.lines.len();
    let mut i: usize = 0;
    while i < n
        invariant
            0 <= i <= n,
            n == reply.lines.deep_view().len(),
            forall|p: int|
                0 <= p < i ==> !line_advertises_starttls(#[trigger] reply.lines.deep_view()[p]),
        decreases n - i,
    {
        let line = &reply.lines[i];
        let len = line.as_str().unicode_len();
        if len >= 4 {
            let ext = line.as_str().substring_char(4, len);
            let trimmed = crate::text::trim_copy(ext);
            if crate::text::str_eq_ignore_case(trimmed.as_str(), "STARTTLS") {
                proof {
                    assert(line_advertises_starttls(reply.lines.deep_view()[i as int]));
                }
                return true;
            }
        }
        proof {
            assert(reply.lines.deep_view()[i as int] == reply.lines@[i as int]@);
        }
        i += 1;
    }
    false
}

} // verus!

verus! {

/// A command forwarded on the live relay whose reply is pending.
#[derive(Clone, Copy, Debug, PartialEq, Eq, Structural)]
pub enum RelayCmd {
    /// An RSET; its failure is reported as an RSET relay failure.
    Rset,
    /// A NOOP; its failure is reported as a NOOP relay failure.
    Noop,
    /// A QUIT; the session ends whatever comes back.
    Quit,
}

/// The stage of one candidate connection attempt during failover.
#[derive(Clone, Copy, Debug, PartialEq, Eq, Structural)]
pub enum ConnectPhase {
    /// Waiting for the TCP connect outcome.
    Dialing,
    /// Waiting for the remote banner.
    AwaitBanner,
    /// EHLO sent; waiting for the extension list.
    AwaitEhlo,
    /// STARTTLS sent; waiting for the remote's answer.
    AwaitStartTlsReply,
    /// STARTTLS accepted; waiting for the handshake outcome.
    AwaitTls,
    /// Handshake done; waiting for the post-TLS EHLO reply.
    AwaitEhloAfterTls,
    /// The staged MAIL was sent; waiting for its reply.
    AwaitMail,
}

/// The state of the linear MX failover scan.
pub struct FailoverState {
    /// The resolved candidates, already sorted.
    pub candidates: Vec<MxCandidate>,
    /// Index of the candidate being attempted.
    pub next: usize,
    /// The stage of the current attempt.
    pub phase: ConnectPhase,
    /// Whether this is the plaintext retry after an opportunistic TLS
    /// failure; STARTTLS is skipped.
    pub plaintext_retry: bool,
    /// Whether the current attempt negotiated TLS.
    pub tls: bool,
    /// The most recent candidate failure, for the final error reply.
    pub last_error: String,
    /// The RCPT command to forward once a relay is established.
    pub rcpt_line: String,
    /// The normalized recipient domain of the transaction.
    pub domain: String,
    /// The TLS policy in force for the domain.
    pub policy: OutboundTlsPolicy,
}

/// Where an outbound session stands between events.
pub enum OutboundMode {
    /// Awaiting the next client command line.
    Command,
    /// The resolver was asked about `domain` to serve `rcpt_line`.
    Resolving { rcpt_line: String, domain: String, policy: OutboundTlsPolicy },
    /// Scanning the sorted MX candidates for a usable relay.
    Failover(FailoverState),
    /// A RCPT was forwarded; awaiting the remote reply.
    AwaitRcptReply,
    /// A DATA command was forwarded; awaiting the remote reply.
    AwaitDataReply,
    /// Relaying DATA body lines from the client to the remote.
    Streaming,
    /// The body terminator went out; awaiting the remote's final reply.
    AwaitDataFinal,
    /// An RSET, NOOP or QUIT was forwarded; awaiting the remote reply.
    AwaitRelayReply { rc: RelayCmd },
    /// The session has ended.
    Closed,
}

/// The outbound session state machine.
pub struct OutboundSessionCore {
    /// The listener configuration this session runs under.
    pub config: OutboundListenerConfig,
    /// Whether a greeting was seen.
    pub ehlo_seen: bool,
    /// Non-empty commands received.
    pub command_count: usize,
    /// Protocol violations answered with an error reply.
    pub protocol_errors: usize,
    /// Temporary failures reported to the client with a 4xx reply.
    pub temporary_failures: usize,
    /// Times the MX resolver was consulted.
    pub resolver_lookups: usize,
    /// Connection attempts made during failover, every dial counted.
    pub mx_candidates_attempted: usize,
    /// Opportunistic TLS attempts abandoned in favor of plaintext.
    pub opportunistic_tls_fallbacks: usize,
    /// Transactions deferred because the RequireTls policy could not be met.
    pub policy_deferred_failures: usize,
    /// Whether a remote relay session was ever established.
    pub remote_session_established: bool,
    /// Whether any established relay negotiated TLS.
    pub tls_negotiated: bool,
    /// The exchange name of the most recently selected MX.
    pub selected_mx: Option<String>,
    /// The domain the selected MX serves.
    pub selected_recipient_domain: Option<String>,
    /// The policy resolved for the most recent transaction.
    pub effective_tls_policy: Option<OutboundTlsPolicy>,
    /// The staged MAIL command of the open transaction.
    pub staged_mail_from: Option<String>,
    /// The recipient domain of the open transaction.
    pub recipient_domain: Option<String>,
    /// RCPT commands the remote accepted in the open transaction.
    pub recipient_count: usize,
    /// Whether a remote relay connection is established.
    pub relay_live: bool,
    /// Whether the established relay runs over TLS.
    pub relay_tls: bool,
    /// The phase of the session.
    pub mode: OutboundMode,
}

/// What one outbound session did, returned when it ends.
#[derive(Debug)]
pub struct OutboundSessionSummary {
    /// Non-empty commands received from the client.
    pub command_count: usize,
    /// Protocol violations answered with an error reply.
    pub protocol_errors: usize,
    /// Temporary failures reported to the client.
    pub temporary_failures: usize,
    /// Times the MX resolver was consulted.
    pub resolver_lookups: usize,
    /// Connection attempts made during failover.
    pub mx_candidates_attempted: usize,
    /// Whether a remote relay session was established.
    pub remote_session_established: bool,
    /// The exchange name of the selected MX.
    pub selected_mx: Option<String>,
    /// The domain the selected MX serves.
    pub selected_recipient_domain: Option<String>,
    /// The policy resolved for the most recent transaction.
    pub effective_tls_policy: Option<OutboundTlsPolicy>,
    /// Opportunistic TLS attempts abandoned in favor of plaintext.
    pub opportunistic_tls_fallbacks: usize,
    /// Transactions deferred under RequireTls.
    pub policy_deferred_failures: usize,
    /// Whether any established relay negotiated TLS.
    pub tls_negotiated: bool,
}

/// `s` with one more protocol error.
pub open spec fn ob_note_pe(s: OutboundSessionCore) -> OutboundSessionCore {
    OutboundSessionCore { protocol_errors: (s.protocol_errors + 1) as usize, ..s }
}

/// `s` with one more counted command.
pub open spec fn ob_note_cmd(s: OutboundSessionCore) -> OutboundSessionCore {
    OutboundSessionCore { command_count: (s.command_count + 1) as usize, ..s }
}

/// `s` with one more temporary failure.
pub open spec fn ob_note_temp(s: OutboundSessionCore) -> OutboundSessionCore {
    OutboundSessionCore { temporary_failures: (s.temporary_failures + 1) as usize, ..s }
}

/// `s` in mode `m`.
pub open spec fn ob_with_mode(s: OutboundSessionCore, m: OutboundMode) -> OutboundSessionCore {
    OutboundSessionCore { mode: m, ..s }
}

/// `s` after a live relay died from an upstream error: the connection and
/// the whole transaction are cleared together.
pub open spec fn ob_relay_lost(s: OutboundSessionCore) -> OutboundSessionCore {
    OutboundSessionCore {
        relay_live: false,
        relay_tls: false,
        staged_mail_from: None,
        recipient_domain: None,
        recipient_count: 0,
        ..s
    }
}

/// Whether `a` and `b` agree on everything but the mode.
pub open spec fn ob_same_except_mode(a: OutboundSessionCore, b: OutboundSessionCore) -> bool {
    &&& a.config == b.config
    &&& a.ehlo_seen == b.ehlo_seen
    &&& a.command_count == b.command_count
    &&& a.protocol_errors == b.protocol_errors
    &&& a.temporary_failures == b.temporary_failures
    &&& a.resolver_lookups == b.resolver_lookups
    &&& a.mx_candidates_attempted == b.mx_candidates_attempted
    &&& a.opportunistic_tls_fallbacks == b.opportunistic_tls_fallbacks
    &&& a.policy_deferred_failures == b.policy_deferred_failures
    &&& a.remote_session_established == b.remote_session_established
    &&& a.tls_negotiated == b.tls_negotiated
    &&& a.selected_mx == b.selected_mx
    &&& a.selected_recipient_domain == b.selected_recipient_domain
    &&& a.effective_tls_policy == b.effective_tls_policy
    &&& a.staged_mail_from == b.staged_mail_from
    &&& a.recipient_domain == b.recipient_domain
    &&& a.recipient_count == b.recipient_count
    &&& a.relay_live == b.relay_live
    &&& a.relay_tls == b.relay_tls
}

/// Whether `a` and `b` agree on everything but the mode and the recorded
/// recipient domain.
pub open spec fn ob_same_except_mode_and_domain(a: OutboundSessionCore, b: OutboundSessionCore) -> bool {
    &&& a.config == b.config
    &&& a.ehlo_seen == b.ehlo_seen
    &&& a.command_count == b.command_count
    &&& a.protocol_errors == b.protocol_errors
    &&& a.temporary_failures == b.temporary_failures
    &&& a.resolver_lookups == b.resolver_lookups
    &&& a.mx_candidates_attempted == b.mx_candidates_attempted
    &&& a.opportunistic_tls_fallbacks == b.opportunistic_tls_fallbacks
    &&& a.policy_deferred_failures == b.policy_deferred_failures
    &&& a.remote_session_established == b.remote_session_established
    &&& a.tls_negotiated == b.tls_negotiated
    &&& a.selected_mx == b.selected_mx
    &&& a.selected_recipient_domain == b.selected_recipient_domain
    &&& a.effective_tls_policy == b.effective_tls_policy
    &&& a.staged_mail_from == b.staged_mail_from
    &&& a.recipient_count == b.recipient_count
    &&& a.relay_live == b.relay_live
    &&& a.relay_tls == b.relay_tls
}

/// Whether `f1` and `f2` describe the same attempt apart from its phase and
/// TLS flags.
pub open spec fn fo_same_core(f1: FailoverState, f2: FailoverState) -> bool {
    &&& f2.candidates@ == f1.candidates@
    &&& f2.next == f1.next
    &&& f2.last_error == f1.last_error
    &&& f2.rcpt_line == f1.rcpt_line
    &&& f2.domain == f1.domain
    &&& f2.policy == f1.policy
}

/// The failover advanced from `f1` to phase `phase` without touching
/// anything else.
pub open spec fn fo_phase_is(f1: FailoverState, m: OutboundMode, phase: ConnectPhase) -> bool {
    m matches OutboundMode::Failover(f2) && fo_same_core(f1, f2) && f2.phase == phase
        && f2.plaintext_retry == f1.plaintext_retry && f2.tls == f1.tls
}

/// The diagnostic for a remote reply outside the expected class at one of
/// the connect stages.
pub open spec fn remote_stage_err(stage: Seq<char>, code: int, lines: Seq<Seq<char>>) -> Seq<
    char,
> {
    stage + " was non-2xx ("@ + crate::text::code_digits(code) + "): "@
        + crate::text::join_pipe_seq(lines)
}

/// The recorded reason once a whole candidate attempt has failed.
pub open spec fn candidate_err(exchange: Seq<char>, reason: Seq<char>) -> Seq<char> {
    "candidate "@ + exchange + " failed: "@ + reason
}

/// The transition when the current candidate attempt fails for `reason`:
/// move to the next candidate, or — after the last one — answer the RCPT
/// with a policy defer under RequireTls and a plain temporary failure
/// otherwise.
pub open spec fn candidate_failed_post(
    pre: OutboundSessionCore,
    fo: FailoverState,
    reason: Seq<char>,
    post: OutboundSessionCore,
    a: SessionAction,
) -> bool {
    let err = candidate_err(fo.candidates@[fo.next as int].exchange@, reason);
    if fo.next + 1 < fo.candidates@.len() {
        &&& ob_same_except_mode(
            post,
            (OutboundSessionCore {
                mx_candidates_attempted: (pre.mx_candidates_attempted + 1) as usize,
                ..pre
            }),
        )
        &&& post.mode matches OutboundMode::Failover(f2) && f2.candidates@ == fo.candidates@
            && f2.next == fo.next + 1 && f2.phase is Dialing && !f2.plaintext_retry && !f2.tls
            && f2.last_error@ == err && f2.rcpt_line == fo.rcpt_line && f2.domain == fo.domain
            && f2.policy == fo.policy
        &&& crate::session::is_connect(a, fo.candidates@[fo.next + 1].address@)
    } else {
        &&& post.mode is Command
        &&& if fo.policy is RequireTls {
            ob_same_except_mode(
                post,
                (OutboundSessionCore {
                    temporary_failures: (pre.temporary_failures + 1) as usize,
                    policy_deferred_failures: (pre.policy_deferred_failures + 1) as usize,
                    ..pre
                }),
            ) && crate::session::is_reply1(a, "451 4.7.5 Outbound TLS policy defer: "@ + err)
        } else {
            ob_same_except_mode(post, ob_note_temp(pre)) && crate::session::is_reply1(
                a,
                "451 4.4.0 Outbound MX temporarily unavailable: "@ + err,
            )
        }
    }
}

/// The transition when an opportunistic TLS attempt is abandoned: the same
/// candidate is redialed in plaintext.
pub open spec fn fallback_post(
    pre: OutboundSessionCore,
    fo: FailoverState,
    post: OutboundSessionCore,
    a: SessionAction,
) -> bool {
    &&& ob_same_except_mode(
        post,
        (OutboundSessionCore {
            opportunistic_tls_fallbacks: (pre.opportunistic_tls_fallbacks + 1) as usize,
            mx_candidates_attempted: (pre.mx_candidates_attempted + 1) as usize,
            ..pre
        }),
    )
    &&& post.mode matches OutboundMode::Failover(f2) && fo_same_core(fo, f2) && f2.phase
        is Dialing && f2.plaintext_retry && !f2.tls
    &&& crate::session::is_connect(a, fo.candidates@[fo.next as int].address@)
}

/// The transition when the staged MAIL is accepted: the relay is
/// established and the pending RCPT goes out.
pub open spec fn established_post(
    pre: OutboundSessionCore,
    fo: FailoverState,
    post: OutboundSessionCore,
    a: SessionAction,
) -> bool {
    &&& post.config == pre.config
    &&& post.ehlo_seen == pre.ehlo_seen
    &&& post.command_count == pre.command_count
    &&& post.protocol_errors == pre.protocol_errors
    &&& post.temporary_failures == pre.temporary_failures
    &&& post.resolver_lookups == pre.resolver_lookups
    &&& post.mx_candidates_attempted == pre.mx_candidates_attempted
    &&& post.opportunistic_tls_fallbacks == pre.opportunistic_tls_fallbacks
    &&& post.policy_deferred_failures == pre.policy_deferred_failures
    &&& post.remote_session_established
    &&& post.tls_negotiated == (pre.tls_negotiated || fo.tls)
    &&& post.selected_mx matches Some(x) && x@ == fo.candidates@[fo.next as int].exchange@
    &&& post.selected_recipient_domain matches Some(d) && d@ == fo.domain@
    &&& post.effective_tls_policy == pre.effective_tls_policy
    &&& post.staged_mail_from == pre.staged_mail_from
    &&& post.recipient_domain == pre.recipient_domain
    &&& post.recipient_count == pre.recipient_count
    &&& post.relay_live
    &&& post.relay_tls == fo.tls
    &&& post.mode is AwaitRcptReply
    &&& crate::session::is_send_upstream(a, fo.rcpt_line@)
}

/// The failover scan's transition for one event, by connect phase.
pub open spec fn failover_step_post(
    pre: OutboundSessionCore,
    fo: FailoverState,
    ev: SessionEvent,
    post: OutboundSessionCore,
    a: SessionAction,
) -> bool {
    match fo.phase {
        ConnectPhase::Dialing => match ev {
            SessionEvent::ConnectOk => ob_same_except_mode(post, pre) && fo_phase_is(
                fo,
                post.mode,
                ConnectPhase::AwaitBanner,
            ) && a is AwaitUpstreamReply,
            SessionEvent::ConnectFailed(m) => candidate_failed_post(pre, fo, m@, post, a),
            _ => false,
        },
        ConnectPhase::AwaitBanner => match ev {
            SessionEvent::UpstreamReply(r) => if r.code / 100 == 2 {
                ob_same_except_mode(post, pre) && fo_phase_is(fo, post.mode, ConnectPhase::AwaitEhlo)
                    && crate::session::is_send_upstream(a, "EHLO "@ + pre.config.banner_host@)
            } else {
                candidate_failed_post(
                    pre,
                    fo,
                    remote_stage_err("remote MX banner"@, r.code as int, r.lines.deep_view()),
                    post,
                    a,
                )
            },
            SessionEvent::UpstreamFailed(m) => candidate_failed_post(pre, fo, m@, post, a),
            _ => false,
        },
        ConnectPhase::AwaitEhlo => match ev {
            SessionEvent::UpstreamReply(r) => if r.code / 100 != 2 {
                candidate_failed_post(
                    pre,
                    fo,
                    remote_stage_err("remote MX EHLO"@, r.code as int, r.lines.deep_view()),
                    post,
                    a,
                )
            } else if fo.plaintext_retry {
                ob_same_except_mode(post, pre) && fo_phase_is(fo, post.mode, ConnectPhase::AwaitMail)
                    && (pre.staged_mail_from matches Some(m) && crate::session::is_send_upstream(
                    a,
                    m@,
                ))
            } else if advertises_starttls(r.lines.deep_view()) {
                ob_same_except_mode(post, pre) && fo_phase_is(
                    fo,
                    post.mode,
                    ConnectPhase::AwaitStartTlsReply,
                ) && crate::session::is_send_upstream(a, "STARTTLS"@)
            } else if fo.policy is RequireTls {
                candidate_failed_post(
                    pre,
                    fo,
                    "remote MX does not advertise STARTTLS"@,
                    post,
                    a,
                )
            } else {
                ob_same_except_mode(post, pre) && fo_phase_is(fo, post.mode, ConnectPhase::AwaitMail)
                    && (pre.staged_mail_from matches Some(m) && crate::session::is_send_upstream(
                    a,
                    m@,
                ))
            },
            SessionEvent::UpstreamFailed(m) => candidate_failed_post(pre, fo, m@, post, a),
            _ => false,
        },
        ConnectPhase::AwaitStartTlsReply => match ev {
            SessionEvent::UpstreamReply(r) => if r.code / 100 == 2 {
                ob_same_except_mode(post, pre) && fo_phase_is(fo, post.mode, ConnectPhase::AwaitTls)
                    && a is StartTlsUpgrade
            } else if fo.policy is RequireTls {
                candidate_failed_post(
                    pre,
                    fo,
                    remote_stage_err("remote MX STARTTLS"@, r.code as int, r.lines.deep_view()),
                    post,
                    a,
                )
            } else {
                fallback_post(pre, fo, post, a)
            },
            SessionEvent::UpstreamFailed(m) => candidate_failed_post(pre, fo, m@, post, a),
            _ => false,
        },
        ConnectPhase::AwaitTls => match ev {
            SessionEvent::TlsOk => {
                &&& ob_same_except_mode(post, pre)
                &&& post.mode matches OutboundMode::Failover(f2) && fo_same_core(fo, f2)
                    && f2.phase is AwaitEhloAfterTls && f2.plaintext_retry == fo.plaintext_retry
                    && f2.tls
                &&& crate::session::is_send_upstream(a, "EHLO "@ + pre.config.banner_host@)
            },
            SessionEvent::TlsFailed(m) => if fo.policy is RequireTls {
                candidate_failed_post(pre, fo, "TLS upgrade failed: "@ + m@, post, a)
            } else {
                fallback_post(pre, fo, post, a)
            },
            _ => false,
        },
        ConnectPhase::AwaitEhloAfterTls => match ev {
            SessionEvent::UpstreamReply(r) => if r.code / 100 == 2 {
                ob_same_except_mode(post, pre) && fo_phase_is(fo, post.mode, ConnectPhase::AwaitMail)
                    && (pre.staged_mail_from matches Some(m) && crate::session::is_send_upstream(
                    a,
                    m@,
                ))
            } else {
                candidate_failed_post(
                    pre,
                    fo,
                    remote_stage_err("remote MX EHLO"@, r.code as int, r.lines.deep_view()),
                    post,
                    a,
                )
            },
            SessionEvent::UpstreamFailed(m) => candidate_failed_post(pre, fo, m@, post, a),
            _ => false,
        },
        ConnectPhase::AwaitMail => match ev {
            SessionEvent::UpstreamReply(r) => if r.code / 100 == 2 {
                established_post(pre, fo, post, a)
            } else {
                candidate_failed_post(
                    pre,
                    fo,
                    remote_stage_err("remote MX MAIL"@, r.code as int, r.lines.deep_view()),
                    post,
                    a,
                )
            },
            SessionEvent::UpstreamFailed(m) => candidate_failed_post(pre, fo, m@, post, a),
            _ => false,
        },
    }
}

} // verus!

verus! {

/// The peer name echoed in the outbound EHLO greeting.
pub open spec fn ob_ehlo_target(arg: Seq<char>) -> Seq<char> {
    if arg.len() == 0 {
        "postfix"@
    } else {
        arg
    }
}

/// The outbound EHLO reply: the greeting and the SIZE terminator.
pub open spec fn ob_ehlo_reply_lines(banner: Seq<char>, target: Seq<char>) -> Seq<Seq<char>> {
    seq!["250-"@ + banner + " greets "@ + target, "250 SIZE 10485760"@]
}

/// The transition for a MAIL command (already counted in `s1`): stage the
/// raw command and reset the per-transaction state.
pub open spec fn ob_mail_post(
    s1: OutboundSessionCore,
    c: Seq<char>,
    post: OutboundSessionCore,
    a: SessionAction,
) -> bool {
    if !s1.ehlo_seen {
        post == ob_note_pe(s1) && crate::session::is_reply1(a, "503 5.5.1 Send EHLO before MAIL"@)
    } else if !mail_from_ok(argument_of(c)) {
        post == ob_note_pe(s1) && crate::session::is_reply1(
            a,
            "501 5.5.4 MAIL requires FROM:<address>"@,
        )
    } else {
        &&& post.config == s1.config
        &&& post.ehlo_seen == s1.ehlo_seen
        &&& post.command_count == s1.command_count
        &&& post.protocol_errors == s1.protocol_errors
        &&& post.temporary_failures == s1.temporary_failures
        &&& post.resolver_lookups == s1.resolver_lookups
        &&& post.mx_candidates_attempted == s1.mx_candidates_attempted
        &&& post.opportunistic_tls_fallbacks == s1.opportunistic_tls_fallbacks
        &&& post.policy_deferred_failures == s1.policy_deferred_failures
        &&& post.remote_session_established == s1.remote_session_established
        &&& post.tls_negotiated == s1.tls_negotiated
        &&& post.selected_mx is None
        &&& post.selected_recipient_domain == s1.selected_recipient_domain
        &&& post.effective_tls_policy == s1.effective_tls_policy
        &&& post.staged_mail_from matches Some(m) && m@ == c
        &&& post.recipient_domain is None
        &&& post.recipient_count == 0
        &&& !post.relay_live
        &&& !post.relay_tls
        &&& post.mode is Command
        &&& crate::session::is_reply1(a, "250 2.1.0 Sender staged for outbound relay"@)
    }
}

/// The transition for a RCPT command (already counted in `s1`).
pub open spec fn ob_rcpt_post(
    s1: OutboundSessionCore,
    c: Seq<char>,
    post: OutboundSessionCore,
    a: SessionAction,
) -> bool {
    let arg = argument_of(c);
    if !s1.ehlo_seen {
        post == ob_note_pe(s1) && crate::session::is_reply1(a, "503 5.5.1 Send EHLO before RCPT"@)
    } else if s1.staged_mail_from is None {
        post == ob_note_pe(s1) && crate::session::is_reply1(a, "503 5.5.1 Send MAIL before RCPT"@)
    } else if recipient_domain_of(arg) is None {
        post == ob_note_pe(s1) && crate::session::is_reply1(
            a,
            "501 5.1.3 Bad recipient address syntax"@,
        )
    } else {
        let d = recipient_domain_of(arg)->Some_0;
        if s1.recipient_domain matches Some(existing) && existing@ != d {
            post == ob_note_temp(s1) && crate::session::is_reply1(
                a,
                "451 4.5.3 Mixed recipient domains are not supported"@,
            )
        } else if s1.relay_live {
            &&& ob_same_except_mode_and_domain(post, s1)
            &&& post.recipient_domain matches Some(rd) && rd@ == d
            &&& post.mode is AwaitRcptReply
            &&& crate::session::is_send_upstream(a, c)
        } else {
            let policy = effective_policy(
                s1.config.per_domain_tls_policies@,
                s1.config.outbound_tls_policy,
                d,
            );
            &&& post.config == s1.config
            &&& post.ehlo_seen == s1.ehlo_seen
            &&& post.command_count == s1.command_count
            &&& post.protocol_errors == s1.protocol_errors
            &&& post.temporary_failures == s1.temporary_failures
            &&& post.resolver_lookups == s1.resolver_lookups + 1
            &&& post.mx_candidates_attempted == s1.mx_candidates_attempted
            &&& post.opportunistic_tls_fallbacks == s1.opportunistic_tls_fallbacks
            &&& post.policy_deferred_failures == s1.policy_deferred_failures
            &&& post.remote_session_established == s1.remote_session_established
            &&& post.tls_negotiated == s1.tls_negotiated
            &&& post.selected_mx == s1.selected_mx
            &&& post.selected_recipient_domain == s1.selected_recipient_domain
            &&& post.effective_tls_policy == Some(policy)
            &&& post.staged_mail_from == s1.staged_mail_from
            &&& post.recipient_domain matches Some(rd) && rd@ == d
            &&& post.recipient_count == s1.recipient_count
            &&& !post.relay_live
            &&& post.relay_tls == s1.relay_tls
            &&& post.mode matches OutboundMode::Resolving { rcpt_line, domain, policy: p }
                && rcpt_line@ == c && domain@ == d && p == policy
            &&& crate::session::is_resolve(a, d)
        }
    }
}

/// The transition for a DATA command (already counted in `s1`).
pub open spec fn ob_data_post(
    s1: OutboundSessionCore,
    c: Seq<char>,
    post: OutboundSessionCore,
    a: SessionAction,
) -> bool {
    if !s1.ehlo_seen {
        post == ob_note_pe(s1) && crate::session::is_reply1(a, "503 5.5.1 Send EHLO before DATA"@)
    } else if s1.staged_mail_from is None {
        post == ob_note_pe(s1) && crate::session::is_reply1(a, "503 5.5.1 Send MAIL before DATA"@)
    } else if s1.recipient_count == 0 {
        post == ob_note_pe(s1) && crate::session::is_reply1(a, "503 5.5.1 Send RCPT before DATA"@)
    } else if !s1.relay_live {
        post == ob_note_temp(s1) && crate::session::is_reply1(
            a,
            "451 4.4.0 Outbound relay session is unavailable"@,
        )
    } else {
        post == ob_with_mode(s1, OutboundMode::AwaitDataReply) && crate::session::is_send_upstream(
            a,
            c,
        )
    }
}

/// The transition for one raw client line in command mode.
pub open spec fn ob_command_post(
    pre: OutboundSessionCore,
    l: Seq<char>,
    post: OutboundSessionCore,
    a: SessionAction,
) -> bool {
    let c = trim_crlf_seq(l);
    let v = verb_of(c);
    let arg = argument_of(c);
    if wire_len(l) > pre.config.max_line_len {
        post == ob_note_pe(pre) && crate::session::is_reply1(a, "500 5.5.2 Line too long"@)
    } else if c.len() == 0 {
        post == ob_note_pe(pre) && crate::session::is_reply1(a, "500 5.5.2 Empty command"@)
    } else {
        let s1 = ob_note_cmd(pre);
        if v == "EHLO"@ || v == "HELO"@ {
            post == (OutboundSessionCore { ehlo_seen: true, ..s1 }) && crate::session::is_reply(
                a,
                ob_ehlo_reply_lines(pre.config.banner_host@, ob_ehlo_target(arg)),
            )
        } else if v == "MAIL"@ {
            ob_mail_post(s1, c, post, a)
        } else if v == "RCPT"@ {
            ob_rcpt_post(s1, c, post, a)
        } else if v == "DATA"@ {
            ob_data_post(s1, c, post, a)
        } else if v == "RSET"@ {
            let s2 = (OutboundSessionCore {
                staged_mail_from: None,
                recipient_domain: None,
                recipient_count: 0,
                ..s1
            });
            if s1.relay_live {
                post == ob_with_mode(s2, OutboundMode::AwaitRelayReply { rc: RelayCmd::Rset })
                    && crate::session::is_send_upstream(a, c)
            } else {
                post == s2 && crate::session::is_reply1(a, "250 2.0.0 Reset state"@)
            }
        } else if v == "NOOP"@ {
            if s1.relay_live {
                post == ob_with_mode(s1, OutboundMode::AwaitRelayReply { rc: RelayCmd::Noop })
                    && crate::session::is_send_upstream(a, c)
            } else {
                post == s1 && crate::session::is_reply1(a, "250 2.0.0 OK"@)
            }
        } else if v == "QUIT"@ {
            if s1.relay_live {
                post == ob_with_mode(s1, OutboundMode::AwaitRelayReply { rc: RelayCmd::Quit })
                    && crate::session::is_send_upstream(a, c)
            } else {
                post == ob_with_mode(s1, OutboundMode::Closed) && crate::session::is_reply_close1(
                    a,
                    "221 2.0.0 Bye"@,
                )
            }
        } else {
            post == ob_note_pe(s1) && crate::session::is_reply1(
                a,
                "502 5.5.1 Command not implemented"@,
            )
        }
    }
}

/// The full transition relation of the outbound session core.
pub open spec fn outbound_step_post(
    pre: OutboundSessionCore,
    ev: SessionEvent,
    post: OutboundSessionCore,
    a: SessionAction,
) -> bool {
    match pre.mode {
        OutboundMode::Command => match ev {
            SessionEvent::ClientClosed => post == ob_with_mode(pre, OutboundMode::Closed) && a
                is CloseSession,
            SessionEvent::ClientLine(l) => ob_command_post(pre, l@, post, a),
            _ => false,
        },
        OutboundMode::Resolving { rcpt_line, domain, policy } => match ev {
            SessionEvent::MxResolved(Ok(v)) => {
                let sorted = stable_sort_spec(v@);
                if v@.len() == 0 {
                    post == ob_with_mode(ob_note_temp(pre), OutboundMode::Command)
                        && crate::session::is_reply1(
                        a,
                        "451 4.4.0 Outbound MX temporarily unavailable: "@
                            + "resolver returned no MX records for "@ + domain@,
                    )
                } else {
                    &&& ob_same_except_mode(
                        post,
                        (OutboundSessionCore {
                            mx_candidates_attempted: (pre.mx_candidates_attempted + 1) as usize,
                            ..pre
                        }),
                    )
                    &&& post.mode matches OutboundMode::Failover(f) && f.candidates@ == sorted
                        && f.next == 0 && f.phase is Dialing && !f.plaintext_retry && !f.tls
                        && f.rcpt_line@ == rcpt_line@ && f.domain@ == domain@ && f.policy == policy
                    &&& crate::session::is_connect(a, sorted[0].address@)
                }
            },
            SessionEvent::MxResolved(Err(e)) => {
                &&& post == ob_with_mode(ob_note_temp(pre), OutboundMode::Command)
                &&& (e matches MxResolutionError::Temporary(m) && crate::session::is_reply1(
                    a,
                    "451 4.4.0 Outbound MX temporarily unavailable: "@ + m@,
                ))
            },
            _ => false,
        },
        OutboundMode::Failover(fo) => failover_step_post(pre, fo, ev, post, a),
        OutboundMode::AwaitRcptReply => match ev {
            SessionEvent::UpstreamReply(r) => if r.code / 100 == 2 {
                post == (OutboundSessionCore {
                    recipient_count: (pre.recipient_count + 1) as usize,
                    mode: OutboundMode::Command,
                    ..pre
                }) && crate::session::is_reply1(
                    a,
                    "250 2.1.5 Recipient accepted for remote delivery"@,
                )
            } else {
                post == ob_with_mode(ob_note_temp(pre), OutboundMode::Command)
                    && crate::session::is_reply1(a, deferred_line(RelayStage::Rcpt, r.code as int))
            },
            SessionEvent::UpstreamFailed(m) => post == ob_with_mode(
                ob_relay_lost(ob_note_temp(pre)),
                OutboundMode::Command,
            ) && crate::session::is_reply1(a, "451 4.4.0 Remote RCPT relay failure: "@ + m@),
            _ => false,
        },
        OutboundMode::AwaitDataReply => match ev {
            SessionEvent::UpstreamReply(r) => if r.code / 100 == 3 {
                post == ob_with_mode(pre, OutboundMode::Streaming) && crate::session::is_reply(
                    a,
                    r.lines.deep_view(),
                )
            } else {
                post == ob_with_mode(pre, OutboundMode::Command) && crate::session::is_reply(
                    a,
                    r.lines.deep_view(),
                )
            },
            SessionEvent::UpstreamFailed(m) => post == ob_with_mode(
                ob_relay_lost(ob_note_temp(pre)),
                OutboundMode::Command,
            ) && crate::session::is_reply1(a, "451 4.4.0 Remote DATA relay failure: "@ + m@),
            _ => false,
        },
        OutboundMode::Streaming => match ev {
            SessionEvent::ClientLine(l) => if wire_len(l@) > pre.config.max_line_len {
                post == ob_with_mode(ob_relay_lost(ob_note_temp(pre)), OutboundMode::Command)
                    && crate::session::is_reply1(
                    a,
                    "451 4.4.0 Remote DATA payload relay failure: "@
                        + "DATA line exceeds max_line_len during relay"@,
                )
            } else if is_term_line(l@) {
                post == ob_with_mode(pre, OutboundMode::AwaitDataFinal)
                    && crate::session::is_forward_data_end(a, l@)
            } else {
                post == pre && crate::session::is_forward_data(a, l@)
            },
            SessionEvent::ClientClosed => post == ob_with_mode(
                ob_relay_lost(ob_note_temp(pre)),
                OutboundMode::Command,
            ) && crate::session::is_reply1(
                a,
                "451 4.4.0 Remote DATA payload relay failure: "@
                    + "connection closed during DATA relay"@,
            ),
            SessionEvent::UpstreamFailed(m) => post == ob_with_mode(
                ob_relay_lost(ob_note_temp(pre)),
                OutboundMode::Command,
            ) && crate::session::is_reply1(
                a,
                "451 4.4.0 Remote DATA payload relay failure: "@ + m@,
            ),
            _ => false,
        },
        OutboundMode::AwaitDataFinal => match ev {
            SessionEvent::UpstreamReply(r) => if r.code / 100 == 2 {
                post == (OutboundSessionCore {
                    staged_mail_from: None,
                    recipient_domain: None,
                    recipient_count: 0,
                    mode: OutboundMode::Command,
                    ..pre
                }) && crate::session::is_reply1(a, "250 2.0.0 Message accepted by remote MX"@)
            } else {
                post == ob_with_mode(ob_note_temp(pre), OutboundMode::Command)
                    && crate::session::is_reply1(
                    a,
                    deferred_line(RelayStage::DataFinal, r.code as int),
                )
            },
            SessionEvent::UpstreamFailed(m) => post == ob_with_mode(
                ob_relay_lost(ob_note_temp(pre)),
                OutboundMode::Command,
            ) && crate::session::is_reply1(
                a,
                "451 4.4.0 Remote DATA payload relay failure: "@ + m@,
            ),
            _ => false,
        },
        OutboundMode::AwaitRelayReply { rc } => match ev {
            SessionEvent::UpstreamReply(r) => match rc {
                RelayCmd::Quit => post == ob_with_mode(pre, OutboundMode::Closed)
                    && crate::session::is_reply_close(a, r.lines.deep_view()),
                _ => post == ob_with_mode(pre, OutboundMode::Command) && crate::session::is_reply(
                    a,
                    r.lines.deep_view(),
                ),
            },
            SessionEvent::UpstreamFailed(m) => match rc {
                RelayCmd::Quit => post == ob_with_mode(pre, OutboundMode::Closed)
                    && crate::session::is_reply_close1(a, "221 2.0.0 Bye"@),
                RelayCmd::Rset => post == ob_with_mode(
                    ob_relay_lost(ob_note_temp(pre)),
                    OutboundMode::Command,
                ) && crate::session::is_reply1(a, "451 4.4.0 Remote RSET relay failure: "@ + m@),
                RelayCmd::Noop => post == ob_with_mode(
                    ob_relay_lost(ob_note_temp(pre)),
                    OutboundMode::Command,
                ) && crate::session::is_reply1(a, "451 4.4.0 Remote NOOP relay failure: "@ + m@),
            },
            _ => false,
        },
        OutboundMode::Closed => false,
    }
}

} // verus!

verus! {

impl OutboundSessionCore {
    /// Which events the session can take next; the driver keeps to these.
    pub open spec fn expects(&self, ev: SessionEvent) -> bool {
        match self.mode {
            OutboundMode::Command => ev is ClientLine || ev is ClientClosed,
            OutboundMode::Resolving { .. } => ev is MxResolved,
            OutboundMode::Failover(fo) => match fo.phase {
                ConnectPhase::Dialing => ev is ConnectOk || ev is ConnectFailed,
                ConnectPhase::AwaitTls => ev is TlsOk || ev is TlsFailed,
                _ => (ev matches SessionEvent::UpstreamReply(r) && r.wf()) || ev
                    is UpstreamFailed,
            },
            OutboundMode::Streaming => ev is ClientLine || ev is ClientClosed || ev
                is UpstreamFailed,
            OutboundMode::AwaitRcptReply | OutboundMode::AwaitDataReply
                | OutboundMode::AwaitDataFinal | OutboundMode::AwaitRelayReply { .. } => (ev
                matches SessionEvent::UpstreamReply(r) && r.wf()) || ev is UpstreamFailed,
            OutboundMode::Closed => false,
        }
    }

    /// All counters have room for one more increment.
    pub open spec fn counters_ok(&self) -> bool {
        &&& self.command_count < usize::MAX
        &&& self.protocol_errors < usize::MAX
        &&& self.temporary_failures < usize::MAX
        &&& self.resolver_lookups < usize::MAX
        &&& self.mx_candidates_attempted < usize::MAX
        &&& self.opportunistic_tls_fallbacks < usize::MAX
        &&& self.policy_deferred_failures < usize::MAX
        &&& self.recipient_count < usize::MAX
    }

    /// The structural invariant the state machine maintains: a transaction
    /// with accepted recipients has a recorded domain, and each relay mode
    /// holds what it needs.
    pub open spec fn wf(&self) -> bool {
        &&& (self.recipient_count > 0 ==> self.recipient_domain is Some)
        &&& match self.mode {
            OutboundMode::Failover(fo) => fo.next < fo.candidates@.len()
                && self.staged_mail_from is Some && self.recipient_domain is Some
                && !self.relay_live && (fo.policy is RequireTls ==> !fo.plaintext_retry && (
            fo.phase is AwaitMail || fo.phase is AwaitEhloAfterTls ==> fo.tls)),
            OutboundMode::Resolving { .. } => self.staged_mail_from is Some
                && self.recipient_domain is Some && !self.relay_live,
            OutboundMode::AwaitRcptReply => self.relay_live && self.staged_mail_from is Some
                && self.recipient_domain is Some,
            OutboundMode::AwaitDataReply => self.relay_live && self.staged_mail_from is Some,
            OutboundMode::Streaming => self.relay_live && self.staged_mail_from is Some,
            OutboundMode::AwaitDataFinal => self.relay_live && self.staged_mail_from is Some,
            OutboundMode::AwaitRelayReply { .. } => self.relay_live,
            _ => true,
        }
    }

    /// A fresh session under `config`: nothing seen, nothing staged.
    pub fn new(config: OutboundListenerConfig) -> (r: OutboundSessionCore)
        ensures
            r.config == config,
            !r.ehlo_seen,
            r.command_count == 0,
            r.protocol_errors == 0,
            r.temporary_failures == 0,
            r.resolver_lookups == 0,
            r.mx_candidates_attempted == 0,
            r.opportunistic_tls_fallbacks == 0,
            r.policy_deferred_failures == 0,
            !r.remote_session_established,
            !r.tls_negotiated,
            r.selected_mx is None,
            r.selected_recipient_domain is None,
            r.effective_tls_policy is None,
            r.staged_mail_from is None,
            r.recipient_domain is None,
            r.recipient_count == 0,
            !r.relay_live,
            !r.relay_tls,
            r.mode is Command,
            r.wf(),
    {
        OutboundSessionCore {
            config,
            ehlo_seen: false,
            command_count: 0,
            protocol_errors: 0,
            temporary_failures: 0,
            resolver_lookups: 0,
            mx_candidates_attempted: 0,
            opportunistic_tls_fallbacks: 0,
            policy_deferred_failures: 0,
            remote_session_established: false,
            tls_negotiated: false,
            selected_mx: None,
            selected_recipient_domain: None,
            effective_tls_policy: None,
            staged_mail_from: None,
            recipient_domain: None,
            recipient_count: 0,
            relay_live: false,
            relay_tls: false,
            mode: OutboundMode::Command,
        }
    }

    /// The banner the session opens with.
    pub fn banner_line(&self) -> (r: String)
        ensures
            r@ == "220 "@ + self.config.banner_host@ + " ESMTP VERZOLA"@,
    {
        let mut line = String::from_str("220 ");
        line.append(self.config.banner_host.as_str());
        line.append(" ESMTP VERZOLA");
        line
    }

    /// The session's telemetry, as reported when the session ends.
    pub fn summary(&self) -> (r: OutboundSessionSummary)
        ensures
            r.command_count == self.command_count,
            r.protocol_errors == self.protocol_errors,
            r.temporary_failures == self.temporary_failures,
            r.resolver_lookups == self.resolver_lookups,
            r.mx_candidates_attempted == self.mx_candidates_attempted,
            r.remote_session_established == self.remote_session_established,
            r.selected_mx == self.selected_mx,
            r.selected_recipient_domain == self.selected_recipient_domain,
            r.effective_tls_policy == self.effective_tls_policy,
            r.opportunistic_tls_fallbacks == self.opportunistic_tls_fallbacks,
            r.policy_deferred_failures == self.policy_deferred_failures,
            r.tls_negotiated == self.tls_negotiated,
    {
        OutboundSessionSummary {
            command_count: self.command_count,
            protocol_errors: self.protocol_errors,
            temporary_failures: self.temporary_failures,
            resolver_lookups: self.resolver_lookups,
            mx_candidates_attempted: self.mx_candidates_attempted,
            remote_session_established: self.remote_session_established,
            selected_mx: match &self.selected_mx {
                Some(x) => Some(x.clone()),
                None => None,
            },
            selected_recipient_domain: match &self.selected_recipient_domain {
                Some(x) => Some(x.clone()),
                None => None,
            },
            effective_tls_policy: self.effective_tls_policy,
            opportunistic_tls_fallbacks: self.opportunistic_tls_fallbacks,
            policy_deferred_failures: self.policy_deferred_failures,
            tls_negotiated: self.tls_negotiated,
        }
    }
}

/// Builds the diagnostic for a remote reply outside the expected class.
fn remote_err(stage: &str, r: &SmtpReply) -> (m: String)
    requires
        r.code <= 999,
    ensures
        m@ == remote_stage_err(stage@, r.code as int, r.lines.deep_view()),
{
    let mut s = String::from_str(stage);
    s.append(" was non-2xx (");
    let digits = crate::text::code_to_digits(r.code);
    s.append(digits.as_str());
    s.append("): ");
    let joined = crate::text::join_pipe(&r.lines);
    s.append(joined.as_str());
    s
}

} // verus!

verus! {

impl OutboundSessionCore {
    /// Takes one event and answers with the next action for the driver.
    ///
    /// The whole outbound protocol is pinned by [`outbound_step_post`]. The
    /// extra clauses state the session laws: an over-long client line is
    /// answered locally with nothing forwarded; after a 2xx final DATA reply
    /// the staged MAIL is cleared with the relay kept, after a mapped
    /// non-2xx it is preserved, and when the relay dies the transaction dies
    /// with it; accepted recipients only accumulate under one recorded
    /// domain, which never changes while set and is only cleared together
    /// with the recipient count.
    pub fn step(&mut self, event: SessionEvent) -> (a: SessionAction)
        requires
            old(self).expects(event),
            old(self).counters_ok(),
            old(self).wf(),
        ensures
            outbound_step_post(*old(self), event, *final(self), a),
            final(self).config == old(self).config,
            final(self).wf(),
            event matches SessionEvent::ClientLine(l) && wire_len(l@)
                > old(self).config.max_line_len ==> !crate::session::forwards_upstream(a) && (a
                is Reply),
            old(self).mode matches OutboundMode::Failover(fo) ==> ((fo.policy is RequireTls
                && final(self).relay_live) ==> final(self).relay_tls),
            old(self).mode is AwaitDataFinal && (event matches SessionEvent::UpstreamReply(r) && r.code
                / 100 == 2) ==> final(self).staged_mail_from is None && final(self).relay_live
                == old(self).relay_live,
            old(self).mode is AwaitDataFinal && (event matches SessionEvent::UpstreamReply(r) && r.code
                / 100 != 2) ==> final(self).staged_mail_from == old(self).staged_mail_from
                && final(self).relay_live == old(self).relay_live,
            old(self).mode is AwaitDataFinal && event is UpstreamFailed
                ==> !final(self).relay_live && final(self).staged_mail_from is None,
            final(self).recipient_count > old(self).recipient_count ==> old(self).mode
                is AwaitRcptReply && final(self).recipient_domain == old(self).recipient_domain
                && old(self).recipient_domain is Some,
            old(self).recipient_domain matches Some(od) ==> (final(self).recipient_domain
                matches Some(nd) ==> nd@ == od@),
            final(self).recipient_domain is None && old(self).recipient_domain is Some
                ==> final(self).recipient_count == 0,
            final(self).command_count >= old(self).command_count,
            final(self).protocol_errors >= old(self).protocol_errors,
            final(self).temporary_failures >= old(self).temporary_failures,
            final(self).policy_deferred_failures >= old(self).policy_deferred_failures,
    {
        let ghost pre = *old(self);
        let mut mode = OutboundMode::Closed;
        core::mem::swap(&mut self.mode, &mut mode);
        match mode {
            OutboundMode::Command => match event {
                SessionEvent::ClientClosed => {
                    self.mode = OutboundMode::Closed;
                    SessionAction::CloseSession
                },
                SessionEvent::ClientLine(line) => self.handle_command_line(Ghost(pre), line),
                _ => {
                    proof {
                        assert(false);
                    }
                    SessionAction::CloseSession
                },
            },
            OutboundMode::Resolving { rcpt_line, domain, policy } => match event {
                SessionEvent::MxResolved(Ok(v)) => {
                    let sorted = sort_candidates(&v);
                    proof {
                        crate::mx::lemma_stable_sort_sorted(v@);
                    }
                    if sorted.len() == 0 {
                        self.temporary_failures = self.temporary_failures + 1;
                        self.mode = OutboundMode::Command;
                        let mut msg = String::from_str(
                            "451 4.4.0 Outbound MX temporarily unavailable: ",
                        );
                        msg.append("resolver returned no MX records for ");
                        msg.append(domain.as_str());
                        let mut lines: Vec<String> = Vec::new();
                        lines.push(msg);
                        proof {
                            assert(lines.deep_view() =~~= seq![
                                "451 4.4.0 Outbound MX temporarily unavailable: "@
                                    + "resolver returned no MX records for "@ + domain@,
                            ]);
                        }
                        SessionAction::Reply { lines }
                    } else {
                        self.mx_candidates_attempted = self.mx_candidates_attempted + 1;
                        let address = sorted[0].address.clone();
                        let f = FailoverState {
                            candidates: sorted,
                            next: 0,
                            phase: ConnectPhase::Dialing,
                            plaintext_retry: false,
                            tls: false,
                            last_error: String::new(),
                            rcpt_line,
                            domain,
                            policy,
                        };
                        self.mode = OutboundMode::Failover(f);
                        SessionAction::ConnectUpstream { address }
                    }
                },
                SessionEvent::MxResolved(Err(e)) => {
                    self.temporary_failures = self.temporary_failures + 1;
                    self.mode = OutboundMode::Command;
                    let m = crate::mx::mx_resolution_error_to_io(e);
                    crate::session::reply_cat2(
                        "451 4.4.0 Outbound MX temporarily unavailable: ",
                        m.as_str(),
                    )
                },
                _ => {
                    proof {
                        assert(false);
                    }
                    SessionAction::CloseSession
                },
            },
            OutboundMode::Failover(fo) => self.handle_failover(Ghost(pre), fo, event),
            OutboundMode::AwaitRcptReply => match event {
                SessionEvent::UpstreamReply(r) => {
                    if r.code_class() == 2 {
                        self.recipient_count = self.recipient_count + 1;
                        self.mode = OutboundMode::Command;
                        crate::session::reply_lit("250 2.1.5 Recipient accepted for remote delivery")
                    } else {
                        self.temporary_failures = self.temporary_failures + 1;
                        self.mode = OutboundMode::Command;
                        let line = map_remote_status(RelayStage::Rcpt, r.code);
                        let mut lines: Vec<String> = Vec::new();
                        lines.push(line);
                        proof {
                            assert(lines.deep_view() =~~= seq![
                                deferred_line(RelayStage::Rcpt, r.code as int),
                            ]);
                        }
                        SessionAction::Reply { lines }
                    }
                },
                SessionEvent::UpstreamFailed(m) => {
                    self.relay_live = false;
                    self.relay_tls = false;
                    self.staged_mail_from = None;
                    self.recipient_domain = None;
                    self.recipient_count = 0;
                    self.temporary_failures = self.temporary_failures + 1;
                    self.mode = OutboundMode::Command;
                    crate::session::reply_cat2("451 4.4.0 Remote RCPT relay failure: ", m.as_str())
                },
                _ => {
                    proof {
                        assert(false);
                    }
                    SessionAction::CloseSession
                },
            },
            OutboundMode::AwaitDataReply => match event {
                SessionEvent::UpstreamReply(r) => {
                    if r.code_class() == 3 {
                        self.mode = OutboundMode::Streaming;
                    } else {
                        self.mode = OutboundMode::Command;
                    }
                    crate::session::reply_forward(r)
                },
                SessionEvent::UpstreamFailed(m) => {
                    self.relay_live = false;
                    self.relay_tls = false;
                    self.staged_mail_from = None;
                    self.recipient_domain = None;
                    self.recipient_count = 0;
                    self.temporary_failures = self.temporary_failures + 1;
                    self.mode = OutboundMode::Command;
                    crate::session::reply_cat2("451 4.4.0 Remote DATA relay failure: ", m.as_str())
                },
                _ => {
                    proof {
                        assert(false);
                    }
                    SessionAction::CloseSession
                },
            },
            OutboundMode::Streaming => match event {
                SessionEvent::ClientLine(line) => {
                    if line_byte_len(line.as_str()) > self.config.max_line_len {
                        self.relay_live = false;
                        self.relay_tls = false;
                        self.staged_mail_from = None;
                        self.recipient_domain = None;
                        self.recipient_count = 0;
                        self.temporary_failures = self.temporary_failures + 1;
                        self.mode = OutboundMode::Command;
                        crate::session::reply_cat2(
                            "451 4.4.0 Remote DATA payload relay failure: ",
                            "DATA line exceeds max_line_len during relay",
                        )
                    } else if is_data_terminator(line.as_str()) {
                        self.mode = OutboundMode::AwaitDataFinal;
                        SessionAction::ForwardDataEnd { line }
                    } else {
                        self.mode = OutboundMode::Streaming;
                        SessionAction::ForwardData { line }
                    }
                },
                SessionEvent::ClientClosed => {
                    self.relay_live = false;
                    self.relay_tls = false;
                    self.staged_mail_from = None;
                    self.recipient_domain = None;
                    self.recipient_count = 0;
                    self.temporary_failures = self.temporary_failures + 1;
                    self.mode = OutboundMode::Command;
                    crate::session::reply_cat2(
                        "451 4.4.0 Remote DATA payload relay failure: ",
                        "connection closed during DATA relay",
                    )
                },
                SessionEvent::UpstreamFailed(m) => {
                    self.relay_live = false;
                    self.relay_tls = false;
                    self.staged_mail_from = None;
                    self.recipient_domain = None;
                    self.recipient_count = 0;
                    self.temporary_failures = self.temporary_failures + 1;
                    self.mode = OutboundMode::Command;
                    crate::session::reply_cat2(
                        "451 4.4.0 Remote DATA payload relay failure: ",
                        m.as_str(),
                    )
                },
                _ => {
                    proof {
                        assert(false);
                    }
                    SessionAction::CloseSession
                },
            },
            OutboundMode::AwaitDataFinal => match event {
                SessionEvent::UpstreamReply(r) => {
                    if r.code_class() == 2 {
                        self.staged_mail_from = None;
                        self.recipient_domain = None;
                        self.recipient_count = 0;
                        self.mode = OutboundMode::Command;
                        crate::session::reply_lit("250 2.0.0 Message accepted by remote MX")
                    } else {
                        self.temporary_failures = self.temporary_failures + 1;
                        self.mode = OutboundMode::Command;
                        let line = map_remote_status(RelayStage::DataFinal, r.code);
                        let mut lines: Vec<String> = Vec::new();
                        lines.push(line);
                        proof {
                            assert(lines.deep_view() =~~= seq![
                                deferred_line(RelayStage::DataFinal, r.code as int),
                            ]);
                        }
                        SessionAction::Reply { lines }
                    }
                },
                SessionEvent::UpstreamFailed(m) => {
                    self.relay_live = false;
                    self.relay_tls = false;
                    self.staged_mail_from = None;
                    self.recipient_domain = None;
                    self.recipient_count = 0;
                    self.temporary_failures = self.temporary_failures + 1;
                    self.mode = OutboundMode::Command;
                    crate::session::reply_cat2(
                        "451 4.4.0 Remote DATA payload relay failure: ",
                        m.as_str(),
                    )
                },
                _ => {
                    proof {
                        assert(false);
                    }
                    SessionAction::CloseSession
                },
            },
            OutboundMode::AwaitRelayReply { rc } => match event {
                SessionEvent::UpstreamReply(r) => match rc {
                    RelayCmd::Quit => {
                        self.mode = OutboundMode::Closed;
                        crate::session::reply_forward_close(r)
                    },
                    _ => {
                        self.mode = OutboundMode::Command;
                        crate::session::reply_forward(r)
                    },
                },
                SessionEvent::UpstreamFailed(m) => match rc {
                    RelayCmd::Quit => {
                        self.mode = OutboundMode::Closed;
                        crate::session::reply_close_lit("221 2.0.0 Bye")
                    },
                    RelayCmd::Rset => {
                        self.relay_live = false;
                        self.relay_tls = false;
                        self.staged_mail_from = None;
                        self.recipient_domain = None;
                        self.recipient_count = 0;
                        self.temporary_failures = self.temporary_failures + 1;
                        self.mode = OutboundMode::Command;
                        crate::session::reply_cat2(
                            "451 4.4.0 Remote RSET relay failure: ",
                            m.as_str(),
                        )
                    },
                    RelayCmd::Noop => {
                        self.relay_live = false;
                        self.relay_tls = false;
                        self.staged_mail_from = None;
                        self.recipient_domain = None;
                        self.recipient_count = 0;
                        self.temporary_failures = self.temporary_failures + 1;
                        self.mode = OutboundMode::Command;
                        crate::session::reply_cat2(
                            "451 4.4.0 Remote NOOP relay failure: ",
                            m.as_str(),
                        )
                    },
                },
                _ => {
                    proof {
                        assert(false);
                    }
                    SessionAction::CloseSession
                },
            },
            OutboundMode::Closed => {
                proof {
                    assert(false);
                }
                SessionAction::CloseSession
            },
        }
    }

    /// Handles one raw client line in command mode.
    fn handle_command_line(&mut self, Ghost(pre): Ghost<OutboundSessionCore>, line: String) -> (a:
        SessionAction)
        requires
            *old(self) == (OutboundSessionCore { mode: OutboundMode::Closed, ..pre }),
            pre.mode is Command,
            pre.counters_ok(),
            pre.wf(),
        ensures
            ob_command_post(pre, line@, *final(self), a),
            final(self).wf(),
            wire_len(line@) > pre.config.max_line_len ==> !crate::session::forwards_upstream(a)
                && (a is Reply),
    {
        if line_byte_len(line.as_str()) > self.config.max_line_len {
            self.protocol_errors = self.protocol_errors + 1;
            self.mode = OutboundMode::Command;
            return crate::session::reply_lit("500 5.5.2 Line too long");
        }
        let cmd = trim_crlf(line.as_str());
        if cmd.as_str().unicode_len() == 0 {
            self.protocol_errors = self.protocol_errors + 1;
            self.mode = OutboundMode::Command;
            return crate::session::reply_lit("500 5.5.2 Empty command");
        }
        self.command_count = self.command_count + 1;
        let (verb, arg) = split_command(cmd.as_str());
        let v = verb.as_str();
        if crate::text::str_eq(v, "EHLO") || crate::text::str_eq(v, "HELO") {
            self.ehlo_seen = true;
            self.mode = OutboundMode::Command;
            let mut greet = String::from_str("250-");
            greet.append(self.config.banner_host.as_str());
            greet.append(" greets ");
            if arg.as_str().unicode_len() == 0 {
                greet.append("postfix");
            } else {
                greet.append(arg.as_str());
            }
            let mut lines: Vec<String> = Vec::new();
            lines.push(greet);
            lines.push(String::from_str("250 SIZE 10485760"));
            proof {
                let c = trim_crlf_seq(line@);
                assert(lines.deep_view() =~~= ob_ehlo_reply_lines(
                    pre.config.banner_host@,
                    ob_ehlo_target(argument_of(c)),
                ));
            }
            return SessionAction::Reply { lines };
        }
        if crate::text::str_eq(v, "MAIL") {
            if !self.ehlo_seen {
                self.protocol_errors = self.protocol_errors + 1;
                self.mode = OutboundMode::Command;
                return crate::session::reply_lit("503 5.5.1 Send EHLO before MAIL");
            }
            if !is_mail_from_argument(arg.as_str()) {
                self.protocol_errors = self.protocol_errors + 1;
                self.mode = OutboundMode::Command;
                return crate::session::reply_lit("501 5.5.4 MAIL requires FROM:<address>");
            }
            self.staged_mail_from = Some(cmd);
            self.recipient_domain = None;
            self.recipient_count = 0;
            self.selected_mx = None;
            self.relay_live = false;
            self.relay_tls = false;
            self.mode = OutboundMode::Command;
            return crate::session::reply_lit("250 2.1.0 Sender staged for outbound relay");
        }
        if crate::text::str_eq(v, "RCPT") {
            if !self.ehlo_seen {
                self.protocol_errors = self.protocol_errors + 1;
                self.mode = OutboundMode::Command;
                return crate::session::reply_lit("503 5.5.1 Send EHLO before RCPT");
            }
            let has_staged = match &self.staged_mail_from {
                Some(_) => true,
                None => false,
            };
            if !has_staged {
                self.protocol_errors = self.protocol_errors + 1;
                self.mode = OutboundMode::Command;
                return crate::session::reply_lit("503 5.5.1 Send MAIL before RCPT");
            }
            let domain = match parse_recipient_domain(arg.as_str()) {
                Some(d) => d,
                None => {
                    self.protocol_errors = self.protocol_errors + 1;
                    self.mode = OutboundMode::Command;
                    return crate::session::reply_lit("501 5.1.3 Bad recipient address syntax");
                },
            };
            let mixed = match &self.recipient_domain {
                Some(existing) => !crate::text::str_eq(existing.as_str(), domain.as_str()),
                None => false,
            };
            if mixed {
                self.temporary_failures = self.temporary_failures + 1;
                self.mode = OutboundMode::Command;
                return crate::session::reply_lit(
                    "451 4.5.3 Mixed recipient domains are not supported",
                );
            }
            if self.relay_live {
                let record = match &self.recipient_domain {
                    Some(_) => false,
                    None => true,
                };
                if record {
                    self.recipient_domain = Some(domain);
                }
                self.mode = OutboundMode::AwaitRcptReply;
                return SessionAction::SendUpstream { line: cmd };
            }
            self.resolver_lookups = self.resolver_lookups + 1;
            let policy = resolve_effective_policy(&self.config, domain.as_str());
            self.effective_tls_policy = Some(policy);
            let record = match &self.recipient_domain {
                Some(_) => false,
                None => true,
            };
            if record {
                self.recipient_domain = Some(domain.clone());
            }
            let resolve_domain = domain.clone();
            self.mode = OutboundMode::Resolving { rcpt_line: cmd, domain, policy };
            return SessionAction::ResolveMx { domain: resolve_domain };
        }
        if crate::text::str_eq(v, "DATA") {
            if !self.ehlo_seen {
                self.protocol_errors = self.protocol_errors + 1;
                self.mode = OutboundMode::Command;
                return crate::session::reply_lit("503 5.5.1 Send EHLO before DATA");
            }
            let has_staged = match &self.staged_mail_from {
                Some(_) => true,
                None => false,
            };
            if !has_staged {
                self.protocol_errors = self.protocol_errors + 1;
                self.mode = OutboundMode::Command;
                return crate::session::reply_lit("503 5.5.1 Send MAIL before DATA");
            }
            if self.recipient_count == 0 {
                self.protocol_errors = self.protocol_errors + 1;
                self.mode = OutboundMode::Command;
                return crate::session::reply_lit("503 5.5.1 Send RCPT before DATA");
            }
            if !self.relay_live {
                self.temporary_failures = self.temporary_failures + 1;
                self.mode = OutboundMode::Command;
                return crate::session::reply_lit("451 4.4.0 Outbound relay session is unavailable");
            }
            self.mode = OutboundMode::AwaitDataReply;
            return SessionAction::SendUpstream { line: cmd };
        }
        if crate::text::str_eq(v, "RSET") {
            self.staged_mail_from = None;
            self.recipient_domain = None;
            self.recipient_count = 0;
            if self.relay_live {
                self.mode = OutboundMode::AwaitRelayReply { rc: RelayCmd::Rset };
                return SessionAction::SendUpstream { line: cmd };
            }
            self.mode = OutboundMode::Command;
            return crate::session::reply_lit("250 2.0.0 Reset state");
        }
        if crate::text::str_eq(v, "NOOP") {
            if self.relay_live {
                self.mode = OutboundMode::AwaitRelayReply { rc: RelayCmd::Noop };
                return SessionAction::SendUpstream { line: cmd };
            }
            self.mode = OutboundMode::Command;
            return crate::session::reply_lit("250 2.0.0 OK");
        }
        if crate::text::str_eq(v, "QUIT") {
            if self.relay_live {
                self.mode = OutboundMode::AwaitRelayReply { rc: RelayCmd::Quit };
                return SessionAction::SendUpstream { line: cmd };
            }
            self.mode = OutboundMode::Closed;
            return crate::session::reply_close_lit("221 2.0.0 Bye");
        }
        self.protocol_errors = self.protocol_errors + 1;
        self.mode = OutboundMode::Command;
        crate::session::reply_lit("502 5.5.1 Command not implemented")
    }

    /// A copy of the staged MAIL command.
    fn staged_line(&self) -> (m: String)
        requires
            self.staged_mail_from is Some,
        ensures
            self.staged_mail_from matches Some(x) && m@ == x@,
    {
        match &self.staged_mail_from {
            Some(x) => x.clone(),
            None => {
                proof {
                    assert(false);
                }
                String::new()
            },
        }
    }

    /// Handles one event of the MX failover scan.
    fn handle_failover(
        &mut self,
        Ghost(pre): Ghost<OutboundSessionCore>,
        fo: FailoverState,
        event: SessionEvent,
    ) -> (a: SessionAction)
        requires
            *old(self) == (OutboundSessionCore { mode: OutboundMode::Closed, ..pre }),
            pre.mode == OutboundMode::Failover(fo),
            pre.expects(event),
            pre.counters_ok(),
            pre.wf(),
        ensures
            failover_step_post(pre, fo, event, *final(self), a),
            final(self).wf(),
            fo.policy is RequireTls && final(self).relay_live ==> final(self).relay_tls,
    {
        let ghost fo0 = fo;
        match fo.phase {
            ConnectPhase::Dialing => match event {
                SessionEvent::ConnectOk => {
                    let mut f2 = fo;
                    f2.phase = ConnectPhase::AwaitBanner;
                    self.mode = OutboundMode::Failover(f2);
                    SessionAction::AwaitUpstreamReply
                },
                SessionEvent::ConnectFailed(m) => self.fail_candidate(Ghost(pre), fo, m),
                _ => {
                    proof {
                        assert(false);
                    }
                    SessionAction::CloseSession
                },
            },
            ConnectPhase::AwaitBanner => match event {
                SessionEvent::UpstreamReply(r) => {
                    if r.code_class() == 2 {
                        let mut f2 = fo;
                        f2.phase = ConnectPhase::AwaitEhlo;
                        self.mode = OutboundMode::Failover(f2);
                        let mut hello = String::from_str("EHLO ");
                        hello.append(self.config.banner_host.as_str());
                        SessionAction::SendUpstream { line: hello }
                    } else {
                        let msg = remote_err("remote MX banner", &r);
                        self.fail_candidate(Ghost(pre), fo, msg)
                    }
                },
                SessionEvent::UpstreamFailed(m) => self.fail_candidate(Ghost(pre), fo, m),
                _ => {
                    proof {
                        assert(false);
                    }
                    SessionAction::CloseSession
                },
            },
            ConnectPhase::AwaitEhlo => match event {
                SessionEvent::UpstreamReply(r) => {
                    if r.code_class() != 2 {
                        let msg = remote_err("remote MX EHLO", &r);
                        self.fail_candidate(Ghost(pre), fo, msg)
                    } else if fo.plaintext_retry {
                        let staged = self.staged_line();
                        let mut f2 = fo;
                        f2.phase = ConnectPhase::AwaitMail;
                        self.mode = OutboundMode::Failover(f2);
                        SessionAction::SendUpstream { line: staged }
                    } else if reply_advertises_starttls(&r) {
                        let mut f2 = fo;
                        f2.phase = ConnectPhase::AwaitStartTlsReply;
                        self.mode = OutboundMode::Failover(f2);
                        SessionAction::SendUpstream { line: String::from_str("STARTTLS") }
                    } else {
                        let require = match fo.policy {
                            OutboundTlsPolicy::RequireTls => true,
                            OutboundTlsPolicy::Opportunistic => false,
                        };
                        if require {
                            let msg = String::from_str("remote MX does not advertise STARTTLS");
                            self.fail_candidate(Ghost(pre), fo, msg)
                        } else {
                            let staged = self.staged_line();
                            let mut f2 = fo;
                            f2.phase = ConnectPhase::AwaitMail;
                            self.mode = OutboundMode::Failover(f2);
                            SessionAction::SendUpstream { line: staged }
                        }
                    }
                },
                SessionEvent::UpstreamFailed(m) => self.fail_candidate(Ghost(pre), fo, m),
                _ => {
                    proof {
                        assert(false);
                    }
                    SessionAction::CloseSession
                },
            },
            ConnectPhase::AwaitStartTlsReply => match event {
                SessionEvent::UpstreamReply(r) => {
                    if r.code_class() == 2 {
                        let mut f2 = fo;
                        f2.phase = ConnectPhase::AwaitTls;
                        self.mode = OutboundMode::Failover(f2);
                        SessionAction::StartTlsUpgrade
                    } else {
                        let require = match fo.policy {
                            OutboundTlsPolicy::RequireTls => true,
                            OutboundTlsPolicy::Opportunistic => false,
                        };
                        if require {
                            let msg = remote_err("remote MX STARTTLS", &r);
                            self.fail_candidate(Ghost(pre), fo, msg)
                        } else {
                            self.fall_back(Ghost(pre), fo)
                        }
                    }
                },
                SessionEvent::UpstreamFailed(m) => self.fail_candidate(Ghost(pre), fo, m),
                _ => {
                    proof {
                        assert(false);
                    }
                    SessionAction::CloseSession
                },
            },
            ConnectPhase::AwaitTls => match event {
                SessionEvent::TlsOk => {
                    let mut f2 = fo;
                    f2.phase = ConnectPhase::AwaitEhloAfterTls;
                    f2.tls = true;
                    self.mode = OutboundMode::Failover(f2);
                    let mut hello = String::from_str("EHLO ");
                    hello.append(self.config.banner_host.as_str());
                    SessionAction::SendUpstream { line: hello }
                },
                SessionEvent::TlsFailed(m) => {
                    let require = match fo.policy {
                        OutboundTlsPolicy::RequireTls => true,
                        OutboundTlsPolicy::Opportunistic => false,
                    };
                    if require {
                        let mut msg = String::from_str("TLS upgrade failed: ");
                        msg.append(m.as_str());
                        self.fail_candidate(Ghost(pre), fo, msg)
                    } else {
                        self.fall_back(Ghost(pre), fo)
                    }
                },
                _ => {
                    proof {
                        assert(false);
                    }
                    SessionAction::CloseSession
                },
            },
            ConnectPhase::AwaitEhloAfterTls => match event {
                SessionEvent::UpstreamReply(r) => {
                    if r.code_class() == 2 {
                        let staged = self.staged_line();
                        let mut f2 = fo;
                        f2.phase = ConnectPhase::AwaitMail;
                        self.mode = OutboundMode::Failover(f2);
                        SessionAction::SendUpstream { line: staged }
                    } else {
                        let msg = remote_err("remote MX EHLO", &r);
                        self.fail_candidate(Ghost(pre), fo, msg)
                    }
                },
                SessionEvent::UpstreamFailed(m) => self.fail_candidate(Ghost(pre), fo, m),
                _ => {
                    proof {
                        assert(false);
                    }
                    SessionAction::CloseSession
                },
            },
            ConnectPhase::AwaitMail => match event {
                SessionEvent::UpstreamReply(r) => {
                    if r.code_class() == 2 {
                        self.relay_live = true;
                        self.relay_tls = fo.tls;
                        self.tls_negotiated = self.tls_negotiated || fo.tls;
                        self.remote_session_established = true;
                        self.selected_mx = Some(fo.candidates[fo.next].exchange.clone());
                        self.selected_recipient_domain = Some(fo.domain.clone());
                        self.mode = OutboundMode::AwaitRcptReply;
                        SessionAction::SendUpstream { line: fo.rcpt_line }
                    } else {
                        let msg = remote_err("remote MX MAIL", &r);
                        self.fail_candidate(Ghost(pre), fo, msg)
                    }
                },
                SessionEvent::UpstreamFailed(m) => self.fail_candidate(Ghost(pre), fo, m),
                _ => {
                    proof {
                        assert(false);
                    }
                    SessionAction::CloseSession
                },
            },
        }
    }

    /// Records the current candidate's failure and moves the scan along:
    /// the next candidate is dialed, or the RCPT is answered with the final
    /// error.
    fn fail_candidate(
        &mut self,
        Ghost(pre): Ghost<OutboundSessionCore>,
        fo: FailoverState,
        reason: String,
    ) -> (a: SessionAction)
        requires
            *old(self) == (OutboundSessionCore { mode: OutboundMode::Closed, ..pre }),
            pre.mode == OutboundMode::Failover(fo),
            fo.next < fo.candidates@.len(),
            pre.counters_ok(),
            pre.wf(),
        ensures
            candidate_failed_post(pre, fo, reason@, *final(self), a),
            final(self).wf(),
    {
        let mut err = String::from_str("candidate ");
        err.append(fo.candidates[fo.next].exchange.as_str());
        err.append(" failed: ");
        err.append(reason.as_str());
        let n = fo.candidates.len();
        assert(fo.next < n);
        if fo.next + 1 < n {
            self.mx_candidates_attempted = self.mx_candidates_attempted + 1;
            let address = fo.candidates[fo.next + 1].address.clone();
            let mut f2 = fo;
            f2.next = f2.next + 1;
            f2.phase = ConnectPhase::Dialing;
            f2.plaintext_retry = false;
            f2.tls = false;
            f2.last_error = err;
            self.mode = OutboundMode::Failover(f2);
            SessionAction::ConnectUpstream { address }
        } else {
            self.temporary_failures = self.temporary_failures + 1;
            let require = match fo.policy {
                OutboundTlsPolicy::RequireTls => true,
                OutboundTlsPolicy::Opportunistic => false,
            };
            self.mode = OutboundMode::Command;
            if require {
                self.policy_deferred_failures = self.policy_deferred_failures + 1;
                crate::session::reply_cat2("451 4.7.5 Outbound TLS policy defer: ", err.as_str())
            } else {
                crate::session::reply_cat2(
                    "451 4.4.0 Outbound MX temporarily unavailable: ",
                    err.as_str(),
                )
            }
        }
    }

    /// Abandons the opportunistic TLS attempt and redials the same
    /// candidate in plaintext.
    fn fall_back(&mut self, Ghost(pre): Ghost<OutboundSessionCore>, fo: FailoverState) -> (a:
        SessionAction)
        requires
            *old(self) == (OutboundSessionCore { mode: OutboundMode::Closed, ..pre }),
            pre.mode == OutboundMode::Failover(fo),
            fo.policy is Opportunistic,
            fo.next < fo.candidates@.len(),
            pre.counters_ok(),
            pre.wf(),
        ensures
            fallback_post(pre, fo, *final(self), a),
            final(self).wf(),
    {
        self.opportunistic_tls_fallbacks = self.opportunistic_tls_fallbacks + 1;
        self.mx_candidates_attempted = self.mx_candidates_attempted + 1;
        let address = fo.candidates[fo.next].address.clone();
        let mut f2 = fo;
        f2.phase = ConnectPhase::Dialing;
        f2.plaintext_retry = true;
        f2.tls = false;
        self.mode = OutboundMode::Failover(f2);
        SessionAction::ConnectUpstream { address }
    }
}

} // verus!
