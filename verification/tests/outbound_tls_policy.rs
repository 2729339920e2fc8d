use verzola_proxy::mx::MxCandidate;
use verzola_proxy::outbound::{
    OutboundDomainTlsPolicy, OutboundListenerConfig, OutboundSessionCore, OutboundTlsPolicy,
};
use verzola_proxy::reply::parse_reply_lines;
use verzola_proxy::session::{SessionAction, SessionEvent};

fn policy_config(
    global: OutboundTlsPolicy,
    rules: Vec<OutboundDomainTlsPolicy>,
) -> OutboundListenerConfig {
    OutboundListenerConfig {
        bind_addr: "127.0.0.1:0".to_string(),
        banner_host: "relay.verzola.test".to_string(),
        outbound_tls_policy: global,
        per_domain_tls_policies: rules,
        max_line_len: 4096,
    }
}

fn upstream(lines: &[&str]) -> SessionEvent {
    let owned: Vec<String> = lines.iter().map(|l| l.to_string()).collect();
    SessionEvent::UpstreamReply(parse_reply_lines(&owned).expect("test reply must be well framed"))
}

fn reply_of(action: SessionAction) -> Vec<String> {
    match action {
        SessionAction::Reply { lines } => lines,
        SessionAction::ReplyAndClose { lines } => lines,
        _ => panic!("expected a client reply action"),
    }
}

fn send(core: &mut OutboundSessionCore, line: &str) -> SessionAction {
    core.step(SessionEvent::ClientLine(line.to_string()))
}

fn sent_line(action: SessionAction) -> String {
    match action {
        SessionAction::SendUpstream { line } => line,
        _ => panic!("expected a command toward the remote MX"),
    }
}

/// Drives EHLO, MAIL and the RCPT resolution against one candidate and
/// returns once the candidate's TCP connection is up and its banner and
/// extension list (with or without STARTTLS) have been consumed.
fn start_candidate(core: &mut OutboundSessionCore, advertise_starttls: bool) -> SessionAction {
    let _ = reply_of(send(core, "EHLO postfix.local\r\n"));
    assert_eq!(
        reply_of(send(core, "MAIL FROM:<alice@example.org>\r\n")),
        vec!["250 2.1.0 Sender staged for outbound relay".to_string()]
    );
    match send(core, "RCPT TO:<bob@example.net>\r\n") {
        SessionAction::ResolveMx { domain } => assert_eq!(domain, "example.net"),
        _ => panic!("expected an MX resolution"),
    }
    let candidates = vec![
        MxCandidate::new(10, "mx-policy.verzola.test".to_string(), "127.0.0.1:1".to_string())
            .expect("candidate should be valid"),
    ];
    let _ = core.step(SessionEvent::MxResolved(Ok(candidates)));
    let _ = core.step(SessionEvent::ConnectOk);
    let _ = core.step(upstream(&["220 mx.policy.verzola.test ESMTP"]));
    if advertise_starttls {
        core.step(upstream(&[
            "250-mx.policy.verzola.test greets relay",
            "250-STARTTLS",
            "250 SIZE 10485760",
        ]))
    } else {
        core.step(upstream(&[
            "250-mx.policy.verzola.test greets relay",
            "250 SIZE 10485760",
        ]))
    }
}

/// Forwards the RCPT after the staged MAIL was accepted and checks the
/// accepted-recipient reply.
fn accept_rcpt(core: &mut OutboundSessionCore, after_mail: SessionAction) {
    assert_eq!(sent_line(after_mail), "MAIL FROM:<alice@example.org>");
    assert_eq!(
        sent_line(core.step(upstream(&["250 2.1.0 Sender OK (remote mx)"]))),
        "RCPT TO:<bob@example.net>"
    );
    assert_eq!(
        reply_of(core.step(upstream(&["250 2.1.5 Recipient OK (remote mx)"]))),
        vec!["250 2.1.5 Recipient accepted for remote delivery".to_string()]
    );
}

#[test]
fn opportunistic_policy_allows_plaintext_when_starttls_is_unavailable() {
    let mut core = OutboundSessionCore::new(
        policy_config(OutboundTlsPolicy::Opportunistic, Vec::new()),
    );

    // STARTTLS is not offered: the staged MAIL goes out in plaintext.
    let after_mail = start_candidate(&mut core, false);
    accept_rcpt(&mut core, after_mail);

    let quit = send(&mut core, "QUIT\r\n");
    assert_eq!(sent_line(quit), "QUIT");
    assert_eq!(
        reply_of(core.step(upstream(&["221 2.0.0 Remote bye"]))),
        vec!["221 2.0.0 Remote bye".to_string()]
    );

    let summary = core.summary();
    assert_eq!(
        summary.effective_tls_policy,
        Some(OutboundTlsPolicy::Opportunistic)
    );
    assert!(!summary.tls_negotiated);
    assert_eq!(summary.opportunistic_tls_fallbacks, 0);
    assert_eq!(summary.policy_deferred_failures, 0);
    assert_eq!(summary.temporary_failures, 0);
    assert!(summary.remote_session_established);
}

#[test]
fn opportunistic_policy_falls_back_when_starttls_negotiation_fails() {
    let mut core = OutboundSessionCore::new(
        policy_config(OutboundTlsPolicy::Opportunistic, Vec::new()),
    );

    // STARTTLS is offered, tried, and refused: the candidate is redialed in
    // plaintext.
    let starttls = start_candidate(&mut core, true);
    assert_eq!(sent_line(starttls), "STARTTLS");
    match core.step(upstream(&["454 4.7.0 TLS unavailable"])) {
        SessionAction::ConnectUpstream { address } => assert_eq!(address, "127.0.0.1:1"),
        _ => panic!("expected a plaintext redial of the same candidate"),
    }
    let _ = core.step(SessionEvent::ConnectOk);
    let _ = core.step(upstream(&["220 mx.policy.verzola.test ESMTP"]));
    // STARTTLS is advertised again but skipped on the plaintext retry.
    let after_mail = core.step(upstream(&[
        "250-mx.policy.verzola.test greets relay",
        "250-STARTTLS",
        "250 SIZE 10485760",
    ]));
    accept_rcpt(&mut core, after_mail);

    let quit = send(&mut core, "QUIT\r\n");
    assert_eq!(sent_line(quit), "QUIT");
    assert_eq!(
        reply_of(core.step(upstream(&["221 2.0.0 Remote bye"]))),
        vec!["221 2.0.0 Remote bye".to_string()]
    );

    let summary = core.summary();
    assert_eq!(
        summary.effective_tls_policy,
        Some(OutboundTlsPolicy::Opportunistic)
    );
    assert!(!summary.tls_negotiated);
    assert_eq!(summary.opportunistic_tls_fallbacks, 1);
    assert_eq!(summary.policy_deferred_failures, 0);
    assert_eq!(summary.temporary_failures, 0);
    assert!(summary.remote_session_established);
}

#[test]
fn require_tls_policy_defers_when_peer_does_not_advertise_starttls() {
    let mut core = OutboundSessionCore::new(
        policy_config(OutboundTlsPolicy::RequireTls, Vec::new()),
    );

    let rcpt_reply = reply_of(start_candidate(&mut core, false));
    assert!(
        rcpt_reply[0].starts_with("451 4.7.5 Outbound TLS policy defer:"),
        "unexpected RCPT reply: {}",
        rcpt_reply.join(" | ")
    );

    assert_eq!(
        reply_of(send(&mut core, "QUIT\r\n")),
        vec!["221 2.0.0 Bye".to_string()]
    );

    let summary = core.summary();
    assert_eq!(
        summary.effective_tls_policy,
        Some(OutboundTlsPolicy::RequireTls)
    );
    assert!(!summary.tls_negotiated);
    assert_eq!(summary.opportunistic_tls_fallbacks, 0);
    assert_eq!(summary.policy_deferred_failures, 1);
    assert_eq!(summary.temporary_failures, 1);
    assert!(!summary.remote_session_established);
    assert_eq!(summary.selected_mx, None);
}

#[test]
fn per_domain_rule_overrides_global_policy_for_stricter_domain() {
    let rules = vec![
        OutboundDomainTlsPolicy::new("example.net", OutboundTlsPolicy::RequireTls)
            .expect("domain policy should be valid"),
    ];
    let mut core = OutboundSessionCore::new(
        policy_config(OutboundTlsPolicy::Opportunistic, rules),
    );

    let rcpt_reply = reply_of(start_candidate(&mut core, false));
    assert!(
        rcpt_reply[0].starts_with("451 4.7.5 Outbound TLS policy defer:"),
        "unexpected RCPT reply: {}",
        rcpt_reply.join(" | ")
    );

    assert_eq!(
        reply_of(send(&mut core, "QUIT\r\n")),
        vec!["221 2.0.0 Bye".to_string()]
    );

    let summary = core.summary();
    assert_eq!(
        summary.effective_tls_policy,
        Some(OutboundTlsPolicy::RequireTls)
    );
    assert_eq!(summary.policy_deferred_failures, 1);
    assert_eq!(summary.temporary_failures, 1);
    assert!(!summary.remote_session_established);
}

#[test]
fn per_domain_rule_can_relax_global_require_tls_policy() {
    let rules = vec![
        OutboundDomainTlsPolicy::new("example.net", OutboundTlsPolicy::Opportunistic)
            .expect("domain policy should be valid"),
    ];
    let mut core = OutboundSessionCore::new(policy_config(OutboundTlsPolicy::RequireTls, rules));

    let after_mail = start_candidate(&mut core, false);
    accept_rcpt(&mut core, after_mail);

    let quit = send(&mut core, "QUIT\r\n");
    assert_eq!(sent_line(quit), "QUIT");
    assert_eq!(
        reply_of(core.step(upstream(&["221 2.0.0 Remote bye"]))),
        vec!["221 2.0.0 Remote bye".to_string()]
    );

    let summary = core.summary();
    assert_eq!(
        summary.effective_tls_policy,
        Some(OutboundTlsPolicy::Opportunistic)
    );
    assert_eq!(summary.policy_deferred_failures, 0);
    assert_eq!(summary.temporary_failures, 0);
    assert!(summary.remote_session_established);
}

#[test]
fn config_validation_rejects_duplicate_domain_policy_rules() {
    let config = OutboundListenerConfig {
        bind_addr: "127.0.0.1:10025".to_string(),
        banner_host: "relay.verzola.test".to_string(),
        outbound_tls_policy: OutboundTlsPolicy::Opportunistic,
        per_domain_tls_policies: vec![
            OutboundDomainTlsPolicy::new("Example.NET", OutboundTlsPolicy::RequireTls)
                .expect("first domain policy should be valid"),
            OutboundDomainTlsPolicy::new("example.net", OutboundTlsPolicy::Opportunistic)
                .expect("second domain policy should be valid"),
        ],
        max_line_len: 4096,
    };

    let error = config
        .validate()
        .expect_err("duplicate normalized domain policy rules should fail");

    assert!(
        error
            .message
            .contains("per_domain_tls_policies contains duplicate domain rule"),
        "unexpected validation error: {}",
        error.message
    );
}

#[test]
fn require_tls_succeeds_when_the_handshake_completes() {
    let mut core = OutboundSessionCore::new(
        policy_config(OutboundTlsPolicy::RequireTls, Vec::new()),
    );

    let starttls = start_candidate(&mut core, true);
    assert_eq!(sent_line(starttls), "STARTTLS");
    match core.step(upstream(&["220 2.0.0 Ready to start TLS"])) {
        SessionAction::StartTlsUpgrade => {},
        _ => panic!("expected the TLS handshake to begin"),
    }
    // After the upgrade the peer is greeted again, then MAIL goes out.
    assert_eq!(
        sent_line(core.step(SessionEvent::TlsOk)),
        "EHLO relay.verzola.test"
    );
    let after_mail = core.step(upstream(&[
        "250-mx.policy.verzola.test greets relay",
        "250 SIZE 10485760",
    ]));
    accept_rcpt(&mut core, after_mail);

    let summary = core.summary();
    assert!(summary.tls_negotiated);
    assert!(summary.remote_session_established);
    assert_eq!(summary.policy_deferred_failures, 0);
}
