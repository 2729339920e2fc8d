use verzola_proxy::inbound::{InboundSessionCore, InboundTlsPolicy, ListenerConfig};
use verzola_proxy::session::{SessionAction, SessionEvent};

fn policy_config(policy: InboundTlsPolicy, advertise_starttls: bool) -> ListenerConfig {
    ListenerConfig {
        bind_addr: "127.0.0.1:0".to_string(),
        banner_host: "mx.verzola.test".to_string(),
        advertise_starttls,
        inbound_tls_policy: policy,
        max_line_len: 4096,
        postfix_upstream_addr: None,
    }
}

fn reply_of(action: SessionAction) -> Vec<String> {
    match action {
        SessionAction::Reply { lines } => lines,
        SessionAction::ReplyAndClose { lines } => lines,
        SessionAction::ReplyThenTls { lines } => lines,
        _ => panic!("expected a client reply action"),
    }
}

fn send(core: &mut InboundSessionCore, line: &str) -> SessionAction {
    core.step(SessionEvent::ClientLine(line.to_string()))
}

#[test]
fn opportunistic_policy_allows_plaintext_mail_flow() {
    let mut core = InboundSessionCore::new(
        policy_config(InboundTlsPolicy::Opportunistic, true),
    );

    let ehlo_reply = reply_of(send(&mut core, "EHLO opportunistic.example\r\n"));
    assert!(ehlo_reply.iter().any(|line| line == "250-STARTTLS"));

    assert_eq!(
        reply_of(send(&mut core, "MAIL FROM:<alice@example.com>\r\n")),
        vec!["250 2.1.0 Sender OK".to_string()]
    );

    assert_eq!(
        reply_of(send(&mut core, "QUIT\r\n")),
        vec!["221 2.0.0 Bye".to_string()]
    );

    let summary = core.summary();
    assert_eq!(summary.inbound_tls_policy, InboundTlsPolicy::Opportunistic);
    assert!(!summary.tls_negotiated);
    assert_eq!(summary.telemetry.starttls_attempts, 0);
    assert_eq!(summary.telemetry.tls_upgrade_failures, 0);
    assert_eq!(summary.telemetry.require_tls_rejections, 0);
}

#[test]
fn require_tls_policy_rejects_plaintext_until_starttls() {
    let mut core = InboundSessionCore::new(policy_config(InboundTlsPolicy::RequireTls, true));

    let ehlo_reply = reply_of(send(&mut core, "EHLO secure.example\r\n"));
    assert!(ehlo_reply.iter().any(|line| line == "250-STARTTLS"));

    assert_eq!(
        reply_of(send(&mut core, "MAIL FROM:<alice@example.com>\r\n")),
        vec!["530 5.7.0 Must issue STARTTLS first".to_string()]
    );
    assert_eq!(
        reply_of(send(&mut core, "RCPT TO:<bob@example.net>\r\n")),
        vec!["530 5.7.0 Must issue STARTTLS first".to_string()]
    );
    assert_eq!(
        reply_of(send(&mut core, "DATA\r\n")),
        vec!["530 5.7.0 Must issue STARTTLS first".to_string()]
    );

    assert_eq!(
        reply_of(send(&mut core, "STARTTLS\r\n")),
        vec!["220 Ready to start TLS".to_string()]
    );
    let _ = core.step(SessionEvent::TlsOk);

    let ehlo_after_tls = reply_of(send(&mut core, "EHLO secure.example\r\n"));
    assert!(!ehlo_after_tls.iter().any(|line| line == "250-STARTTLS"));

    assert_eq!(
        reply_of(send(&mut core, "MAIL FROM:<alice@example.com>\r\n")),
        vec!["250 2.1.0 Sender OK".to_string()]
    );

    assert_eq!(
        reply_of(send(&mut core, "QUIT\r\n")),
        vec!["221 2.0.0 Bye".to_string()]
    );

    let summary = core.summary();
    assert_eq!(summary.inbound_tls_policy, InboundTlsPolicy::RequireTls);
    assert!(summary.tls_negotiated);
    assert_eq!(summary.telemetry.starttls_attempts, 1);
    assert_eq!(summary.telemetry.tls_upgrade_failures, 0);
    assert_eq!(summary.telemetry.require_tls_rejections, 3);
}

#[test]
fn require_tls_listener_config_requires_starttls_advertisement() {
    let config = ListenerConfig {
        bind_addr: "127.0.0.1:0".to_string(),
        banner_host: "mx.verzola.test".to_string(),
        advertise_starttls: false,
        inbound_tls_policy: InboundTlsPolicy::RequireTls,
        max_line_len: 4096,
        postfix_upstream_addr: None,
    };

    let error = match config.validate() {
        Ok(()) => panic!("require-tls without STARTTLS advertisement must fail"),
        Err(error) => error,
    };

    assert!(
        error
            .message
            .contains("inbound_tls_policy=require-tls requires advertise_starttls=true"),
        "unexpected error message: {}",
        error.message
    );
}

#[test]
fn telemetry_tracks_tls_failures_and_policy_rejections() {
    let mut core = InboundSessionCore::new(policy_config(InboundTlsPolicy::RequireTls, true));

    let _ = reply_of(send(&mut core, "EHLO failing.example\r\n"));

    assert_eq!(
        reply_of(send(&mut core, "STARTTLS\r\n")),
        vec!["220 Ready to start TLS".to_string()]
    );
    let failure = core.step(SessionEvent::TlsFailed(
        "simulated handshake failure".to_string(),
    ));
    assert_eq!(
        reply_of(failure),
        vec![
            "454 4.7.0 TLS not available due to temporary reason: simulated handshake failure"
                .to_string()
        ]
    );

    assert_eq!(
        reply_of(send(&mut core, "MAIL FROM:<alice@example.com>\r\n")),
        vec!["530 5.7.0 Must issue STARTTLS first".to_string()]
    );

    assert_eq!(
        reply_of(send(&mut core, "QUIT\r\n")),
        vec!["221 2.0.0 Bye".to_string()]
    );

    let summary = core.summary();
    assert_eq!(summary.inbound_tls_policy, InboundTlsPolicy::RequireTls);
    assert!(!summary.tls_negotiated);
    assert_eq!(summary.telemetry.starttls_attempts, 1);
    assert_eq!(summary.telemetry.tls_upgrade_failures, 1);
    assert_eq!(summary.telemetry.require_tls_rejections, 1);
}

#[test]
fn over_long_command_line_is_rejected_locally() {
    let mut core = InboundSessionCore::new(policy_config(InboundTlsPolicy::Opportunistic, true));

    let mut long_line = "a".repeat(4096);
    long_line.push_str("\r\n");
    let action = send(&mut core, &long_line);
    assert_eq!(
        reply_of(action),
        vec!["500 5.5.2 Line too long".to_string()]
    );
    assert_eq!(core.summary().protocol_errors, 1);
    assert_eq!(core.summary().command_count, 0);
}

#[test]
fn empty_and_unknown_commands_count_protocol_errors() {
    let mut core = InboundSessionCore::new(policy_config(InboundTlsPolicy::Opportunistic, true));

    assert_eq!(
        reply_of(send(&mut core, "\r\n")),
        vec!["500 5.5.2 Empty command".to_string()]
    );
    assert_eq!(
        reply_of(send(&mut core, "VRFY alice\r\n")),
        vec!["502 5.5.1 Command not implemented".to_string()]
    );

    let summary = core.summary();
    assert_eq!(summary.protocol_errors, 2);
    assert_eq!(summary.command_count, 1);
}

#[test]
fn inbound_session_accepts_mail_without_upstream() {
    let mut core = InboundSessionCore::new(policy_config(InboundTlsPolicy::Opportunistic, true));

    let ehlo_reply = reply_of(send(&mut core, "EHLO c\r\n"));
    assert_eq!(
        ehlo_reply,
        vec![
            "250-mx.verzola.test greets c".to_string(),
            "250-STARTTLS".to_string(),
            "250 SIZE 10485760".to_string(),
        ]
    );

    assert_eq!(
        reply_of(send(&mut core, "MAIL FROM:<a@x>\r\n")),
        vec!["250 2.1.0 Sender OK".to_string()]
    );
    assert_eq!(
        reply_of(send(&mut core, "RCPT TO:<b@y>\r\n")),
        vec!["250 2.1.5 Recipient OK".to_string()]
    );
    assert_eq!(
        reply_of(send(&mut core, "DATA\r\n")),
        vec!["354 End data with <CR><LF>.<CR><LF>".to_string()]
    );
    let body = core.step(SessionEvent::ClientLine("hello\r\n".to_string()));
    assert!(matches!(body, SessionAction::AwaitClientLine));
    assert_eq!(
        reply_of(send(&mut core, ".\r\n")),
        vec!["250 2.0.0 Queued".to_string()]
    );
    assert_eq!(
        reply_of(send(&mut core, "QUIT\r\n")),
        vec!["221 2.0.0 Bye".to_string()]
    );

    let summary = core.summary();
    assert_eq!(summary.protocol_errors, 0);
    assert_eq!(summary.command_count, 5);
}

#[test]
fn rset_and_noop_answer_locally_without_upstream() {
    let mut core = InboundSessionCore::new(policy_config(InboundTlsPolicy::Opportunistic, true));

    let _ = send(&mut core, "EHLO c\r\n");
    assert_eq!(
        reply_of(send(&mut core, "RSET\r\n")),
        vec!["250 2.0.0 Reset state".to_string()]
    );
    assert_eq!(
        reply_of(send(&mut core, "NOOP\r\n")),
        vec!["250 2.0.0 OK".to_string()]
    );
}
