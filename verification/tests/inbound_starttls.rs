use verzola_proxy::inbound::{InboundSessionCore, InboundTlsPolicy, ListenerConfig};
use verzola_proxy::session::{SessionAction, SessionEvent};

fn test_config() -> ListenerConfig {
    ListenerConfig {
        bind_addr: "127.0.0.1:0".to_string(),
        banner_host: "mx.verzola.test".to_string(),
        advertise_starttls: true,
        inbound_tls_policy: InboundTlsPolicy::Opportunistic,
        max_line_len: 4096,
        postfix_upstream_addr: None,
    }
}

fn reply_of(action: SessionAction) -> Vec<String> {
    match action {
        SessionAction::Reply { lines } => lines,
        SessionAction::ReplyAndClose { lines } => lines,
        SessionAction::ReplyThenTls { lines } => lines,
        _ => panic!("expected a client reply action"),
    }
}

fn send(core: &mut InboundSessionCore, line: &str) -> SessionAction {
    core.step(SessionEvent::ClientLine(line.to_string()))
}

#[test]
fn starttls_success_requires_ehlo_reset() {
    let mut core = InboundSessionCore::new(test_config());

    let banner = core.banner_line();
    assert!(banner.starts_with("220 "));

    let ehlo_reply = reply_of(send(&mut core, "EHLO client.example\r\n"));
    assert!(ehlo_reply.iter().any(|line| line == "250-STARTTLS"));

    let starttls_reply = reply_of(send(&mut core, "STARTTLS\r\n"));
    assert_eq!(starttls_reply, vec!["220 Ready to start TLS".to_string()]);

    // The handshake succeeds; the greeting must be repeated.
    let after_tls = core.step(SessionEvent::TlsOk);
    assert!(matches!(after_tls, SessionAction::AwaitClientLine));

    let needs_ehlo_reply = reply_of(send(&mut core, "MAIL FROM:<alice@example.com>\r\n"));
    assert_eq!(
        needs_ehlo_reply,
        vec!["503 5.5.1 Send EHLO after STARTTLS".to_string()]
    );

    let ehlo_after_tls = reply_of(send(&mut core, "EHLO client.example\r\n"));
    assert!(!ehlo_after_tls.iter().any(|line| line == "250-STARTTLS"));

    let mail_reply = reply_of(send(&mut core, "MAIL FROM:<alice@example.com>\r\n"));
    assert_eq!(mail_reply, vec!["250 2.1.0 Sender OK".to_string()]);

    let quit_reply = reply_of(send(&mut core, "QUIT\r\n"));
    assert_eq!(quit_reply, vec!["221 2.0.0 Bye".to_string()]);

    let summary = core.summary();
    assert!(summary.tls_negotiated);
}

#[test]
fn starttls_failure_maps_to_454() {
    let mut core = InboundSessionCore::new(test_config());

    let _ = reply_of(send(&mut core, "EHLO failing-client\r\n"));

    let ready_reply = reply_of(send(&mut core, "STARTTLS\r\n"));
    assert_eq!(ready_reply, vec!["220 Ready to start TLS".to_string()]);

    let failure = core.step(SessionEvent::TlsFailed(
        "simulated handshake failure".to_string(),
    ));
    assert_eq!(
        reply_of(failure),
        vec![
            "454 4.7.0 TLS not available due to temporary reason: simulated handshake failure"
                .to_string()
        ]
    );

    let _ = send(&mut core, "QUIT\r\n");

    let summary = core.summary();
    assert!(!summary.tls_negotiated);
    assert!(summary.protocol_errors >= 1);
}

#[test]
fn starttls_before_ehlo_is_rejected() {
    let mut core = InboundSessionCore::new(test_config());

    let reply = reply_of(send(&mut core, "STARTTLS\r\n"));
    assert_eq!(reply, vec!["503 5.5.1 Send EHLO before STARTTLS".to_string()]);

    let _ = send(&mut core, "QUIT\r\n");

    let summary = core.summary();
    assert!(!summary.tls_negotiated);
    assert!(summary.protocol_errors >= 1);
}

#[test]
fn starttls_is_rejected_when_not_advertised() {
    let mut config = test_config();
    config.advertise_starttls = false;
    let mut core = InboundSessionCore::new(config);

    let _ = send(&mut core, "EHLO c\r\n");
    let reply = reply_of(send(&mut core, "STARTTLS\r\n"));
    assert_eq!(reply, vec!["502 5.5.1 STARTTLS not supported".to_string()]);
}

#[test]
fn starttls_is_rejected_when_already_active() {
    let mut core = InboundSessionCore::new(test_config());

    let _ = send(&mut core, "EHLO c\r\n");
    let _ = send(&mut core, "STARTTLS\r\n");
    let _ = core.step(SessionEvent::TlsOk);
    let _ = send(&mut core, "EHLO c\r\n");
    let reply = reply_of(send(&mut core, "STARTTLS\r\n"));
    assert_eq!(reply, vec!["503 5.5.1 TLS already active".to_string()]);
}
