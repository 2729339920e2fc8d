use verzola_proxy::mx::MxCandidate;
use verzola_proxy::outbound::{
    OutboundListenerConfig, OutboundSessionCore, OutboundTlsPolicy,
};
use verzola_proxy::reply::parse_reply_lines;
use verzola_proxy::session::{SessionAction, SessionEvent};

fn orchestration_config() -> OutboundListenerConfig {
    OutboundListenerConfig {
        bind_addr: "127.0.0.1:0".to_string(),
        banner_host: "relay.verzola.test".to_string(),
        outbound_tls_policy: OutboundTlsPolicy::Opportunistic,
        per_domain_tls_policies: Vec::new(),
        max_line_len: 4096,
    }
}

fn candidate(preference: u16, exchange: &str, address: &str) -> MxCandidate {
    MxCandidate::new(preference, exchange.to_string(), address.to_string())
        .expect("candidate should be valid")
}

fn upstream(lines: &[&str]) -> SessionEvent {
    let owned: Vec<String> = lines.iter().map(|l| l.to_string()).collect();
    SessionEvent::UpstreamReply(parse_reply_lines(&owned).expect("test reply must be well framed"))
}

fn reply_of(action: SessionAction) -> Vec<String> {
    match action {
        SessionAction::Reply { lines } => lines,
        SessionAction::ReplyAndClose { lines } => lines,
        _ => panic!("expected a client reply action"),
    }
}

fn send(core: &mut OutboundSessionCore, line: &str) -> SessionAction {
    core.step(SessionEvent::ClientLine(line.to_string()))
}

fn sent_line(action: SessionAction) -> String {
    match action {
        SessionAction::SendUpstream { line } => line,
        _ => panic!("expected a command toward the remote MX"),
    }
}

#[test]
fn orchestrates_outbound_delivery_with_mx_failover() {
    let mut core = OutboundSessionCore::new(orchestration_config());

    let banner = core.banner_line();
    assert!(banner.starts_with("220 "));

    let ehlo_reply = reply_of(send(&mut core, "EHLO postfix.local\r\n"));
    assert!(ehlo_reply.iter().any(|line| line.starts_with("250-")));

    assert_eq!(
        reply_of(send(&mut core, "MAIL FROM:<alice@example.org>\r\n")),
        vec!["250 2.1.0 Sender staged for outbound relay".to_string()]
    );

    // RCPT: resolve, then fail over from the dead primary to the secondary.
    let resolve = send(&mut core, "RCPT TO:<bob@example.net>\r\n");
    match resolve {
        SessionAction::ResolveMx { domain } => assert_eq!(domain, "example.net"),
        _ => panic!("expected an MX resolution"),
    }
    let candidates = vec![
        candidate(10, "mx-primary.verzola.test", "127.0.0.1:1"),
        candidate(20, "mx-secondary.verzola.test", "127.0.0.1:2"),
    ];
    match core.step(SessionEvent::MxResolved(Ok(candidates))) {
        SessionAction::ConnectUpstream { address } => assert_eq!(address, "127.0.0.1:1"),
        _ => panic!("expected a dial of the primary MX"),
    }
    match core.step(SessionEvent::ConnectFailed("connection refused".to_string())) {
        SessionAction::ConnectUpstream { address } => assert_eq!(address, "127.0.0.1:2"),
        _ => panic!("expected a dial of the secondary MX"),
    }
    let _ = core.step(SessionEvent::ConnectOk);
    assert_eq!(
        sent_line(core.step(upstream(&["220 mx.secondary.verzola.test ESMTP"]))),
        "EHLO relay.verzola.test"
    );
    assert_eq!(
        sent_line(core.step(upstream(&[
            "250-mx.secondary.verzola.test greets relay",
            "250 SIZE 10485760",
        ]))),
        "MAIL FROM:<alice@example.org>"
    );
    assert_eq!(
        sent_line(core.step(upstream(&["250 2.1.0 Sender OK (remote mx)"]))),
        "RCPT TO:<bob@example.net>"
    );
    assert_eq!(
        reply_of(core.step(upstream(&["250 2.1.5 Recipient OK (remote mx)"]))),
        vec!["250 2.1.5 Recipient accepted for remote delivery".to_string()]
    );

    assert_eq!(sent_line(send(&mut core, "DATA\r\n")), "DATA");
    assert_eq!(
        reply_of(core.step(upstream(&["354 End data with <CR><LF>.<CR><LF>"]))),
        vec!["354 End data with <CR><LF>.<CR><LF>".to_string()]
    );

    for line in [
        "Subject: outbound orchestration\r\n",
        "\r\n",
        "hello from postfix client\r\n",
    ] {
        match send(&mut core, line) {
            SessionAction::ForwardData { line: relayed } => assert_eq!(relayed, line),
            _ => panic!("body lines must be forwarded verbatim"),
        }
    }
    match send(&mut core, ".\r\n") {
        SessionAction::ForwardDataEnd { line } => assert_eq!(line, ".\r\n"),
        _ => panic!("the terminator must end the body stream"),
    }
    assert_eq!(
        reply_of(core.step(upstream(&["250 2.0.0 Queued as ORCH1"]))),
        vec!["250 2.0.0 Message accepted by remote MX".to_string()]
    );

    let quit = send(&mut core, "QUIT\r\n");
    assert_eq!(sent_line(quit), "QUIT");
    assert_eq!(
        reply_of(core.step(upstream(&["221 2.0.0 Remote bye"]))),
        vec!["221 2.0.0 Remote bye".to_string()]
    );

    let summary = core.summary();
    assert_eq!(summary.protocol_errors, 0);
    assert_eq!(summary.temporary_failures, 0);
    assert_eq!(summary.resolver_lookups, 1);
    assert_eq!(summary.mx_candidates_attempted, 2);
    assert!(summary.remote_session_established);
    assert_eq!(
        summary.selected_mx,
        Some("mx-secondary.verzola.test".to_string())
    );
    assert_eq!(
        summary.selected_recipient_domain,
        Some("example.net".to_string())
    );
}

#[test]
fn returns_temporary_failure_when_all_mx_candidates_are_unavailable() {
    let mut core = OutboundSessionCore::new(orchestration_config());

    let _ = reply_of(send(&mut core, "EHLO postfix.local\r\n"));
    assert_eq!(
        reply_of(send(&mut core, "MAIL FROM:<alice@example.org>\r\n")),
        vec!["250 2.1.0 Sender staged for outbound relay".to_string()]
    );

    match send(&mut core, "RCPT TO:<bob@example.net>\r\n") {
        SessionAction::ResolveMx { domain } => assert_eq!(domain, "example.net"),
        _ => panic!("expected an MX resolution"),
    }
    let candidates = vec![candidate(10, "mx-primary.verzola.test", "127.0.0.1:1")];
    match core.step(SessionEvent::MxResolved(Ok(candidates))) {
        SessionAction::ConnectUpstream { .. } => {},
        _ => panic!("expected a dial of the only candidate"),
    }
    let rcpt_reply = reply_of(core.step(SessionEvent::ConnectFailed(
        "connection refused".to_string(),
    )));
    assert!(
        rcpt_reply[0].starts_with("451 4.4.0 Outbound MX temporarily unavailable:"),
        "unexpected RCPT reply: {}",
        rcpt_reply.join(" | ")
    );

    assert_eq!(
        reply_of(send(&mut core, "QUIT\r\n")),
        vec!["221 2.0.0 Bye".to_string()]
    );

    let summary = core.summary();
    assert_eq!(summary.protocol_errors, 0);
    assert_eq!(summary.temporary_failures, 1);
    assert_eq!(summary.resolver_lookups, 1);
    assert_eq!(summary.mx_candidates_attempted, 1);
    assert!(!summary.remote_session_established);
    assert_eq!(summary.selected_mx, None);
    assert_eq!(summary.selected_recipient_domain, None);
}

#[test]
fn mixed_recipient_domains_are_deferred() {
    let mut core = OutboundSessionCore::new(orchestration_config());

    let _ = reply_of(send(&mut core, "EHLO postfix.local\r\n"));
    let _ = reply_of(send(&mut core, "MAIL FROM:<alice@example.org>\r\n"));

    match send(&mut core, "RCPT TO:<bob@example.net>\r\n") {
        SessionAction::ResolveMx { .. } => {},
        _ => panic!("expected an MX resolution"),
    }
    let candidates = vec![candidate(10, "mx.verzola.test", "127.0.0.1:1")];
    let _ = core.step(SessionEvent::MxResolved(Ok(candidates)));
    let _ = core.step(SessionEvent::ConnectOk);
    let _ = core.step(upstream(&["220 mx ESMTP"]));
    let _ = core.step(upstream(&["250 mx greets relay"]));
    let _ = core.step(upstream(&["250 sender ok"]));
    let _ = reply_of(core.step(upstream(&["250 recipient ok"])));

    // A second RCPT naming another domain is deferred; the first domain stays.
    assert_eq!(
        reply_of(send(&mut core, "RCPT TO:<carol@elsewhere.example>\r\n")),
        vec!["451 4.5.3 Mixed recipient domains are not supported".to_string()]
    );

    // A second RCPT in the same domain is still forwarded.
    match send(&mut core, "RCPT TO:<dave@example.net>\r\n") {
        SessionAction::SendUpstream { line } => assert_eq!(line, "RCPT TO:<dave@example.net>"),
        _ => panic!("expected the RCPT to be forwarded"),
    }
    let _ = reply_of(core.step(upstream(&["250 recipient ok"])));

    let summary = core.summary();
    assert_eq!(summary.temporary_failures, 1);
    assert_eq!(summary.resolver_lookups, 1);
}

#[test]
fn rset_clears_the_staged_transaction() {
    let mut core = OutboundSessionCore::new(orchestration_config());

    let _ = reply_of(send(&mut core, "EHLO postfix.local\r\n"));
    let _ = reply_of(send(&mut core, "MAIL FROM:<alice@example.org>\r\n"));
    assert_eq!(
        reply_of(send(&mut core, "RSET\r\n")),
        vec!["250 2.0.0 Reset state".to_string()]
    );
    // The staged MAIL is gone: RCPT is rejected out of sequence.
    assert_eq!(
        reply_of(send(&mut core, "RCPT TO:<bob@example.net>\r\n")),
        vec!["503 5.5.1 Send MAIL before RCPT".to_string()]
    );
}

#[test]
fn data_requires_staged_sender_and_recipients() {
    let mut core = OutboundSessionCore::new(orchestration_config());

    let _ = reply_of(send(&mut core, "EHLO postfix.local\r\n"));
    assert_eq!(
        reply_of(send(&mut core, "DATA\r\n")),
        vec!["503 5.5.1 Send MAIL before DATA".to_string()]
    );
    let _ = reply_of(send(&mut core, "MAIL FROM:<alice@example.org>\r\n"));
    assert_eq!(
        reply_of(send(&mut core, "DATA\r\n")),
        vec!["503 5.5.1 Send RCPT before DATA".to_string()]
    );
}

#[test]
fn mail_argument_must_carry_from_prefix() {
    let mut core = OutboundSessionCore::new(orchestration_config());

    let _ = reply_of(send(&mut core, "EHLO postfix.local\r\n"));
    assert_eq!(
        reply_of(send(&mut core, "MAIL alice@example.org\r\n")),
        vec!["501 5.5.4 MAIL requires FROM:<address>".to_string()]
    );
    assert_eq!(
        reply_of(send(&mut core, "RCPT TO:<bob>\r\n")),
        vec!["503 5.5.1 Send MAIL before RCPT".to_string()]
    );
    let _ = reply_of(send(&mut core, "MAIL FROM:<alice@example.org>\r\n"));
    assert_eq!(
        reply_of(send(&mut core, "RCPT TO:<bob>\r\n")),
        vec!["501 5.1.3 Bad recipient address syntax".to_string()]
    );
}

#[test]
fn a_new_mail_clears_the_selected_mx_record() {
    let mut core = OutboundSessionCore::new(orchestration_config());

    let _ = reply_of(send(&mut core, "EHLO postfix.local\r\n"));
    let _ = reply_of(send(&mut core, "MAIL FROM:<alice@example.org>\r\n"));
    match send(&mut core, "RCPT TO:<bob@example.net>\r\n") {
        SessionAction::ResolveMx { .. } => {},
        _ => panic!("expected an MX resolution"),
    }
    let candidates = vec![candidate(10, "mx.verzola.test", "127.0.0.1:1")];
    let _ = core.step(SessionEvent::MxResolved(Ok(candidates)));
    let _ = core.step(SessionEvent::ConnectOk);
    let _ = core.step(upstream(&["220 mx ESMTP"]));
    let _ = core.step(upstream(&["250 mx greets relay"]));
    let _ = core.step(upstream(&["250 sender ok"]));
    let _ = reply_of(core.step(upstream(&["250 recipient ok"])));
    assert_eq!(core.summary().selected_mx, Some("mx.verzola.test".to_string()));

    // Staging a fresh sender resets the per-transaction state, the selected
    // MX record included.
    assert_eq!(
        reply_of(send(&mut core, "MAIL FROM:<carol@example.org>\r\n")),
        vec!["250 2.1.0 Sender staged for outbound relay".to_string()]
    );
    assert_eq!(core.summary().selected_mx, None);
}
