use verzola_proxy::mx::MxCandidate;
use verzola_proxy::outbound::{
    OutboundListenerConfig, OutboundSessionCore, OutboundTlsPolicy,
};
use verzola_proxy::reply::parse_reply_lines;
use verzola_proxy::session::{SessionAction, SessionEvent};
use verzola_proxy::status::{map_remote_status, RelayStage};

fn status_config() -> OutboundListenerConfig {
    OutboundListenerConfig {
        bind_addr: "127.0.0.1:0".to_string(),
        banner_host: "relay.verzola.test".to_string(),
        outbound_tls_policy: OutboundTlsPolicy::Opportunistic,
        per_domain_tls_policies: Vec::new(),
        max_line_len: 4096,
    }
}

fn upstream(lines: &[&str]) -> SessionEvent {
    let owned: Vec<String> = lines.iter().map(|l| l.to_string()).collect();
    SessionEvent::UpstreamReply(parse_reply_lines(&owned).expect("test reply must be well framed"))
}

fn reply_of(action: SessionAction) -> Vec<String> {
    match action {
        SessionAction::Reply { lines } => lines,
        SessionAction::ReplyAndClose { lines } => lines,
        _ => panic!("expected a client reply action"),
    }
}

fn send(core: &mut OutboundSessionCore, line: &str) -> SessionAction {
    core.step(SessionEvent::ClientLine(line.to_string()))
}

/// Drives MAIL and the RCPT-triggered relay establishment against a single
/// reachable MX; stops right after the RCPT command went out.
fn establish_relay(core: &mut OutboundSessionCore) {
    let _ = reply_of(send(core, "EHLO postfix.local\r\n"));
    assert_eq!(
        reply_of(send(core, "MAIL FROM:<alice@example.org>\r\n")),
        vec!["250 2.1.0 Sender staged for outbound relay".to_string()]
    );
    match send(core, "RCPT TO:<bob@example.net>\r\n") {
        SessionAction::ResolveMx { domain } => assert_eq!(domain, "example.net"),
        _ => panic!("expected an MX resolution"),
    }
    let candidates = vec![
        MxCandidate::new(10, "mx-status.verzola.test".to_string(), "127.0.0.1:1".to_string())
            .expect("candidate should be valid"),
    ];
    let _ = core.step(SessionEvent::MxResolved(Ok(candidates)));
    let _ = core.step(SessionEvent::ConnectOk);
    let _ = core.step(upstream(&["220 mx.status.verzola.test ESMTP"]));
    let _ = core.step(upstream(&["250-mx.status.verzola.test greets relay", "250 SIZE 10485760"]));
    match core.step(upstream(&["250 2.1.0 Sender OK (remote mx)"])) {
        SessionAction::SendUpstream { line } => assert_eq!(line, "RCPT TO:<bob@example.net>"),
        _ => panic!("expected the RCPT toward the remote MX"),
    }
}

#[test]
fn maps_remote_transient_rcpt_status_to_retry_safe_defer() {
    let mut core = OutboundSessionCore::new(status_config());
    establish_relay(&mut core);

    assert_eq!(
        reply_of(core.step(upstream(&["451 4.3.0 Temporary backend issue"]))),
        vec![
            "451 4.4.0 Delivery deferred for retry (stage=rcpt, class=remote-transient, upstream=451)"
                .to_string()
        ]
    );

    // The relay survived the mapped rejection: QUIT is still forwarded.
    match send(&mut core, "QUIT\r\n") {
        SessionAction::SendUpstream { line } => assert_eq!(line, "QUIT"),
        _ => panic!("expected QUIT toward the remote MX"),
    }
    assert_eq!(
        reply_of(core.step(upstream(&["221 2.0.0 Remote bye"]))),
        vec!["221 2.0.0 Remote bye".to_string()]
    );

    let summary = core.summary();
    assert_eq!(summary.temporary_failures, 1);
    assert_eq!(summary.resolver_lookups, 1);
    assert_eq!(summary.mx_candidates_attempted, 1);
    assert!(summary.remote_session_established);
    assert_eq!(summary.selected_mx, Some("mx-status.verzola.test".to_string()));
    assert_eq!(
        summary.selected_recipient_domain,
        Some("example.net".to_string())
    );
}

#[test]
fn maps_remote_permanent_data_status_to_retry_safe_defer() {
    let mut core = OutboundSessionCore::new(status_config());
    establish_relay(&mut core);

    assert_eq!(
        reply_of(core.step(upstream(&["250 2.1.5 Recipient OK (remote mx)"]))),
        vec!["250 2.1.5 Recipient accepted for remote delivery".to_string()]
    );
    match send(&mut core, "DATA\r\n") {
        SessionAction::SendUpstream { line } => assert_eq!(line, "DATA"),
        _ => panic!("expected DATA toward the remote MX"),
    }
    assert_eq!(
        reply_of(core.step(upstream(&["354 End data with <CR><LF>.<CR><LF>"]))),
        vec!["354 End data with <CR><LF>.<CR><LF>".to_string()]
    );
    for line in [
        "Subject: status contract\r\n",
        "\r\n",
        "hello from postfix client\r\n",
    ] {
        match send(&mut core, line) {
            SessionAction::ForwardData { .. } => {},
            _ => panic!("body lines must be forwarded verbatim"),
        }
    }
    match send(&mut core, ".\r\n") {
        SessionAction::ForwardDataEnd { .. } => {},
        _ => panic!("the terminator must end the body stream"),
    }

    assert_eq!(
        reply_of(core.step(upstream(&["554 5.6.0 Content rejected by remote policy"]))),
        vec![
            "451 4.4.0 Delivery deferred for retry (stage=data-final, class=remote-permanent, upstream=554)"
                .to_string()
        ]
    );

    // The staged MAIL was preserved: the relay survived the rejection.
    match send(&mut core, "QUIT\r\n") {
        SessionAction::SendUpstream { line } => assert_eq!(line, "QUIT"),
        _ => panic!("expected QUIT toward the remote MX"),
    }
    assert_eq!(
        reply_of(core.step(upstream(&["221 2.0.0 Remote bye"]))),
        vec!["221 2.0.0 Remote bye".to_string()]
    );

    let summary = core.summary();
    assert_eq!(summary.temporary_failures, 1);
    assert_eq!(summary.resolver_lookups, 1);
    assert_eq!(summary.mx_candidates_attempted, 1);
    assert!(summary.remote_session_established);
    assert_eq!(summary.selected_mx, Some("mx-status.verzola.test".to_string()));
    assert_eq!(
        summary.selected_recipient_domain,
        Some("example.net".to_string())
    );
}

#[test]
fn accepted_final_data_clears_the_transaction_and_keeps_the_relay() {
    let mut core = OutboundSessionCore::new(status_config());
    establish_relay(&mut core);

    let _ = reply_of(core.step(upstream(&["250 2.1.5 Recipient OK (remote mx)"])));
    let _ = send(&mut core, "DATA\r\n");
    let _ = reply_of(core.step(upstream(&["354 go ahead"])));
    let _ = send(&mut core, "hello\r\n");
    let _ = send(&mut core, ".\r\n");
    assert_eq!(
        reply_of(core.step(upstream(&["250 2.0.0 Queued as STATUS1"]))),
        vec!["250 2.0.0 Message accepted by remote MX".to_string()]
    );

    // The staged MAIL is cleared: a DATA without a new MAIL is rejected.
    assert_eq!(
        reply_of(send(&mut core, "DATA\r\n")),
        vec!["503 5.5.1 Send MAIL before DATA".to_string()]
    );
    // The relay is still live: NOOP is forwarded to the remote.
    match send(&mut core, "NOOP\r\n") {
        SessionAction::SendUpstream { line } => assert_eq!(line, "NOOP"),
        _ => panic!("expected NOOP toward the remote MX"),
    }
}

#[test]
fn status_mapper_emits_exact_defer_lines() {
    assert_eq!(
        map_remote_status(RelayStage::Rcpt, 451),
        "451 4.4.0 Delivery deferred for retry (stage=rcpt, class=remote-transient, upstream=451)"
    );
    assert_eq!(
        map_remote_status(RelayStage::DataFinal, 554),
        "451 4.4.0 Delivery deferred for retry (stage=data-final, class=remote-permanent, upstream=554)"
    );
    assert_eq!(
        map_remote_status(RelayStage::Rcpt, 550),
        "451 4.4.0 Delivery deferred for retry (stage=rcpt, class=remote-permanent, upstream=550)"
    );
    assert_eq!(
        map_remote_status(RelayStage::DataFinal, 499),
        "451 4.4.0 Delivery deferred for retry (stage=data-final, class=remote-transient, upstream=499)"
    );
}
