use verzola_proxy::address::{is_mail_from_argument, parse_recipient_domain, starts_with_case_insensitive};
use verzola_proxy::command::{is_data_terminator, split_command, trim_crlf};
use verzola_proxy::mx::{
    sort_candidates, MxCandidate, MxResolutionError, MxResolver, NoopMxResolver,
    mx_resolution_error_to_io,
};
use verzola_proxy::reply::{parse_reply_lines, FramingError, ReplyParser, ReplyProgress};

fn candidate(preference: u16, exchange: &str, address: &str) -> MxCandidate {
    MxCandidate::new(preference, exchange.to_string(), address.to_string())
        .expect("candidate should be valid")
}

#[test]
fn reply_parser_round_trips_multiline_replies() {
    let wire = vec![
        "250-first line".to_string(),
        "250-STARTTLS".to_string(),
        "250 last line".to_string(),
    ];
    let reply = parse_reply_lines(&wire).expect("well-framed reply must parse");
    assert_eq!(reply.code, 250);
    // The parser keeps the lines verbatim, so writing them back with CRLF
    // reproduces the input wire image byte for byte.
    assert_eq!(reply.lines, wire);
}

#[test]
fn reply_parser_accepts_bare_code_line() {
    let reply = parse_reply_lines(&vec!["354".to_string()]).expect("a bare code terminates");
    assert_eq!(reply.code, 354);
    assert_eq!(reply.lines, vec!["354".to_string()]);
}

#[test]
fn reply_parser_rejects_framing_faults() {
    assert!(matches!(
        parse_reply_lines(&vec!["2x0 bad".to_string()]),
        Err(FramingError::BadCodeLine { .. })
    ));
    assert!(matches!(
        parse_reply_lines(&vec!["250-one".to_string(), "251 two".to_string()]),
        Err(FramingError::CodeMismatch { expected: 250, got: 251 })
    ));
    assert!(matches!(
        parse_reply_lines(&vec!["250xbad".to_string()]),
        Err(FramingError::BadSeparator)
    ));
    // A run that never terminates is not a reply.
    assert!(parse_reply_lines(&vec!["250-one".to_string()]).is_err());
}

#[test]
fn reply_parser_streams_line_by_line() {
    let mut parser = ReplyParser::new();
    match parser.push_line("250-one".to_string()) {
        Ok(ReplyProgress::NeedMore) => {},
        _ => panic!("a continuation line must ask for more"),
    }
    match parser.push_line("250 done".to_string()) {
        Ok(ReplyProgress::Done(reply)) => {
            assert_eq!(reply.code, 250);
            assert_eq!(reply.lines, vec!["250-one".to_string(), "250 done".to_string()]);
        },
        _ => panic!("the terminating line must complete the reply"),
    }
}

#[test]
fn framing_error_messages_name_the_fault() {
    let mismatch = FramingError::CodeMismatch { expected: 250, got: 554 };
    assert_eq!(
        mismatch.message(),
        "inconsistent SMTP reply code from upstream: expected 250, got 554"
    );
    // Codes below 100 still parse from three digits and render as three.
    let low = FramingError::CodeMismatch { expected: 250, got: 51 };
    assert_eq!(
        low.message(),
        "inconsistent SMTP reply code from upstream: expected 250, got 051"
    );
}

#[test]
fn split_command_uppercases_verb_and_trims_argument() {
    let (verb, argument) = split_command("mail   FROM:<a@x>  ");
    assert_eq!(verb, "MAIL");
    assert_eq!(argument, "FROM:<a@x>");

    let (verb, argument) = split_command("NOOP");
    assert_eq!(verb, "NOOP");
    assert_eq!(argument, "");
}

#[test]
fn trim_crlf_strips_all_terminator_bytes() {
    assert_eq!(trim_crlf("EHLO host\r\n"), "EHLO host");
    assert_eq!(trim_crlf("EHLO host\n"), "EHLO host");
    assert_eq!(trim_crlf("EHLO host"), "EHLO host");
    assert_eq!(trim_crlf("\r\n"), "");
}

#[test]
fn data_terminator_is_exactly_dot_line() {
    assert!(is_data_terminator(".\r\n"));
    assert!(is_data_terminator(".\n"));
    assert!(!is_data_terminator("..\r\n"));
    assert!(!is_data_terminator(". \r\n"));
    assert!(!is_data_terminator("end.\r\n"));
}

#[test]
fn mail_from_argument_requires_prefix_and_value() {
    assert!(is_mail_from_argument("FROM:<alice@example.org>"));
    assert!(is_mail_from_argument("from:<alice@example.org>"));
    assert!(is_mail_from_argument("  FROM:  <alice@example.org> "));
    assert!(!is_mail_from_argument("FROM:"));
    assert!(!is_mail_from_argument("FROM:   "));
    assert!(!is_mail_from_argument("<alice@example.org>"));
    assert!(!is_mail_from_argument(""));
}

#[test]
fn recipient_domain_is_extracted_and_normalized() {
    assert_eq!(
        parse_recipient_domain("TO:<bob@Example.NET>"),
        Some("example.net".to_string())
    );
    assert_eq!(
        parse_recipient_domain("to:<bob@example.net> NOTIFY=SUCCESS"),
        Some("example.net".to_string())
    );
    assert_eq!(
        parse_recipient_domain("<first@last@example.org>"),
        Some("example.org".to_string())
    );
    assert_eq!(parse_recipient_domain("TO:<bob>"), None);
    assert_eq!(parse_recipient_domain("TO:<bob@>"), None);
    assert_eq!(parse_recipient_domain(""), None);
}

#[test]
fn case_insensitive_prefix_matches_ascii_case_only() {
    assert!(starts_with_case_insensitive("To:<x>", "TO:"));
    assert!(starts_with_case_insensitive("FROM:<x>", "from:"));
    assert!(!starts_with_case_insensitive("T", "TO:"));
    assert!(!starts_with_case_insensitive("OT:<x>", "TO:"));
}

#[test]
fn candidates_sort_by_preference_then_exchange() {
    let unsorted = vec![
        candidate(20, "mx-b.example", "127.0.0.1:4"),
        candidate(10, "mx-b.example", "127.0.0.1:2"),
        candidate(20, "mx-a.example", "127.0.0.1:3"),
        candidate(10, "mx-a.example", "127.0.0.1:1"),
    ];
    let sorted = sort_candidates(&unsorted);
    let order: Vec<(u16, String)> = sorted
        .iter()
        .map(|c| (c.preference, c.exchange.clone()))
        .collect();
    assert_eq!(
        order,
        vec![
            (10, "mx-a.example".to_string()),
            (10, "mx-b.example".to_string()),
            (20, "mx-a.example".to_string()),
            (20, "mx-b.example".to_string()),
        ]
    );
}

#[test]
fn candidate_sort_is_stable_and_permutation_invariant() {
    // Two candidates with one key keep their resolver order (stability);
    // the ordering of keys is the same for any input permutation.
    let first = vec![
        candidate(10, "mx.example", "127.0.0.1:1"),
        candidate(10, "mx.example", "127.0.0.1:2"),
        candidate(5, "mx-low.example", "127.0.0.1:3"),
    ];
    let sorted = sort_candidates(&first);
    assert_eq!(sorted[0].address, "127.0.0.1:3");
    assert_eq!(sorted[1].address, "127.0.0.1:1");
    assert_eq!(sorted[2].address, "127.0.0.1:2");

    let permuted = vec![
        candidate(5, "mx-low.example", "127.0.0.1:3"),
        candidate(10, "mx.example", "127.0.0.1:1"),
        candidate(10, "mx.example", "127.0.0.1:2"),
    ];
    let sorted_permuted = sort_candidates(&permuted);
    let keys: Vec<(u16, String)> = sorted
        .iter()
        .map(|c| (c.preference, c.exchange.clone()))
        .collect();
    let keys_permuted: Vec<(u16, String)> = sorted_permuted
        .iter()
        .map(|c| (c.preference, c.exchange.clone()))
        .collect();
    assert_eq!(keys, keys_permuted);
}

#[test]
fn mx_candidate_rejects_blank_exchange() {
    let error = MxCandidate::new(10, "   ".to_string(), "127.0.0.1:1".to_string())
        .expect_err("a blank exchange must be rejected");
    assert_eq!(error.message, "mx exchange must not be empty");
}

#[test]
fn noop_resolver_always_fails() {
    let resolver = NoopMxResolver;
    let error = resolver
        .resolve("example.net")
        .expect_err("the placeholder resolver must refuse every lookup");
    let MxResolutionError::Temporary(message) = error;
    assert_eq!(message, "no MX resolver configured");

    let direct = resolver
        .unavailable()
        .expect_err("the placeholder resolver has only its one refusal");
    let MxResolutionError::Temporary(message) = direct;
    assert_eq!(message, "no MX resolver configured");
}

#[test]
fn resolver_errors_surface_their_message() {
    let error = MxResolutionError::Temporary("backend down".to_string());
    assert_eq!(mx_resolution_error_to_io(error), "backend down");
}
