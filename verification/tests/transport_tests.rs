use croak::cli::TransportKind;
use croak::transport::http::{Http, Method, SetupAction, NAME_PROMPT};
use croak::transport::smtp_direct::{message_id, SmtpDirect, SmtpError, SMTP_PORT};
use croak::transport::smtp_relay::SmtpRelay;
use croak::transport::{configure_transport, next_attempt, notify_first, Attempt, NotifyError, NotifyStep, Transport, TransportService};

fn transport(name: &str) -> Transport {
    Transport::Http(Http::new(name.to_string(), Method::POST, "u".to_string(), None, None, None))
}

#[test]
fn transport_shows_kind_and_name() {
    let t = transport("notify");
    assert_eq!(t.display(), "[HTTP] notify");
    assert_eq!(t.name(), "notify");
}

#[test]
fn configure_transport_asks_for_name_first() {
    let (_, a) = configure_transport(TransportKind::Http);
    match a {
        SetupAction::Ask(p) => assert_eq!(p, NAME_PROMPT),
        _ => panic!("expected a question"),
    }
}

#[test]
fn notify_first_tries_in_order_and_stops_at_success() {
    let mut outcomes = vec![];
    assert_eq!(notify_first(3, true, &outcomes), Ok(NotifyStep::Send(0)));
    outcomes.push(false);
    assert_eq!(notify_first(3, true, &outcomes), Ok(NotifyStep::Send(1)));
    outcomes.push(true);
    assert_eq!(notify_first(3, true, &outcomes), Ok(NotifyStep::Done));
}

#[test]
fn notify_first_fails_only_when_asked_to() {
    let outcomes = vec![false, false];
    assert_eq!(notify_first(2, true, &outcomes), Err(NotifyError::AllFailed(2)));
    assert_eq!(notify_first(2, false, &outcomes), Ok(NotifyStep::Done));
    assert_eq!(notify_first(0, true, &vec![]), Err(NotifyError::AllFailed(0)));
    assert_eq!(
        NotifyError::AllFailed(2).message(),
        "Failed to send notification via all 2 transports"
    );
}

#[test]
fn next_attempt_steps() {
    assert_eq!(next_attempt(2, &vec![]), Attempt::Try(0));
    assert_eq!(next_attempt(2, &vec![false]), Attempt::Try(1));
    assert_eq!(next_attempt(2, &vec![false, false]), Attempt::Exhausted);
    assert_eq!(next_attempt(2, &vec![true]), Attempt::Succeeded);
}

#[test]
fn relay_without_server_sends_nothing() {
    let r = SmtpRelay::new();
    match r.send("t".to_string(), "b".to_string()) {
        Err(e) => {
            assert!(matches!(e, SmtpError::NoRelayServer));
            assert_eq!(e.message(), "No relay server is configured");
        },
        Ok(()) => panic!("relay claimed to send"),
    }
}

#[test]
fn message_ids_wrap_unique_part_and_host() {
    assert_eq!(message_id("abc", "host"), "<abc@host>");
}

#[test]
fn direct_mail_checks_addresses() {
    let ok = SmtpDirect::new("to@example.com".to_string(), "from@example.com".to_string(), "box".to_string());
    let m = ok.compose("T", "B").ok().expect("valid addresses");
    assert_eq!(m.from, "from@example.com");
    assert_eq!(m.to, "to@example.com");
    assert_eq!(m.subject, "T");
    assert_eq!(m.body, "B");
    assert!(m.message_id.starts_with('<') && m.message_id.ends_with("@box>"));
    assert_eq!(m.message_id.len(), 1 + 36 + 1 + 3 + 1);
    assert_eq!(m.message_id.as_bytes()[15], b'4');
    assert_eq!(m.port, SMTP_PORT);
    assert_eq!(SMTP_PORT, 25);

    let bad_sender = SmtpDirect::new("to@example.com".to_string(), "not an address".to_string(), "box".to_string());
    let lettre_error = "not an address".parse::<lettre::message::Mailbox>().unwrap_err().to_string();
    match bad_sender.compose("T", "B") {
        Err(e) => {
            assert!(matches!(e, SmtpError::InvalidSender(_)));
            assert_eq!(e.message(), lettre_error);
        },
        Ok(_) => panic!("invalid sender accepted"),
    }
    let bad_recipient = SmtpDirect::new("nobody".to_string(), "from@example.com".to_string(), "box".to_string());
    assert!(matches!(bad_recipient.compose("T", "B"), Err(SmtpError::InvalidRecipient(_))));

    let e = ok.no_mx_records();
    assert_eq!(e.message(), "No MX records found for domain of recipient email: to@example.com");
    assert_eq!(ok.recipient_email(), "to@example.com");
}

#[test]
fn all_mx_failed_lists_exchanges() {
    let smtp = SmtpDirect::new("to@example.com".to_string(), "from@example.com".to_string(), "box".to_string());
    let xs = vec!["mx1.example.com.".to_string(), "mx\"2".to_string()];
    let e = smtp.all_mx_failed(xs.clone());
    assert_eq!(
        e.message(),
        format!("Failed to send email to {} via all MX records: {:?}", "to@example.com", xs)
    );
    let none = smtp.all_mx_failed(vec![]);
    assert_eq!(none.message(), "Failed to send email to to@example.com via all MX records: []");
}
