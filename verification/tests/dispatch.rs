use std::time::Duration;
use std::time::Instant;

use mailer::config::Tenant;
use mailer::error::MailerError;
use mailer::plan::TlsMode;
use mailer::plan::plan_for_test;
use mailer::transport::build_transport;
use mailer::transport::prepare_send;
use mailer::transport::prepare_test_connection;

fn tenant(port: i32, secure: Option<bool>) -> Tenant {
    Tenant {
        smtp_host: Some("smtp.example.com".to_string()),
        smtp_port: Some(port),
        smtp_username: Some("mailer@example.com".to_string()),
        smtp_password: Some("smtp-pass-123".to_string()),
        smtp_from: Some("mailer@example.com".to_string()),
        smtp_secure: secure,
    }
}

#[test]
fn prepare_send_rejects_incomplete_configuration_first() {
    let mut t = tenant(587, Some(true));
    t.smtp_username = None;
    // Even with a malformed recipient, the configuration check comes first.
    let r = prepare_send(&t, "not-an-email", "Subject", "<p>Hi</p>");
    assert!(matches!(r, Err(MailerError::ConfigurationMissing)));
}

#[test]
fn malformed_to_yields_address_error_not_send_error() {
    let r = prepare_send(&tenant(587, Some(true)), "not-an-email", "Subject", "<p>Hi</p>");
    match r {
        Err(MailerError::AddressError(_)) => {}
        Err(MailerError::SendError(_)) => panic!("transport error reported for a malformed address"),
        other => panic!("expected an address error, got {:?}", other.map(|_| ())),
    }
}

#[test]
fn malformed_from_yields_address_error() {
    let mut t = tenant(587, Some(true));
    t.smtp_from = Some("no at sign".to_string());
    let r = prepare_send(&t, "user@example.com", "Subject", "<p>Hi</p>");
    assert!(matches!(r, Err(MailerError::AddressError(_))));
}

#[test]
fn send_preparation_succeeds_for_starttls_tenant() {
    let prepared = prepare_send(
        &tenant(587, Some(true)),
        "user@example.com",
        "Subject",
        "<p>Hi</p>",
    )
    .unwrap();
    assert_eq!(prepared.plan.tls_mode, TlsMode::StartTls);
    assert_eq!(prepared.plan.host, "smtp.example.com");
    assert_eq!(prepared.plan.port, 587);
    assert_eq!(prepared.plan.timeout_secs, 10);
}

#[test]
fn port_465_send_is_prepared_with_wrapper_style_tls() {
    let prepared = prepare_send(
        &tenant(465, Some(true)),
        "user@example.com",
        "Subject",
        "<p>Hi</p>",
    )
    .unwrap();
    assert_eq!(prepared.plan.tls_mode, TlsMode::Implicit);
    assert_ne!(prepared.plan.tls_mode, TlsMode::StartTls);
}

#[test]
fn secure_unset_send_is_prepared_like_secure_true() {
    let with_none = prepare_send(&tenant(587, None), "user@example.com", "S", "B").unwrap();
    let with_true = prepare_send(&tenant(587, Some(true)), "user@example.com", "S", "B").unwrap();
    assert_eq!(with_none.plan, with_true.plan);
}

#[test]
fn secure_false_send_is_prepared_without_encryption() {
    let prepared = prepare_send(
        &tenant(25, Some(false)),
        "user@example.com",
        "Subject",
        "<p>Hi</p>",
    )
    .unwrap();
    assert_eq!(prepared.plan.tls_mode, TlsMode::NoEncryption);
}

#[test]
fn build_transport_accepts_a_plain_plan() {
    let plan = plan_for_test("localhost", 25, "user", "pw", false);
    assert!(build_transport(&plan).is_ok());
}

#[test]
fn test_connection_is_prepared_with_five_second_timeout() {
    let prepared = prepare_test_connection("smtp.example.com", 587, "user", "pw", true).unwrap();
    assert_eq!(prepared.plan.timeout_secs, 5);
    assert_eq!(prepared.plan.tls_mode, TlsMode::StartTls);
}

#[test]
fn unreachable_host_test_connection_fails_within_timeout() {
    // Port 1 on loopback is not listening: the connection attempt is
    // refused (or at worst cut off by the transport's own 5 s timeout)
    // and the failure surfaces as the transport error kind.
    let prepared = prepare_test_connection("127.0.0.1", 1, "user", "pw", false).unwrap();
    let runtime = tokio::runtime::Builder::new_current_thread()
        .enable_all()
        .build()
        .unwrap();
    let started = Instant::now();
    let outcome = runtime.block_on(prepared.transport.0.test_connection());
    let elapsed = started.elapsed();
    let smtp_error = outcome.unwrap_err();
    assert!(elapsed < Duration::from_secs(6));
    assert!(matches!(
        MailerError::from_smtp_error(smtp_error),
        MailerError::SendError(_)
    ));
}

#[test]
fn error_wrappers_keep_their_kind() {
    assert!(matches!(
        MailerError::from_email_error(lettre::error::Error::MissingFrom),
        MailerError::BuildError(_)
    ));
    let parse_failure = "not-an-email".parse::<lettre::message::Mailbox>().unwrap_err();
    assert!(matches!(
        MailerError::from_address_error(parse_failure),
        MailerError::AddressError(_)
    ));
}
