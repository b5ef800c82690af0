use proxmox_acme_core::client::{Action, Client, Exchange, Phase};
use proxmox_acme_core::directory::Directory;
use proxmox_acme_core::error::Error;
use proxmox_acme_core::nonce::{problem_document, Inner};
use proxmox_acme_core::order::{Authorization, Challenge, Order};
use proxmox_acme_core::account::Account;
use proxmox_acme_core::b64u::encode;
use proxmox_acme_core::response::{parse_method, Headers, HttpResponse, Method};
use proxmox_acme_core::retry::retry;

const DIRECTORY: &str = r#"{"newNonce":"https://ca/nonce","newAccount":"https://ca/acct","newOrder":"https://ca/order","revokeCert":"https://ca/revoke","meta":{"termsOfService":"https://ca/tos"}}"#;
const BAD_NONCE_BODY: &str = r#"{"type":"urn:ietf:params:acme:error:badNonce","detail":"stale"}"#;

fn reply(status: u16, body: &str, location: Option<&str>, nonce: Option<&str>) -> HttpResponse {
    HttpResponse {
        body: body.as_bytes().to_vec(),
        status,
        headers: Headers::new(location.map(String::from), nonce.map(String::from)),
    }
}

fn client_with_account() -> Client {
    let mut c = Client::new("https://ca/dir".to_string());
    c.set_account(Account {
        location: "https://ca/acct/1".to_string(),
        thumbprint: "THUMB".to_string(),
        data: Vec::new(),
    });
    c
}

fn sent_nonce(a: &Action) -> String {
    match a {
        Action::Send(n) => n.clone(),
        _ => panic!("expected a request to send"),
    }
}

#[test]
fn is_success_range() {
    assert!(reply(200, "", None, None).is_success());
    assert!(reply(299, "", None, None).is_success());
    assert!(!reply(199, "", None, None).is_success());
    assert!(!reply(300, "", None, None).is_success());
    assert!(!reply(400, "", None, None).is_success());
}

#[test]
fn location_accessors() {
    let mut r = reply(201, "xy", Some("https://ca/o/1"), None);
    assert_eq!(r.location(), Some("https://ca/o/1"));
    assert_eq!(r.bytes(), b"xy");
    assert_eq!(r.location_required().ok(), Some("https://ca/o/1".to_string()));
    assert!(r.location().is_none());
    assert!(matches!(r.location_required(), Err(Error::InvalidApi(_))));
}

#[test]
fn nonce_taken_from_reply() {
    let mut inner = Inner::new();
    let mut r = reply(200, "", None, Some("n1"));
    assert!(inner.update_nonce(&mut r));
    assert_eq!(inner.nonce.as_deref(), Some("n1"));
    assert!(r.headers.nonce.is_none());
    let mut r2 = reply(200, "", None, None);
    assert!(!inner.update_nonce(&mut r2));
    assert_eq!(inner.nonce.as_deref(), Some("n1"));
}

#[test]
fn nonce_follows_sequence_of_exchanges() {
    let mut inner = Inner::new();
    let nonces = [Some("a"), None, Some("b"), Some("c"), None, None];
    let expected = ["a", "a", "b", "c", "c", "c"];
    for (n, e) in nonces.iter().zip(expected.iter()) {
        let r = inner.run_request_reply(200, Ok(reply(200, "{}", None, *n)));
        assert!(r.is_ok());
        assert_eq!(inner.nonce.as_deref(), Some(*e));
    }
}

#[test]
fn bad_nonce_without_fresh_nonce_is_protocol_error() {
    let mut inner = Inner::new();
    match inner.run_request_reply(200, Ok(reply(400, BAD_NONCE_BODY, None, None))) {
        Err(Error::InvalidApi(m)) => assert_eq!(m, "badNonce without a new Replay-Nonce header"),
        _ => panic!("expected a protocol error"),
    }
    assert!(inner.nonce.is_none());
    let r = inner.run_request_reply(200, Ok(reply(400, BAD_NONCE_BODY, None, Some("fresh"))));
    assert!(matches!(r, Err(Error::BadNonce)));
    assert_eq!(inner.nonce.as_deref(), Some("fresh"));
}

#[test]
fn reply_classification() {
    let mut inner = Inner::new();
    match inner.run_request_reply(201, Ok(reply(200, "{}", None, Some("x")))) {
        Err(Error::InvalidApi(m)) => assert_eq!(m, "API server responded with unexpected status code: 200"),
        _ => panic!("expected an unexpected status"),
    }
    match inner.run_request_reply(200, Ok(reply(500, "not json", None, Some("x")))) {
        Err(Error::InvalidApi(m)) => assert_eq!(m, "error status with improper error ACME response"),
        _ => panic!("expected an improper problem"),
    }
    let body = r#"{"type":"urn:ietf:params:acme:error:malformed","detail":"bad csr"}"#;
    match inner.run_request_reply(200, Ok(reply(400, body, None, Some("y")))) {
        Err(Error::Api(e)) => {
            assert_eq!(e.ty, "urn:ietf:params:acme:error:malformed");
            assert_eq!(e.detail.as_deref(), Some("bad csr"));
        }
        _ => panic!("expected a problem document"),
    }
    let r = inner.run_request_reply(200, Err("connection refused".to_string()));
    assert!(matches!(r, Err(Error::Transport(_))));
    assert_eq!(inner.nonce.as_deref(), Some("y"));
}

#[test]
fn problem_document_reads_type_and_detail() {
    let e = problem_document(BAD_NONCE_BODY.as_bytes()).unwrap();
    assert_eq!(e.ty, "urn:ietf:params:acme:error:badNonce");
    assert_eq!(e.detail.as_deref(), Some("stale"));
    assert!(problem_document(b"{}").is_none());
}

#[test]
fn new_nonce_reply_rules() {
    let mut inner = Inner::new();
    assert!(matches!(inner.new_nonce_reply(Ok(reply(404, "", None, Some("z")))), Err(Error::InvalidApi(_))));
    assert!(inner.nonce.is_none());
    assert!(matches!(inner.new_nonce_reply(Ok(reply(200, "", None, None))), Err(Error::InvalidApi(_))));
    assert!(matches!(inner.new_nonce_reply(Err("down".to_string())), Err(Error::Transport(_))));
    assert!(inner.new_nonce_reply(Ok(reply(200, "", None, Some("z")))).is_ok());
    assert_eq!(inner.nonce.as_deref(), Some("z"));
}

#[test]
fn proxy_invalidates_transport() {
    let mut inner = Inner::new();
    inner.agent_built();
    assert!(inner.agent_valid);
    inner.set_proxy("http://proxy:3128".to_string());
    assert!(!inner.agent_valid);
    assert_eq!(inner.proxy.as_deref(), Some("http://proxy:3128"));
}

#[test]
fn directory_parsing() {
    let d = Directory::from_parts("https://ca/dir".to_string(), DIRECTORY.as_bytes()).ok().unwrap();
    assert_eq!(d.new_nonce_url(), "https://ca/nonce");
    assert_eq!(d.new_account, "https://ca/acct");
    assert_eq!(d.terms_of_service_url(), Some("https://ca/tos"));
    assert!(Directory::from_parts("u".to_string(), br#"{"newNonce":"x"}"#).is_err());
    match Directory::from_reply("u".to_string(), Ok(reply(500, DIRECTORY, None, None))) {
        Err(Error::InvalidApi(m)) => assert_eq!(m, "GET on the directory URL returned error status (500)"),
        _ => panic!("expected an error status"),
    }
    assert!(matches!(Directory::from_reply("u".to_string(), Err("down".to_string())), Err(Error::Transport(_))));
}

#[test]
fn retry_allows_three_retries() {
    let mut r = retry();
    for _ in 0..4 {
        assert!(r.tick().is_ok());
    }
    match r.tick() {
        Err(Error::Client(m)) => assert_eq!(m, "kept getting a badNonce error!"),
        _ => panic!("expected the retry limit"),
    }
}

#[test]
fn exchange_fetches_directory_then_nonce_then_sends() {
    let mut c = client_with_account();
    let mut ex = Exchange::new(200);
    let a = c.start(&mut ex);
    assert!(matches!(&a, Action::GetDirectory(u) if u == "https://ca/dir"));
    let a = c.advance(&mut ex, Ok(reply(200, DIRECTORY, None, None)));
    assert!(matches!(&a, Action::HeadNonce(u) if u == "https://ca/nonce"));
    let a = c.advance(&mut ex, Ok(reply(200, "", None, Some("n0"))));
    assert_eq!(sent_nonce(&a), "n0");
    let a = c.advance(&mut ex, Ok(reply(200, "{}", None, Some("n1"))));
    assert!(matches!(a, Action::Finished(Ok(_))));
    assert!(matches!(ex.phase, Phase::Done));
    assert_eq!(c.inner.nonce.as_deref(), Some("n1"));
    assert_eq!(c.terms_of_service_url().ok().unwrap(), Some("https://ca/tos"));
}

#[test]
fn fourth_bad_nonce_is_fatal() {
    let mut c = client_with_account();
    let mut ex = Exchange::new(200);
    c.start(&mut ex);
    c.advance(&mut ex, Ok(reply(200, DIRECTORY, None, None)));
    let mut a = c.advance(&mut ex, Ok(reply(200, "", None, Some("n0"))));
    let mut sends = 1;
    for i in 0..3 {
        let fresh = format!("retry{i}");
        a = c.advance(&mut ex, Ok(reply(400, BAD_NONCE_BODY, None, Some(&fresh))));
        assert_eq!(sent_nonce(&a), fresh);
        sends += 1;
    }
    assert_eq!(sends, 4);
    a = c.advance(&mut ex, Ok(reply(400, BAD_NONCE_BODY, None, Some("last"))));
    match a {
        Action::Finished(Err(Error::Client(m))) => assert_eq!(m, "kept getting a badNonce error!"),
        _ => panic!("expected the retry limit"),
    }
}

#[test]
fn third_retry_may_still_succeed() {
    let mut c = client_with_account();
    let mut ex = Exchange::new(200);
    c.start(&mut ex);
    c.advance(&mut ex, Ok(reply(200, DIRECTORY, None, None)));
    let mut a = c.advance(&mut ex, Ok(reply(200, "", None, Some("n0"))));
    for i in 0..3 {
        let fresh = format!("retry{i}");
        a = c.advance(&mut ex, Ok(reply(400, BAD_NONCE_BODY, None, Some(&fresh))));
        assert_eq!(sent_nonce(&a), fresh);
    }
    let a = c.advance(&mut ex, Ok(reply(200, "{}", None, Some("n9"))));
    assert!(matches!(a, Action::Finished(Ok(_))));
    assert_eq!(c.inner.nonce.as_deref(), Some("n9"));
}

#[test]
fn bad_nonce_without_header_stops_exchange() {
    let mut c = client_with_account();
    let mut ex = Exchange::new(200);
    c.start(&mut ex);
    c.advance(&mut ex, Ok(reply(200, DIRECTORY, None, None)));
    c.advance(&mut ex, Ok(reply(200, "", None, Some("n0"))));
    let a = c.advance(&mut ex, Ok(reply(400, BAD_NONCE_BODY, None, None)));
    assert!(matches!(a, Action::Finished(Err(Error::InvalidApi(_)))));
}

#[test]
fn advance_outside_an_exchange_fails() {
    let mut c = client_with_account();
    let mut ex = Exchange::new(200);
    let a = c.advance(&mut ex, Ok(reply(200, "", None, None)));
    assert!(matches!(a, Action::Finished(Err(Error::Client(_)))));
}

#[test]
fn account_and_order_need_location() {
    let mut c = Client::new("https://ca/dir".to_string());
    assert!(matches!(c.need_account(), Err(Error::Unauthorized(_))));
    let r = c.account_registered(reply(201, "{}", None, None), "T".to_string());
    assert!(matches!(r, Err(Error::InvalidApi(_))));
    assert!(c.account().is_none());
    c.account_registered(reply(201, r#"{"status":"valid"}"#, Some("https://ca/acct/7"), None), "T".to_string())
        .ok()
        .unwrap();
    assert_eq!(c.account().unwrap().location, "https://ca/acct/7");
    let order = r#"{"status":"pending","finalize":"https://ca/fin","authorizations":["https://ca/authz/1"]}"#;
    let r = c.order_created(reply(201, order, None, None));
    assert!(matches!(r, Err(Error::InvalidApi(_))));
    let r = c.account_updated(reply(200, "", None, None));
    assert!(matches!(r, Err(Error::InvalidApi(_))));
    assert_eq!(c.account().unwrap().data, br#"{"status":"valid"}"#.to_vec());
    let updated = r#"{"status":"valid","contact":[]}"#;
    c.account_updated(reply(200, updated, None, None)).ok().unwrap();
    assert_eq!(c.account().unwrap().data, updated.as_bytes().to_vec());
    assert_eq!(c.account().unwrap().location, "https://ca/acct/7");
    let r = c.account_registered(reply(201, "{}", Some("https://ca/acct/8"), None), "T".to_string());
    assert!(matches!(r, Err(Error::InvalidApi(_))));
    assert_eq!(c.account().unwrap().location, "https://ca/acct/7");
}

#[test]
fn order_then_authorization_offers_requested_type() {
    let c = client_with_account();
    let order = r#"{"status":"pending","identifiers":[{"type":"dns","value":"example.com"}],"finalize":"https://ca/fin/1","authorizations":["https://ca/authz/1"]}"#;
    let o: Order = c.order_created(reply(201, order, Some("https://ca/order/1"), None)).ok().unwrap();
    assert_eq!(o.location, "https://ca/order/1");
    assert_eq!(o.authorizations, vec!["https://ca/authz/1".to_string()]);
    assert!(o.certificate.is_none());
    let authz = r#"{"status":"pending","identifier":{"type":"dns","value":"example.com"},"challenges":[{"type":"http-01","url":"https://ca/chall/1","token":"tokH","status":"pending"},{"type":"dns-01","url":"https://ca/chall/2","token":"tokD","status":"pending"}]}"#;
    let a = Authorization::from_json(authz.as_bytes()).ok().unwrap();
    assert_eq!(a.identifier, "example.com");
    assert!(a.challenges.iter().any(|c| c.ty == "dns-01"));
    assert!(a.challenges.iter().any(|c| c.ty == "http-01"));
    assert_eq!(a.challenges[1].token.as_deref(), Some("tokD"));
}

#[test]
fn malformed_authorization_is_rejected() {
    let authz = r#"{"status":"pending","identifier":{"value":"example.com"},"challenges":[{"type":"dns-01"}]}"#;
    assert!(matches!(Authorization::from_json(authz.as_bytes()), Err(Error::InvalidApi(_))));
    let ch = r#"{"challenges":[{"type":"dns-01","url":"u","status":"valid"}]}"#;
    let c = Challenge::from_json(ch.as_bytes(), 0).ok().unwrap();
    assert!(c.token().is_none());
}

#[test]
fn key_authorization_joins_token_and_thumbprint() {
    let c = client_with_account();
    assert_eq!(c.key_authorization("tok1").ok().unwrap(), "tok1.THUMB");
    let none = Client::new("d".to_string());
    assert!(matches!(none.key_authorization("tok1"), Err(Error::Unauthorized(_))));
}

#[test]
fn base64url_encoding() {
    assert_eq!(encode(b""), b"".to_vec());
    assert_eq!(encode(b"a"), b"YQ".to_vec());
    assert_eq!(encode(b"ab"), b"YWI".to_vec());
    assert_eq!(encode(&[0xfb, 0xff, 0x00]), b"-_8A".to_vec());
}

#[test]
fn http_methods() {
    assert!(matches!(parse_method(b"GET"), Ok(Method::Get)));
    assert!(matches!(parse_method(b"HEAD"), Ok(Method::Head)));
    assert!(matches!(parse_method(b"POST"), Ok(Method::Post)));
    match parse_method(b"PUT") {
        Err(Error::Client(m)) => assert_eq!(m, "invalid http method: [80, 85, 84]"),
        _ => panic!("expected an invalid method"),
    }
}

#[test]
fn error_is_bad_nonce() {
    assert!(Error::BadNonce.is_bad_nonce());
    assert!(!Error::Client("x".to_string()).is_bad_nonce());
}
