use proxmox_acme_core::account::Account;
use proxmox_acme_core::client::Client;
use proxmox_acme_core::error::Error;
use proxmox_acme_core::order::{Authorization, Challenge};
use proxmox_acme_core::plugin::{
    challenge_path, challenge_token, dns_stdin_data, extract_challenge, helper_status, plugin_kind,
    standalone_respond, AcmeDomain, DnsPlugin, PluginKind,
};
use proxmox_acme_core::standalone::StandaloneServer;

fn challenge(ty: &str, token: Option<&str>) -> Challenge {
    Challenge {
        ty: ty.to_string(),
        url: format!("https://ca/chall/{ty}"),
        token: token.map(String::from),
        status: "pending".to_string(),
    }
}

fn authorization() -> Authorization {
    Authorization {
        status: "pending".to_string(),
        identifier: "example.com".to_string(),
        challenges: vec![challenge("http-01", Some("tokH")), challenge("dns-01", Some("tok1"))],
    }
}

fn client() -> Client {
    let mut c = Client::new("https://ca/dir".to_string());
    c.set_account(Account { location: "l".to_string(), thumbprint: "THUMB".to_string(), data: Vec::new() });
    c
}

fn plugin(delay: Option<u32>) -> DnsPlugin {
    DnsPlugin {
        id: "p".to_string(),
        api: "cf".to_string(),
        data: "CF_Token=abc".to_string(),
        validation_delay: delay,
    }
}

#[test]
fn dns_stdin_exact() {
    assert_eq!(dns_stdin_data(b"abcd", "CF_Token=abc"), b"abcd\nCF_Token=abc\n".to_vec());
    assert_eq!(dns_stdin_data(b"abcd", "CF_Token=abc\n"), b"abcd\nCF_Token=abc\n".to_vec());
    assert_eq!(dns_stdin_data(b"abcd", ""), b"abcd\n".to_vec());
}

#[test]
fn dns_helper_failure_names_script_action_code() {
    match helper_status("setup", false, Some(1)) {
        Err(Error::Client(m)) => {
            assert_eq!(m, "'/usr/share/proxmox-acme/proxmox-acme setup' exited with error (1)")
        }
        _ => panic!("expected a helper failure"),
    }
    match helper_status("teardown", false, None) {
        Err(Error::Client(m)) => assert!(m.ends_with("teardown' exited with error (-1)")),
        _ => panic!("expected a helper failure"),
    }
    assert!(helper_status("setup", true, Some(0)).is_ok());
}

#[test]
fn dns_helper_arguments() {
    let p = plugin(None);
    let d = AcmeDomain { domain: "example.com".to_string(), alias: None };
    let args = p.helper_args("setup", &d);
    assert_eq!(args[0], "--reuid");
    assert_eq!(args[8], "/usr/share/proxmox-acme/proxmox-acme");
    assert_eq!(&args[9..], &["setup".to_string(), "cf".to_string(), "example.com".to_string()]);
    let d = AcmeDomain { domain: "example.com".to_string(), alias: Some("alias.net".to_string()) };
    assert_eq!(p.helper_args("teardown", &d)[11], "alias.net");
}

#[test]
fn dns_waits_only_after_successful_setup() {
    assert_eq!(plugin(None).wait_after_setup(true), 30);
    assert_eq!(plugin(Some(7)).wait_after_setup(true), 7);
    assert_eq!(plugin(None).wait_after_setup(false), 0);
}

#[test]
fn dns_validation_delay_default() {
    assert_eq!(plugin(None).validation_delay_secs(), 30);
    assert_eq!(plugin(Some(0)).validation_delay_secs(), 0);
    assert_eq!(plugin(Some(5)).validation_delay_secs(), 5);
}

#[test]
fn dns_prepare_builds_helper_run() {
    let a = authorization();
    let d = AcmeDomain { domain: "example.com".to_string(), alias: None };
    let run = plugin(None).prepare(&client(), &a, &d, "setup").ok().unwrap();
    assert_eq!(run.validation_url, "https://ca/chall/dns-01");
    assert_eq!(run.stdin, b"dktiuJuJgIvbdQ-mOxdUqSGnr8iEZQkum048_e0i6-I\nCF_Token=abc\n".to_vec());
    assert_eq!(run.args[9], "setup");
    let no_dns = Authorization { challenges: vec![challenge("http-01", Some("t"))], ..authorization() };
    assert!(matches!(plugin(None).prepare(&client(), &no_dns, &d, "setup"), Err(Error::Client(_))));
    let no_account = Client::new("d".to_string());
    assert!(plugin(None).prepare(&no_account, &a, &d, "setup").is_err());
    let first_without_token = Authorization {
        challenges: vec![challenge("dns-01", None), challenge("dns-01", Some("tok2"))],
        ..authorization()
    };
    match plugin(None).prepare(&client(), &first_without_token, &d, "setup") {
        Err(Error::Client(m)) => assert_eq!(m, "missing token in challenge"),
        _ => panic!("expected a missing token"),
    }
}

#[test]
fn dns_txt_value_is_digest_of_key_authorization() {
    let v = client().dns_01_txt_value("tok1").ok().unwrap();
    assert_eq!(v, b"dktiuJuJgIvbdQ-mOxdUqSGnr8iEZQkum048_e0i6-I".to_vec());
}

#[test]
fn dns_plugin_config() {
    let p = DnsPlugin::from_json(br#"{"id":"cf1","api":"cf","data":"K=V","validation-delay":10}"#).ok().unwrap();
    assert_eq!((p.id.as_str(), p.api.as_str(), p.data.as_str()), ("cf1", "cf", "K=V"));
    assert_eq!(p.validation_delay, Some(10));
    let p = DnsPlugin::from_json(br#"{"id":"cf1","api":"cf","data":""}"#).ok().unwrap();
    assert_eq!(p.validation_delay_secs(), 30);
    assert!(DnsPlugin::from_json(br#"{"id":"cf1","data":""}"#).is_err());
    assert!(DnsPlugin::from_json(br#"{"id":"a","api":"b","data":"","validation-delay":99999999999}"#).is_err());
}

#[test]
fn extract_challenge_rules() {
    let a = authorization();
    assert_eq!(extract_challenge(&a, "http-01").ok().unwrap().url, "https://ca/chall/http-01");
    match extract_challenge(&a, "tls-alpn-01") {
        Err(Error::Client(m)) => assert_eq!(m, "no supported challenge type (tls-alpn-01) found"),
        _ => panic!("expected no challenge"),
    }
    let c = challenge("dns-01", None);
    assert!(matches!(challenge_token(&c), Err(Error::Client(_))));
}

#[test]
fn plugin_type_dispatch() {
    assert!(matches!(plugin_kind("dns"), Ok(PluginKind::Dns)));
    assert!(matches!(plugin_kind("standalone"), Ok(PluginKind::Standalone)));
    match plugin_kind("webhook") {
        Err(Error::Client(m)) => assert_eq!(m, "missing implementation for plugin type 'webhook'"),
        _ => panic!("expected an unknown type"),
    }
}

#[test]
fn standalone_serves_only_challenge_path() {
    let path = challenge_path("tokH");
    assert_eq!(path, "/.well-known/acme-challenge/tokH");
    let (status, body) = standalone_respond(true, "/.well-known/acme-challenge/tokH", &path, "tokH.THUMB");
    assert_eq!(status, 200);
    assert_eq!(body, b"tokH.THUMB".to_vec());
    let (status, body) = standalone_respond(true, "/other", &path, "tokH.THUMB");
    assert_eq!(status, 404);
    assert_eq!(body, b"Not found.".to_vec());
    let (status, _) = standalone_respond(false, "/.well-known/acme-challenge/tokH", &path, "k");
    assert_eq!(status, 404);
}

#[test]
fn standalone_prepare_plan() {
    let mut s = StandaloneServer::new();
    let plan = s.prepare(&client(), &authorization()).ok().unwrap();
    assert_eq!(plan.validation_url, "https://ca/chall/http-01");
    assert_eq!(plan.path, "/.well-known/acme-challenge/tokH");
    assert_eq!(plan.key_auth, "tokH.THUMB");
    let only_dns = Authorization { challenges: vec![challenge("dns-01", Some("t"))], ..authorization() };
    assert!(s.prepare(&client(), &only_dns).is_err());
    let first_without_token = Authorization {
        challenges: vec![challenge("http-01", None), challenge("http-01", Some("tok2"))],
        ..authorization()
    };
    assert!(s.prepare(&client(), &first_without_token).is_err());
    let no_account = Client::new("d".to_string());
    match s.prepare(&no_account, &authorization()) {
        Err(Error::Unauthorized(m)) => assert_eq!(m, "cannot use client without an account"),
        _ => panic!("expected a missing account"),
    }
}

#[test]
fn standalone_setup_twice_keeps_one_listener() {
    let mut s = StandaloneServer::new();
    let (h1, _r1) = futures::future::AbortHandle::new_pair();
    let (h2, _r2) = futures::future::AbortHandle::new_pair();
    let first = h1.clone();
    s.prepare(&client(), &authorization()).ok().unwrap();
    s.listening(h1);
    assert!(s.is_listening());
    s.prepare(&client(), &authorization()).ok().unwrap();
    assert!(first.is_aborted());
    assert!(!s.is_listening());
    s.listening(h2);
    assert!(s.is_listening());
    assert!(s.teardown().is_ok());
    assert!(!s.is_listening());
}

#[test]
fn standalone_teardown_without_setup() {
    let mut s = StandaloneServer::new();
    assert!(s.teardown().is_ok());
    assert!(!s.stop());
}
