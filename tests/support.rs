use proxmox_acme_core::fingerprint::fp_string;
use proxmox_acme_core::netmask::check_netmask;
use proxmox_acme_core::suite::suite_variant;
use proxmox_acme_core::schema::{
    parse_boolean, parse_boolean_lowered, BooleanSchema, EnumEntry, IntegerSchema, ParameterError,
    SchemaError, Updater,
};
use proxmox_acme_core::text::parse_hex_i64;
use proxmox_acme_core::ticket::{epoch_from, Authentication, AuthenticationKind, Ticket, Token, Validity};

const TICKET: &str = "PBS:root@pam:6500ABCD::c2lnbmF0dXJl";

#[test]
fn ticket_parts() {
    let t = Ticket::parse(TICKET).ok().unwrap();
    assert_eq!(t.product(), "PBS");
    assert_eq!(t.userid(), "root@pam");
    assert_eq!(t.timestamp(), 0x6500ABCD);
    assert_eq!(t.cookie(), format!("PBSAuthCookie={TICKET}"));
    assert_eq!(t.cookie_with_name("X"), format!("X={TICKET}"));
    assert!(!t.is_info_only());
    let t2: Ticket = TICKET.parse().ok().unwrap();
    assert_eq!(t2.as_str(), TICKET);
}

#[test]
fn ticket_quarantine_product() {
    let t = Ticket::parse("PMGQUAR:user@quarantine:10::sig").ok().unwrap();
    assert_eq!(t.product(), "PMG");
    assert_eq!(t.userid(), "user@quarantine");
}

#[test]
fn ticket_info_only() {
    let t = Ticket::parse("PVE:root@pam:10::ticketinfo").ok().unwrap();
    assert!(t.is_info_only());
}

#[test]
fn ticket_rejects_malformed() {
    assert!(Ticket::parse("nocolon").is_err());
    assert!(Ticket::parse("VERYLONGPRODUCT:root@pam:10::sig").is_err());
    assert!(Ticket::parse("PBS:root:10::sig").is_err());
    assert!(Ticket::parse("PBS:root@pam:zz::sig").is_err());
    assert!(Ticket::parse("PBS:root@pam:10:sig").is_err());
    assert!(Ticket::parse("PBS:root@pam:10::").is_err());
}

#[test]
fn ticket_validity_at_times() {
    let t = Ticket::parse("PBS:root@pam:3E8::sig").ok().unwrap();
    assert_eq!(t.age_at(1000 + 60), 60);
    assert_eq!(t.validity_at(1000 + 60), Validity::Valid);
    assert_eq!(t.validity_at(1000 + 5400), Validity::Refresh);
    assert_eq!(t.validity_at(1000 + 7200), Validity::Refresh);
    assert_eq!(t.validity_at(1000 + 7201), Validity::Expired);
    assert!(Validity::Refresh.is_valid());
    assert!(!Validity::Expired.is_valid());
    let _ = t.validity();
    let _ = t.age();
}

#[test]
fn hex_timestamps() {
    assert_eq!(parse_hex_i64("ff"), Some(255));
    assert_eq!(parse_hex_i64("-A"), Some(-10));
    assert_eq!(parse_hex_i64("+1"), Some(1));
    assert_eq!(parse_hex_i64(""), None);
    assert_eq!(parse_hex_i64("-"), None);
    assert_eq!(parse_hex_i64("7fffffffffffffff"), Some(i64::MAX));
    assert_eq!(parse_hex_i64("8000000000000000"), None);
    assert_eq!(parse_hex_i64("-8000000000000000"), Some(i64::MIN));
}

#[test]
fn authentication_cookies_and_userid() {
    let auth = Authentication {
        api_url: "https://h:8007".to_string(),
        userid: "root@pam".to_string(),
        ticket: Ticket::parse(TICKET).ok().unwrap(),
        clustername: None,
        csrfprevention_token: "csrf".to_string(),
    };
    assert_eq!(auth.cookie(), format!("PBSAuthCookie={TICKET}"));
    assert_eq!(auth.cookie_with_name("C"), format!("C={TICKET}"));
    let k = AuthenticationKind::Ticket(auth);
    assert_eq!(k.userid(), "root@pam");
    let k = AuthenticationKind::Token(Token {
        userid: "u@pam!t".to_string(),
        prefix: "PBSAPIToken".to_string(),
        value: "v".to_string(),
    });
    assert_eq!(k.userid(), "u@pam!t");
}

#[test]
fn parameter_errors() {
    let mut e = ParameterError::new();
    assert!(e.is_empty());
    e.push("a".to_string(), "bad".to_string());
    let mut sub = ParameterError::new();
    sub.push("x".to_string(), "too long".to_string());
    sub.push("y".to_string(), "missing".to_string());
    e.add_errors("outer", SchemaError::Parameter(sub));
    e.add_errors("plain", SchemaError::Message("oops".to_string()));
    assert_eq!(e.len(), 4);
    let names: Vec<&str> = e.errors().iter().map(|(n, _)| n.as_str()).collect();
    assert_eq!(names, vec!["a", "outer/x", "outer/y", "plain"]);
    assert_eq!(e.errors()[2].1, "missing");
}

#[test]
fn schema_builders() {
    let b = BooleanSchema::new("flag").default(true);
    assert_eq!(b.default, Some(true));
    assert_eq!(b.description, "flag");
    let i = IntegerSchema::new("n").minimum(1).maximum(10).default(5);
    assert_eq!((i.minimum, i.maximum, i.default), (Some(1), Some(10), Some(5)));
    assert!(i.check_constraints(1).is_ok());
    assert_eq!(i.check_constraints(0).err().unwrap(), "value must have a minimum value of 1 (got 0)");
    assert_eq!(i.check_constraints(11).err().unwrap(), "value must have a maximum value of 10 (got 11)");
    let neg = IntegerSchema::new("n").minimum(-5);
    assert_eq!(neg.check_constraints(-12).err().unwrap(), "value must have a minimum value of -5 (got -12)");
    let e = EnumEntry::new("v", "d");
    assert_eq!((e.value, e.description), ("v", "d"));
}

#[test]
fn booleans() {
    assert_eq!(parse_boolean("YES").ok(), Some(true));
    assert_eq!(parse_boolean("On").ok(), Some(true));
    assert_eq!(parse_boolean("0").ok(), Some(false));
    assert_eq!(parse_boolean("False").ok(), Some(false));
    assert_eq!(parse_boolean("maybe").err().unwrap(), "Unable to parse boolean option.");
    assert_eq!(parse_boolean_lowered("true").ok(), Some(true));
    assert!(parse_boolean_lowered("TRUE").is_err());
}

#[test]
fn updaters() {
    assert!(Updater::is_empty(&Vec::<u8>::new()));
    assert!(!Updater::is_empty(&vec![1u8]));
    assert!(Updater::is_empty(&None::<u8>));
    assert!(!Updater::is_empty(&Some(1u8)));
}

#[test]
fn netmasks() {
    assert!(check_netmask(24, false).is_ok());
    assert!(check_netmask(128, true).is_ok());
    assert_eq!(check_netmask(33, false).err().unwrap(), "IPv4 mask '33' is out of range (1..32).");
    assert_eq!(check_netmask(0, true).err().unwrap(), "IPv6 mask '0' is out of range (1..128).");
}

#[test]
fn fingerprints() {
    assert_eq!(fp_string(&[]), "");
    assert_eq!(fp_string(&[0xab]), "ab");
    assert_eq!(fp_string(&[0x01, 0xff, 0x10]), "01:ff:10");
}

#[test]
fn suite_variants() {
    assert_eq!(suite_variant("bookworm-security"), ("bookworm", "-security"));
    assert_eq!(suite_variant("bookworm/updates"), ("bookworm", "/updates"));
    assert_eq!(suite_variant("bookworm"), ("bookworm", ""));
    assert_eq!(suite_variant(""), ("", ""));
}

#[test]
fn epoch_from_clock_readings() {
    assert_eq!(epoch_from(Ok(1700000000)), 1700000000);
    assert_eq!(epoch_from(Err(60)), -60);
    assert_eq!(epoch_from(Ok(u64::MAX)), 0);
    assert_eq!(epoch_from(Err(u64::MAX)), 0);
    assert_eq!(epoch_from(Err(i64::MAX as u64)), -i64::MAX);
}
