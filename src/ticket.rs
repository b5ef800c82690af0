use vstd::prelude::*;

use crate::text::{find_char, first_of, hex_i64, parse_hex_i64};

verus! {

/// Tickets are valid for 2 hours.
pub const TICKET_LIFETIME: i64 = 7200;

/// Tickets are refreshed during their last half hour.
pub const REFRESH_EARLY_BY: i64 = 1800;

/// A ticket string that could not be parsed.
pub struct TicketError;

/// What a ticket holds: its text and where its parts lie in it.
pub ghost struct TicketView {
    pub data: Seq<char>,
    pub timestamp: i64,
    pub product_len: nat,
    pub userid_start: nat,
    pub userid_len: nat,
}

/// The ticket that a ticket string
/// `<product>:<userid>:<hex timestamp>::<signature>` stands for, if it is one:
/// the product is shorter than ten characters (PMGQUAR counts as its first
/// three), the userid holds an `@`, and a signature follows.
pub open spec fn ticket_of(s: Seq<char>) -> Option<TicketView> {
    match first_of(s, ':') {
        None => None,
        Some(p) => if p >= 10 {
            None
        } else {
            let rest1 = s.subrange(p + 1, s.len() as int);
            match first_of(rest1, ':') {
                None => None,
                Some(u) => if !rest1.subrange(0, u).contains('@') {
                    None
                } else {
                    let rest2 = rest1.subrange(u + 1, rest1.len() as int);
                    match first_of(rest2, ':') {
                        None => None,
                        Some(t) => match hex_i64(rest2.subrange(0, t)) {
                            None => None,
                            Some(ts) => {
                                let rest3 = rest2.subrange(t + 1, rest2.len() as int);
                                if rest3.len() < 2 || rest3[0] != ':' || u > u16::MAX {
                                    None
                                } else {
                                    Some(
                                        TicketView {
                                            data: s,
                                            timestamp: ts,
                                            product_len: if s.subrange(0, p) == "PMGQUAR"@ {
                                                3
                                            } else {
                                                p as nat
                                            },
                                            userid_start: (p + 1) as nat,
                                            userid_len: u as nat,
                                        },
                                    )
                                }
                            },
                        },
                    }
                },
            }
        },
    }
}

/// Whether `s` ends with `suffix`.
pub open spec fn ends_with(s: Seq<char>, suffix: Seq<char>) -> bool {
    s.len() >= suffix.len() && s.subrange(s.len() - suffix.len(), s.len() as int) == suffix
}

/// Whether a ticket is still good, due for renewal, or expired.
#[derive(Clone, Copy, Debug, PartialEq, Eq, Structural)]
pub enum Validity {
    /// Valid for longer than half an hour.
    Valid,
    /// Within its last half hour: renew it with the ticket as password.
    Refresh,
    /// No longer valid: a new ticket must be created.
    Expired,
}

/// The validity of a ticket of age `age` seconds.
pub open spec fn validity_of(age: int) -> Validity {
    if age > TICKET_LIFETIME {
        Validity::Expired
    } else if age >= TICKET_LIFETIME - REFRESH_EARLY_BY {
        Validity::Refresh
    } else {
        Validity::Valid
    }
}

/// `v` clamped to the range of `i64`.
pub open spec fn saturate_i64(v: int) -> i64 {
    if v > i64::MAX {
        i64::MAX
    } else if v < i64::MIN {
        i64::MIN
    } else {
        v as i64
    }
}

impl Validity {
    /// Whether the ticket may still be used, even if it should be renewed.
    pub fn is_valid(self) -> (r: bool)
        ensures
            r == (self is Valid || self is Refresh),
    {
        match self {
            Validity::Valid | Validity::Refresh => true,
            Validity::Expired => false,
        }
    }
}

/// An API ticket string.
pub struct Ticket {
    data: String,
    timestamp: i64,
    product_len: u16,
    userid_start: u16,
    userid_len: u16,
}

impl View for Ticket {
    type V = TicketView;

    closed spec fn view(&self) -> TicketView {
        TicketView {
            data: self.data@,
            timestamp: self.timestamp,
            product_len: self.product_len as nat,
            userid_start: self.userid_start as nat,
            userid_len: self.userid_len as nat,
        }
    }
}

/// Relies on `std::time::SystemTime::now` and `SystemTime::duration_since`:
/// the whole seconds the clock stands after the UNIX epoch (`Ok`) or before it (`Err`).
#[verifier::external_body]
fn since_epoch() -> (r: Result<u64, u64>) {
    match std::time::SystemTime::now().duration_since(std::time::UNIX_EPOCH) {
        Ok(d) => Ok(d.as_secs()),
        Err(e) => Err(e.duration().as_secs()),
    }
}

/// The time in seconds relative to the UNIX epoch that `since` describes.
pub open spec fn epoch_of(since: Result<u64, u64>) -> i64 {
    match since {
        Ok(s) => if s <= i64::MAX { s as i64 } else { 0 },
        Err(s) => if s <= i64::MAX { -(s as int) as i64 } else { 0 },
    }
}

/// A UNIX time from whole seconds after (`Ok`) or before (`Err`) the epoch;
/// a count that does not fit in `i64` gives 0.
pub fn epoch_from(since: Result<u64, u64>) -> (r: i64)
    ensures
        r == epoch_of(since),
{
    match since {
        Ok(s) => if s <= 0x7fff_ffff_ffff_ffff { s as i64 } else { 0 },
        Err(s) => if s <= 0x7fff_ffff_ffff_ffff { -(s as i64) } else { 0 },
    }
}

/// The current UNIX time in seconds (negative before the epoch).
fn epoch_i64() -> (r: i64) {
    epoch_from(since_epoch())
}

impl Ticket {
    #[verifier::type_invariant]
    spec fn inv(&self) -> bool {
        &&& self.product_len <= self.userid_start
        &&& self.userid_start + self.userid_len <= self.data@.len()
    }

    /// The product prefix.
    pub fn product(&self) -> (r: &str)
        ensures
            r@ == self@.data.subrange(0, self@.product_len as int),
    {
        proof {
            use_type_invariant(self);
        }
        self.data.as_str().substring_char(0, self.product_len as usize)
    }

    /// The userid contained in the ticket.
    pub fn userid(&self) -> (r: &str)
        ensures
            r@ == self@.data.subrange(
                self@.userid_start as int,
                (self@.userid_start + self@.userid_len) as int,
            ),
    {
        proof {
            use_type_invariant(self);
        }
        let start = self.userid_start as usize;
        let len = self.userid_len as usize;
        self.data.as_str().substring_char(start, start + len)
    }

    /// The ticket's timestamp as a UNIX epoch.
    pub fn timestamp(&self) -> (r: i64)
        ensures
            r == self@.timestamp,
    {
        self.timestamp
    }

    /// The age in seconds at time `now`, clamped to the range of `i64`.
    pub fn age_at(&self, now: i64) -> (r: i64)
        ensures
            r == saturate_i64(now - self@.timestamp),
    {
        let d: i128 = now as i128 - self.timestamp as i128;
        if d > i64::MAX as i128 {
            i64::MAX
        } else if d < i64::MIN as i128 {
            i64::MIN
        } else {
            d as i64
        }
    }

    /// The ticket age in seconds.
    pub fn age(&self) -> (r: i64) {
        self.age_at(epoch_i64())
    }

    /// The validity at time `now`, assuming the usual lifetime of 2 hours.
    pub fn validity_at(&self, now: i64) -> (r: Validity)
        ensures
            r == validity_of(saturate_i64(now - self@.timestamp) as int),
    {
        let age = self.age_at(now);
        if age > TICKET_LIFETIME {
            Validity::Expired
        } else if age >= TICKET_LIFETIME - REFRESH_EARLY_BY {
            Validity::Refresh
        } else {
            Validity::Valid
        }
    }

    /// The validity now, assuming the usual lifetime of 2 hours.
    pub fn validity(&self) -> (r: Validity) {
        self.validity_at(epoch_i64())
    }

    /// Whether this is not a signed ticket but only the information of one.
    pub fn is_info_only(&self) -> (r: bool)
        ensures
            r == ends_with(self@.data, "::ticketinfo"@),
    {
        let suffix = "::ticketinfo";
        let n = self.data.as_str().unicode_len();
        let m = suffix.unicode_len();
        if n < m {
            return false;
        }
        let tail = self.data.as_str().substring_char(n - m, n);
        String::from_str(tail) == String::from_str(suffix)
    }

    /// The cookie `<PRODUCT>AuthCookie=<ticket>`.
    pub fn cookie(&self) -> (r: String)
        ensures
            r@ == self@.data.subrange(0, self@.product_len as int) + "AuthCookie="@ + self@.data,
    {
        let mut r = String::from_str(self.product());
        r.append("AuthCookie=");
        r.append(self.data.as_str());
        r
    }

    /// The cookie `<name>=<ticket>`.
    pub fn cookie_with_name(&self, name: &str) -> (r: String)
        ensures
            r@ == name@ + "="@ + self@.data,
    {
        let mut r = String::from_str(name);
        r.append("=");
        r.append(self.data.as_str());
        r
    }

    /// The ticket string itself.
    pub fn as_str(&self) -> (r: &str)
        ensures
            r@ == self@.data,
    {
        self.data.as_str()
    }

    /// Parses a ticket string.
    pub fn parse(s: &str) -> (r: Result<Ticket, TicketError>)
        ensures
            r.is_ok() == ticket_of(s@).is_some(),
            r matches Ok(t) ==> Some(t@) == ticket_of(s@),
    {
        let n = s.unicode_len();
        let p = match find_char(s, ':') {
            Some(p) => p,
            None => return Err(TicketError),
        };
        if p >= 10 {
            return Err(TicketError);
        }
        let rest1 = s.substring_char(p + 1, n);
        let n1 = rest1.unicode_len();
        let u = match find_char(rest1, ':') {
            Some(u) => u,
            None => return Err(TicketError),
        };
        let userid = rest1.substring_char(0, u);
        if find_char(userid, '@').is_none() {
            proof {
                assert forall|k: int| 0 <= k < userid@.len() implies userid@[k] != '@' by {}
            }
            return Err(TicketError);
        }
        let rest2 = rest1.substring_char(u + 1, n1);
        let n2 = rest2.unicode_len();
        let t = match find_char(rest2, ':') {
            Some(t) => t,
            None => return Err(TicketError),
        };
        let timestamp = match parse_hex_i64(rest2.substring_char(0, t)) {
            Some(ts) => ts,
            None => return Err(TicketError),
        };
        let rest3 = rest2.substring_char(t + 1, n2);
        let n3 = rest3.unicode_len();
        if n3 < 2 || rest3.get_char(0) != ':' || u > 65535 {
            return Err(TicketError);
        }
        proof {
            reveal_strlit("PMGQUAR");
        }
        let head = String::from_str(s.substring_char(0, p));
        let quarantine = String::from_str("PMGQUAR");
        let product_len: u16 = if head == quarantine {
            assert(head@.len() == p);
            assert(quarantine@.len() == 7);
            3
        } else {
            p as u16
        };
        assert(rest1@.len() == n - p - 1);
        assert(p + 1 + u <= n);
        let data = String::from_str(s);
        let userid_start = (p + 1) as u16;
        let userid_len = u as u16;
        assert(product_len <= userid_start);
        assert(userid_start + userid_len <= data@.len());
        Ok(Ticket { data, timestamp, product_len, userid_start, userid_len })
    }
}

impl std::str::FromStr for Ticket {
    type Err = TicketError;

    fn from_str(s: &str) -> Result<Ticket, TicketError> {
        Ticket::parse(s)
    }
}

/// A finished authentication state.
pub struct Authentication {
    /// The API URL this authentication belongs to.
    pub api_url: String,
    /// The user id in the form `username@realm`.
    pub userid: String,
    /// The authentication ticket.
    pub ticket: Ticket,
    /// The cluster name, if any.
    pub clustername: Option<String>,
    /// The CSRFPreventionToken header.
    pub csrfprevention_token: String,
}

impl Authentication {
    /// The ticket cookie `<PRODUCT>AuthCookie=<ticket>`.
    pub fn cookie(&self) -> (r: String)
        ensures
            r@ == self.ticket@.data.subrange(0, self.ticket@.product_len as int) + "AuthCookie="@
                + self.ticket@.data,
    {
        self.ticket.cookie()
    }

    /// The ticket cookie `<name>=<ticket>`.
    pub fn cookie_with_name(&self, name: &str) -> (r: String)
        ensures
            r@ == name@ + "="@ + self.ticket@.data,
    {
        self.ticket.cookie_with_name(name)
    }
}

/// An API token: a userid and its secret.
pub struct Token {
    /// The token's userid, `user@realm!tokenname`.
    pub userid: String,
    /// The product prefix of the authorization header.
    pub prefix: String,
    /// The token secret.
    pub value: String,
}

/// How a client authenticates: with a ticket or with an API token.
pub enum AuthenticationKind {
    /// A ticket from a login.
    Ticket(Authentication),
    /// An API token.
    Token(Token),
}

impl AuthenticationKind {
    /// The user id the authentication is for.
    pub fn userid(&self) -> (r: &str)
        ensures
            r@ == match self {
                AuthenticationKind::Ticket(a) => a.userid@,
                AuthenticationKind::Token(t) => t.userid@,
            },
    {
        match self {
            AuthenticationKind::Ticket(auth) => auth.userid.as_str(),
            AuthenticationKind::Token(auth) => auth.userid.as_str(),
        }
    }
}

} // verus!
