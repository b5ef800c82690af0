use vstd::prelude::*;

use crate::error::Error;
use crate::json::{array_len_at, json_array_len_at, json_str_at, str_at};
use crate::text::{decimal, decimal_text};

verus! {

/// One way of proving control of a domain (dns-01, http-01, ...).
pub struct Challenge {
    /// The challenge type, such as `dns-01`.
    pub ty: String,
    /// The URL to request validation against.
    pub url: String,
    /// The token the proof is derived from.
    pub token: Option<String>,
    /// The challenge's status.
    pub status: String,
}

/// The proof-of-control record of one domain of an order.
pub struct Authorization {
    /// The authorization's status.
    pub status: String,
    /// The domain it is for.
    pub identifier: String,
    /// The challenges the server offers.
    pub challenges: Vec<Challenge>,
}

/// A certificate request for a set of domains.
pub struct Order {
    /// Where the order can be queried.
    pub location: String,
    /// The order's status.
    pub status: String,
    /// Where to send the certificate signing request.
    pub finalize: String,
    /// One authorization URL per domain.
    pub authorizations: Vec<String>,
    /// Where to download the certificate, once issued.
    pub certificate: Option<String>,
}

/// The JSON pointer to member `field` of the `i`-th element of array `array`.
pub open spec fn element_pointer(array: Seq<char>, i: nat, field: Seq<char>) -> Seq<char> {
    array + "/"@ + decimal_text(i) + field
}

/// Whether `c` is the `i`-th challenge of the authorization in the JSON text `body`.
pub open spec fn challenge_at(body: Seq<u8>, i: nat, c: Challenge) -> bool {
    &&& json_str_at(body, element_pointer("/challenges"@, i, "/type"@)) == Some(c.ty@)
    &&& json_str_at(body, element_pointer("/challenges"@, i, "/url"@)) == Some(c.url@)
    &&& json_str_at(body, element_pointer("/challenges"@, i, "/status"@)) == Some(c.status@)
    &&& match c.token {
        Some(t) => json_str_at(body, element_pointer("/challenges"@, i, "/token"@)) == Some(t@),
        None => json_str_at(body, element_pointer("/challenges"@, i, "/token"@)) is None,
    }
}

/// Whether `c` is the challenge object the JSON text `body` describes.
pub open spec fn challenge_object(body: Seq<u8>, c: Challenge) -> bool {
    &&& json_str_at(body, "/type"@) == Some(c.ty@)
    &&& json_str_at(body, "/url"@) == Some(c.url@)
    &&& json_str_at(body, "/status"@) == Some(c.status@)
    &&& match c.token {
        Some(t) => json_str_at(body, "/token"@) == Some(t@),
        None => json_str_at(body, "/token"@) is None,
    }
}

/// Whether the `i`-th challenge in `body` has all the members a challenge needs.
pub open spec fn challenge_complete(body: Seq<u8>, i: nat) -> bool {
    &&& json_str_at(body, element_pointer("/challenges"@, i, "/type"@)) is Some
    &&& json_str_at(body, element_pointer("/challenges"@, i, "/url"@)) is Some
    &&& json_str_at(body, element_pointer("/challenges"@, i, "/status"@)) is Some
}

/// Whether the JSON text `body` describes a complete authorization.
pub open spec fn authorization_complete(body: Seq<u8>) -> bool {
    &&& json_str_at(body, "/status"@) is Some
    &&& json_str_at(body, "/identifier/value"@) is Some
    &&& json_array_len_at(body, "/challenges"@) is Some
    &&& forall|i: nat| i < json_array_len_at(body, "/challenges"@)->0 ==> challenge_complete(body, i)
}

/// Whether `a` is the authorization that the JSON text `body` describes.
pub open spec fn authorization_from_body(a: Authorization, body: Seq<u8>) -> bool {
    &&& json_str_at(body, "/status"@) == Some(a.status@)
    &&& json_str_at(body, "/identifier/value"@) == Some(a.identifier@)
    &&& json_array_len_at(body, "/challenges"@) == Some(a.challenges@.len())
    &&& forall|i: int| 0 <= i < a.challenges@.len() ==> challenge_at(body, i as nat, #[trigger] a.challenges@[i])
}

/// The JSON pointer to the `i`-th authorization URL of an order.
pub open spec fn authorization_pointer(i: nat) -> Seq<char> {
    "/authorizations/"@ + decimal_text(i)
}

/// Whether the JSON text `body` describes a complete order.
pub open spec fn order_complete(body: Seq<u8>) -> bool {
    &&& json_str_at(body, "/status"@) is Some
    &&& json_str_at(body, "/finalize"@) is Some
    &&& json_array_len_at(body, "/authorizations"@) is Some
    &&& forall|i: nat| i < json_array_len_at(body, "/authorizations"@)->0
        ==> json_str_at(body, #[trigger] authorization_pointer(i)) is Some
}

/// Whether `o` is the order that the JSON text `body` describes, located at `location`.
pub open spec fn order_from_body(o: Order, location: Seq<char>, body: Seq<u8>) -> bool {
    &&& o.location@ == location
    &&& json_str_at(body, "/status"@) == Some(o.status@)
    &&& json_str_at(body, "/finalize"@) == Some(o.finalize@)
    &&& json_array_len_at(body, "/authorizations"@) == Some(o.authorizations@.len())
    &&& forall|i: int| 0 <= i < o.authorizations@.len() ==> json_str_at(body, authorization_pointer(i as nat))
        == Some(#[trigger] o.authorizations@[i]@)
    &&& match o.certificate {
        Some(c) => json_str_at(body, "/certificate"@) == Some(c@),
        None => json_str_at(body, "/certificate"@) is None,
    }
}

fn member_pointer(array: &str, i: usize, field: &str) -> (r: String)
    ensures
        r@ == element_pointer(array@, i as nat, field@),
{
    let mut p = String::from_str(array);
    p.append("/");
    let index = decimal(i);
    p.append(index.as_str());
    p.append(field);
    p
}

fn malformed() -> (e: Error)
    ensures
        e is InvalidApi,
{
    Error::InvalidApi(String::from_str("malformed ACME response"))
}

impl Challenge {
    /// Reads the `i`-th challenge of the authorization in the JSON text `body`.
    pub fn from_json(body: &[u8], i: usize) -> (r: Result<Challenge, Error>)
        ensures
            r.is_ok() == challenge_complete(body@, i as nat),
            r matches Ok(c) ==> challenge_at(body@, i as nat, c),
            r matches Err(e) ==> e is InvalidApi,
    {
        let ty = str_at(body, member_pointer("/challenges", i, "/type").as_str());
        let url = str_at(body, member_pointer("/challenges", i, "/url").as_str());
        let status = str_at(body, member_pointer("/challenges", i, "/status").as_str());
        let token = str_at(body, member_pointer("/challenges", i, "/token").as_str());
        match (ty, url, status) {
            (Some(ty), Some(url), Some(status)) => Ok(Challenge { ty, url, token, status }),
            _ => Err(malformed()),
        }
    }

    /// Reads a challenge object, as the server returns it when validation is requested.
    pub fn from_object(body: &[u8]) -> (r: Result<Challenge, Error>)
        ensures
            r.is_ok() == (json_str_at(body@, "/type"@) is Some && json_str_at(body@, "/url"@) is Some
                && json_str_at(body@, "/status"@) is Some),
            r matches Ok(c) ==> challenge_object(body@, c),
            r matches Err(e) ==> e is InvalidApi,
    {
        let ty = str_at(body, "/type");
        let url = str_at(body, "/url");
        let status = str_at(body, "/status");
        let token = str_at(body, "/token");
        match (ty, url, status) {
            (Some(ty), Some(url), Some(status)) => Ok(Challenge { ty, url, token, status }),
            _ => Err(malformed()),
        }
    }

    /// The challenge's token, if it has one.
    pub fn token(&self) -> (r: Option<&str>)
        ensures
            r.is_some() == self.token.is_some(),
            r.is_some() ==> r.unwrap()@ == self.token.unwrap()@,
    {
        match &self.token {
            Some(t) => Some(t.as_str()),
            None => None,
        }
    }
}

impl Authorization {
    /// Reads an authorization from its JSON text.
    pub fn from_json(body: &[u8]) -> (r: Result<Authorization, Error>)
        ensures
            r.is_ok() == authorization_complete(body@),
            r matches Ok(a) ==> authorization_from_body(a, body@),
            r matches Err(e) ==> e is InvalidApi,
    {
        let status = match str_at(body, "/status") {
            Some(s) => s,
            None => return Err(malformed()),
        };
        let identifier = match str_at(body, "/identifier/value") {
            Some(s) => s,
            None => return Err(malformed()),
        };
        let n = match array_len_at(body, "/challenges") {
            Some(n) => n,
            None => return Err(malformed()),
        };
        let mut challenges: Vec<Challenge> = Vec::new();
        let mut i: usize = 0;
        while i < n
            invariant
                i <= n,
                json_array_len_at(body@, "/challenges"@) == Some(n as nat),
                challenges@.len() == i,
                forall|j: int| 0 <= j < i ==> challenge_at(body@, j as nat, #[trigger] challenges@[j]),
                forall|j: nat| j < i ==> challenge_complete(body@, j),
            decreases n - i,
        {
            let c = match Challenge::from_json(body, i) {
                Ok(c) => c,
                Err(e) => return Err(e),
            };
            challenges.push(c);
            i = i + 1;
        }
        Ok(Authorization { status, identifier, challenges })
    }
}

impl Order {
    /// Reads an order located at `location` from its JSON text.
    pub fn from_json(location: String, body: &[u8]) -> (r: Result<Order, Error>)
        ensures
            r.is_ok() == order_complete(body@),
            r matches Ok(o) ==> order_from_body(o, location@, body@),
            r matches Err(e) ==> e is InvalidApi,
    {
        let status = match str_at(body, "/status") {
            Some(s) => s,
            None => return Err(malformed()),
        };
        let finalize = match str_at(body, "/finalize") {
            Some(s) => s,
            None => return Err(malformed()),
        };
        let n = match array_len_at(body, "/authorizations") {
            Some(n) => n,
            None => return Err(malformed()),
        };
        let mut authorizations: Vec<String> = Vec::new();
        let mut i: usize = 0;
        while i < n
            invariant
                i <= n,
                json_array_len_at(body@, "/authorizations"@) == Some(n as nat),
                authorizations@.len() == i,
                forall|j: int| 0 <= j < i ==> json_str_at(body@, authorization_pointer(j as nat))
                    == Some(#[trigger] authorizations@[j]@),
                forall|j: nat| j < i ==> json_str_at(body@, #[trigger] authorization_pointer(j)) is Some,
            decreases n - i,
        {
            let mut p = String::from_str("/authorizations/");
            let index = decimal(i);
            p.append(index.as_str());
            assert(p@ == authorization_pointer(i as nat));
            let url = match str_at(body, p.as_str()) {
                Some(u) => u,
                None => return Err(malformed()),
            };
            authorizations.push(url);
            i = i + 1;
        }
        let certificate = str_at(body, "/certificate");
        Ok(Order { location, status, finalize, authorizations, certificate })
    }
}

} // verus!
