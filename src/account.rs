use vstd::prelude::*;
use vstd::utf8::encode_utf8;

use crate::b64u::{b64u_of, encode};
use crate::error::Error;
use crate::json::{json_str_at, str_at};

verus! {

/// A registered ACME account.
pub struct Account {
    /// The account URL the server assigned.
    pub location: String,
    /// The base64url JWK thumbprint (RFC 7638) of the account key.
    pub thumbprint: String,
    /// The account object (JSON text) as the server last returned it.
    pub data: Vec<u8>,
}

/// Whether the JSON text `body` is an account object: it has a string `status`.
pub open spec fn account_object(body: Seq<u8>) -> bool {
    json_str_at(body, "/status"@) is Some
}

/// Checks that the JSON text `body` is an account object.
pub fn check_account_object(body: &[u8]) -> (r: Result<(), Error>)
    ensures
        r.is_ok() == account_object(body@),
        r matches Err(e) ==> e is InvalidApi,
{
    match str_at(body, "/status") {
        Some(_) => Ok(()),
        None => Err(Error::InvalidApi(String::from_str("reply is no ACME account object"))),
    }
}

/// The key authorization of a challenge token (RFC 8555, section 8.1).
pub open spec fn key_authorization_of(token: Seq<char>, thumbprint: Seq<char>) -> Seq<char> {
    token + "."@ + thumbprint
}

/// The SHA-256 digest of a byte string.
pub uninterp spec fn sha256_of(data: Seq<u8>) -> Seq<u8>;

/// Relies on `openssl::sha::sha256`: the 32-byte SHA-256 digest of `data`.
#[verifier::external_body]
fn sha256(data: &[u8]) -> (r: Vec<u8>)
    ensures
        r@ == sha256_of(data@),
        r@.len() == 32,
{
    openssl::sha::sha256(data).to_vec()
}

/// The DNS-01 TXT record value of a challenge token (RFC 8555, section 8.4):
/// the base64url SHA-256 digest of its key authorization.
pub open spec fn dns_01_txt_of(token: Seq<char>, thumbprint: Seq<char>) -> Seq<u8> {
    b64u_of(sha256_of(encode_utf8(key_authorization_of(token, thumbprint))))
}

impl Account {
    /// The key authorization of `token` under this account's key.
    pub fn key_authorization(&self, token: &str) -> (r: String)
        ensures
            r@ == key_authorization_of(token@, self.thumbprint@),
    {
        let mut r = String::from_str(token);
        r.append(".");
        r.append(self.thumbprint.as_str());
        r
    }

    /// The DNS-01 TXT record value of `token`, as ASCII bytes.
    pub fn dns_01_txt_value(&self, token: &str) -> (r: Vec<u8>)
        ensures
            r@ == dns_01_txt_of(token@, self.thumbprint@),
    {
        let key_auth = self.key_authorization(token);
        let digest = sha256(key_auth.as_str().as_bytes());
        encode(digest.as_slice())
    }
}

} // verus!
