use vstd::prelude::*;

use crate::error::Error;
use crate::json::{json_str_at, str_at};
use crate::response::{status_is_success, HttpResponse};
use crate::text::{decimal, decimal_text};

verus! {

/// The ACME server's endpoint URLs, fetched once and cached.
pub struct Directory {
    /// The URL this directory was fetched from.
    pub url: String,
    /// The `newNonce` endpoint.
    pub new_nonce: String,
    /// The `newAccount` endpoint.
    pub new_account: String,
    /// The `newOrder` endpoint.
    pub new_order: String,
    /// The `revokeCert` endpoint.
    pub revoke_cert: String,
    /// The terms of service, from `meta.termsOfService`, if the server has any.
    pub terms_of_service: Option<String>,
}

/// Whether `d` is the directory that the JSON text `body` describes, fetched from `url`.
pub open spec fn directory_from_body(d: Directory, url: Seq<char>, body: Seq<u8>) -> bool {
    &&& d.url@ == url
    &&& json_str_at(body, "/newNonce"@) == Some(d.new_nonce@)
    &&& json_str_at(body, "/newAccount"@) == Some(d.new_account@)
    &&& json_str_at(body, "/newOrder"@) == Some(d.new_order@)
    &&& json_str_at(body, "/revokeCert"@) == Some(d.revoke_cert@)
    &&& match d.terms_of_service {
        Some(t) => json_str_at(body, "/meta/termsOfService"@) == Some(t@),
        None => json_str_at(body, "/meta/termsOfService"@) is None,
    }
}

/// The message of the error for a directory GET answered with `status`.
pub open spec fn directory_status_text(status: u16) -> Seq<char> {
    "GET on the directory URL returned error status ("@ + decimal_text(status as nat) + ")"@
}

/// Whether the JSON text `body` names all the endpoints a directory needs.
pub open spec fn directory_complete(body: Seq<u8>) -> bool {
    &&& json_str_at(body, "/newNonce"@) is Some
    &&& json_str_at(body, "/newAccount"@) is Some
    &&& json_str_at(body, "/newOrder"@) is Some
    &&& json_str_at(body, "/revokeCert"@) is Some
}

impl Directory {
    /// Reads a directory from its JSON text; fails where an endpoint is missing.
    pub fn from_parts(url: String, body: &[u8]) -> (r: Result<Directory, Error>)
        ensures
            r.is_ok() == directory_complete(body@),
            r matches Ok(d) ==> directory_from_body(d, url@, body@),
            r matches Err(e) ==> e is InvalidApi,
    {
        let new_nonce = str_at(body, "/newNonce");
        let new_account = str_at(body, "/newAccount");
        let new_order = str_at(body, "/newOrder");
        let revoke_cert = str_at(body, "/revokeCert");
        let terms_of_service = str_at(body, "/meta/termsOfService");
        match (new_nonce, new_account, new_order, revoke_cert) {
            (Some(new_nonce), Some(new_account), Some(new_order), Some(revoke_cert)) => Ok(
                Directory { url, new_nonce, new_account, new_order, revoke_cert, terms_of_service },
            ),
            _ => Err(Error::InvalidApi(String::from_str("incomplete ACME directory"))),
        }
    }

    /// Handles the reply to a GET on the directory URL.
    pub fn from_reply(url: String, reply: Result<HttpResponse, String>) -> (r: Result<
        Directory,
        Error,
    >)
        ensures
            match reply {
                Err(_) => r matches Err(Error::Transport(_)),
                Ok(resp) => if !status_is_success(resp.status) {
                    r matches Err(Error::InvalidApi(m)) && m@ == directory_status_text(resp.status)
                } else {
                    &&& r.is_ok() == directory_complete(resp.body@)
                    &&& r matches Ok(d) ==> directory_from_body(d, url@, resp.body@)
                    &&& r matches Err(e) ==> e is InvalidApi
                },
            },
    {
        match reply {
            Err(msg) => {
                let mut text = String::from_str("failed to get directory info: ");
                text.append(msg.as_str());
                Err(Error::Transport(text))
            },
            Ok(response) => {
                if !response.is_success() {
                    let mut text = String::from_str("GET on the directory URL returned error status (");
                    text.append(decimal(response.status as usize).as_str());
                    text.append(")");
                    return Err(Error::InvalidApi(text));
                }
                Directory::from_parts(url, response.bytes())
            },
        }
    }

    /// The `newNonce` URL.
    pub fn new_nonce_url(&self) -> (r: &str)
        ensures
            r@ == self.new_nonce@,
    {
        self.new_nonce.as_str()
    }

    /// The terms of service URL, if the server has one.
    pub fn terms_of_service_url(&self) -> (r: Option<&str>)
        ensures
            r.is_some() == self.terms_of_service.is_some(),
            r.is_some() ==> r.unwrap()@ == self.terms_of_service.unwrap()@,
    {
        match &self.terms_of_service {
            Some(t) => Some(t.as_str()),
            None => None,
        }
    }
}

} // verus!
