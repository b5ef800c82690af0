use vstd::prelude::*;

use crate::error::Error;
use crate::text::{byte_list, byte_list_text};

verus! {

/// Whether an HTTP status code lies in the success range 200..=299.
pub open spec fn status_is_success(status: u16) -> bool {
    200 <= status < 300
}

/// The HTTP methods the ACME exchange uses.
pub enum Method {
    Get,
    Head,
    Post,
}

/// Reads a request method; only GET, HEAD and POST are supported.
pub fn parse_method(method: &[u8]) -> (r: Result<Method, Error>)
    ensures
        method@ == seq![71u8, 69, 84] ==> r matches Ok(Method::Get),
        method@ == seq![72u8, 69, 65, 68] ==> r matches Ok(Method::Head),
        method@ == seq![80u8, 79, 83, 84] ==> r matches Ok(Method::Post),
        method@ != seq![71u8, 69, 84] && method@ != seq![72u8, 69, 65, 68] && method@ != seq![
            80u8,
            79,
            83,
            84,
        ] ==> (r matches Err(Error::Client(m)) && m@ == "invalid http method: "@ + byte_list_text(method@)),
{
    if method.len() == 3 && method[0] == 71 && method[1] == 69 && method[2] == 84 {
        assert(method@ =~= seq![71u8, 69, 84]);
        Ok(Method::Get)
    } else if method.len() == 4 && method[0] == 72 && method[1] == 69 && method[2] == 65 && method[3] == 68 {
        assert(method@ =~= seq![72u8, 69, 65, 68]);
        Ok(Method::Head)
    } else if method.len() == 4 && method[0] == 80 && method[1] == 79 && method[2] == 83 && method[3] == 84 {
        assert(method@ =~= seq![80u8, 79, 83, 84]);
        Ok(Method::Post)
    } else {
        let mut text = String::from_str("invalid http method: ");
        text.append(byte_list(method).as_str());
        Err(Error::Client(text))
    }
}

/// Contains the headers of an HTTP response which matter to the ACME protocol.
pub struct Headers {
    /// The 'Location' header: where a created account or order can be queried.
    pub location: Option<String>,
    /// The 'Replay-Nonce' header: the next nonce to use.
    pub nonce: Option<String>,
}

impl Headers {
    /// Headers with the given location and nonce.
    pub fn new(location: Option<String>, nonce: Option<String>) -> (r: Headers)
        ensures
            r.location == location,
            r.nonce == nonce,
    {
        Headers { location, nonce }
    }
}

/// Low level HTTP response structure.
pub struct HttpResponse {
    /// The raw HTTP response body.
    pub body: Vec<u8>,
    /// The HTTP status code.
    pub status: u16,
    /// The headers relevant to the ACME protocol.
    pub headers: Headers,
}

impl HttpResponse {
    /// Check the HTTP status code for a success code (200..299).
    pub fn is_success(&self) -> (r: bool)
        ensures
            r == status_is_success(self.status),
    {
        self.status >= 200 && self.status < 300
    }

    /// Access the raw body as bytes.
    pub fn bytes(&self) -> (r: &[u8])
        ensures
            r@ == self.body@,
    {
        self.body.as_slice()
    }

    /// Get the returned location header.
    pub fn location(&self) -> (r: Option<&str>)
        ensures
            r.is_some() == self.headers.location.is_some(),
            r.is_some() ==> r.unwrap()@ == self.headers.location.unwrap()@,
    {
        match &self.headers.location {
            Some(l) => Some(l.as_str()),
            None => None,
        }
    }

    /// Take the location header out of the response; its absence is a protocol error.
    pub fn location_required(&mut self) -> (r: Result<String, Error>)
        ensures
            final(self).headers.location.is_none(),
            final(self).headers.nonce == old(self).headers.nonce,
            final(self).body == old(self).body,
            final(self).status == old(self).status,
            match old(self).headers.location {
                Some(l) => r == Ok::<String, Error>(l),
                None => r matches Err(Error::InvalidApi(_)),
            },
    {
        match self.headers.location.take() {
            Some(l) => Ok(l),
            None => Err(Error::InvalidApi(String::from_str("missing Location header"))),
        }
    }
}

} // verus!
