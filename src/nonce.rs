use vstd::prelude::*;

use crate::error::{Error, ErrorResponse, BAD_NONCE};
use crate::json::{json_str_at, str_at};
use crate::response::{status_is_success, HttpResponse};
use crate::text::{decimal, decimal_text};

verus! {

/// The nonce held after a reply that carried `reply` in its nonce header:
/// the new one if there is one, else the one held before.
pub open spec fn held_nonce_after(held: Option<String>, reply: Option<String>) -> Option<String> {
    match reply {
        Some(n) => Some(n),
        None => held,
    }
}

/// The nonce held after replies carrying `replies` in their nonce headers
/// were handled one after another, starting from `held`.
pub open spec fn held_after_replies(held: Option<String>, replies: Seq<Option<String>>) -> Option<String>
    decreases replies.len(),
{
    if replies.len() == 0 {
        held
    } else {
        held_nonce_after(held_after_replies(held, replies.drop_last()), replies.last())
    }
}

/// After any run of exchanges, the engine holds the nonce of the latest reply
/// that carried one; where none did, it still holds the nonce it started with.
pub proof fn lemma_nonce_is_latest(held: Option<String>, replies: Seq<Option<String>>)
    ensures
        (forall|i: int| 0 <= i < replies.len() ==> #[trigger] replies[i] is None)
            ==> held_after_replies(held, replies) == held,
        (exists|i: int| 0 <= i < replies.len() && #[trigger] replies[i] is Some) ==> exists|i: int|
            0 <= i < replies.len() && #[trigger] replies[i] is Some && held_after_replies(held, replies)
                == replies[i] && forall|j: int| i < j < replies.len() ==> #[trigger] replies[j] is None,
    decreases replies.len(),
{
    if replies.len() > 0 {
        let init = replies.drop_last();
        lemma_nonce_is_latest(held, init);
        let n = replies.len() - 1;
        if replies.last() is Some {
            assert(replies[n] is Some);
        } else {
            assert forall|i: int| 0 <= i < init.len() implies #[trigger] init[i] == replies[i] by {}
            if exists|i: int| 0 <= i < replies.len() && #[trigger] replies[i] is Some {
                let k = choose|i: int| 0 <= i < replies.len() && #[trigger] replies[i] is Some;
                assert(init[k] is Some);
                let i = choose|i: int|
                    0 <= i < init.len() && #[trigger] init[i] is Some && held_after_replies(held, init)
                        == init[i] && forall|j: int| i < j < init.len() ==> #[trigger] init[j] is None;
                assert(replies[i] is Some);
                assert forall|j: int| i < j < replies.len() implies #[trigger] replies[j] is None by {
                    if j < n {
                        assert(init[j] is None);
                    }
                }
            }
        }
    }
}

/// The problem type of an error reply's body, if it is a problem document.
pub open spec fn problem_type(body: Seq<u8>) -> Option<Seq<char>> {
    json_str_at(body, "/type"@)
}

/// What a request whose transport delivered `reply` comes to, given the status
/// the operation expects; `got_nonce` says whether the reply carried a nonce.
pub enum ReplyKind {
    /// A success status equal to the expected one.
    Accepted,
    /// A success status other than the expected one.
    UnexpectedStatus,
    /// An error status whose body is no problem document.
    ImproperError,
    /// A bad-nonce problem that came with a fresh nonce: retry.
    RetryableBadNonce,
    /// A bad-nonce problem without a fresh nonce: the server broke the protocol.
    BadNonceWithoutNonce,
    /// Any other problem document.
    Problem,
}

/// Classifies a reply with status `status`, body `body`, and a nonce header or not.
pub open spec fn reply_kind(status: u16, expected: u16, body: Seq<u8>, got_nonce: bool) -> ReplyKind {
    if status_is_success(status) {
        if status == expected { ReplyKind::Accepted } else { ReplyKind::UnexpectedStatus }
    } else {
        match problem_type(body) {
            None => ReplyKind::ImproperError,
            Some(ty) => if ty == BAD_NONCE@ {
                if got_nonce { ReplyKind::RetryableBadNonce } else { ReplyKind::BadNonceWithoutNonce }
            } else {
                ReplyKind::Problem
            },
        }
    }
}

/// The message of the error for a success status other than the expected one.
pub open spec fn unexpected_status_text(status: u16) -> Seq<char> {
    "API server responded with unexpected status code: "@ + decimal_text(status as nat)
}

/// The message of the error for an error status without a problem document.
pub open spec fn improper_error_text() -> Seq<char> {
    "error status with improper error ACME response"@
}

/// The message of the error for a bad-nonce problem without a fresh nonce.
pub open spec fn bad_nonce_without_nonce_text() -> Seq<char> {
    "badNonce without a new Replay-Nonce header"@
}

/// Whether `r` is the error or value that a reply of kind `k` gives.
pub open spec fn reply_result_matches(
    k: ReplyKind,
    reply: HttpResponse,
    r: Result<HttpResponse, Error>,
) -> bool {
    match k {
        ReplyKind::Accepted => r matches Ok(resp) && resp.status == reply.status && resp.body
            == reply.body && resp.headers.location == reply.headers.location
            && resp.headers.nonce is None,
        ReplyKind::UnexpectedStatus => r matches Err(Error::InvalidApi(m)) && m@
            == unexpected_status_text(reply.status),
        ReplyKind::ImproperError => r matches Err(Error::InvalidApi(m)) && m@ == improper_error_text(),
        ReplyKind::RetryableBadNonce => r matches Err(Error::BadNonce),
        ReplyKind::BadNonceWithoutNonce => r matches Err(Error::InvalidApi(m)) && m@
            == bad_nonce_without_nonce_text(),
        ReplyKind::Problem => r matches Err(Error::Api(e)) && Some(e.ty@) == problem_type(
            reply.body@,
        ) && match e.detail {
            Some(d) => json_str_at(reply.body@, "/detail"@) == Some(d@),
            None => json_str_at(reply.body@, "/detail"@) is None,
        },
    }
}

/// Reads the problem document of an error reply: `None` where the body has no
/// string `type` member.
pub fn problem_document(body: &[u8]) -> (r: Option<ErrorResponse>)
    ensures
        match r {
            Some(e) => Some(e.ty@) == problem_type(body@) && match e.detail {
                Some(d) => json_str_at(body@, "/detail"@) == Some(d@),
                None => json_str_at(body@, "/detail"@) is None,
            },
            None => problem_type(body@) is None,
        },
{
    match str_at(body, "/type") {
        Some(ty) => Some(ErrorResponse { ty, detail: str_at(body, "/detail") }),
        None => None,
    }
}

/// The request engine's own state: the held nonce and the proxy setting.
pub struct Inner {
    /// The nonce to use for the next request, if one is held.
    pub nonce: Option<String>,
    /// The proxy the transport should go through.
    pub proxy: Option<String>,
    /// Whether a transport handle built earlier may still be used.
    pub agent_valid: bool,
}

impl Inner {
    /// An engine holding no nonce and no proxy.
    pub fn new() -> (r: Inner)
        ensures
            r.nonce is None,
            r.proxy is None,
            !r.agent_valid,
    {
        Inner { nonce: None, proxy: None, agent_valid: false }
    }

    /// Sets the proxy; a transport handle built before must be built anew.
    pub fn set_proxy(&mut self, proxy: String)
        ensures
            final(self).proxy == Some(proxy),
            !final(self).agent_valid,
            final(self).nonce == old(self).nonce,
    {
        self.proxy = Some(proxy);
        self.agent_valid = false;
    }

    /// Records that a transport handle was built with the current proxy setting.
    pub fn agent_built(&mut self)
        ensures
            final(self).agent_valid,
            final(self).proxy == old(self).proxy,
            final(self).nonce == old(self).nonce,
    {
        self.agent_valid = true;
    }

    /// If the response carried a nonce, move it into the engine and return `true`,
    /// otherwise keep the held nonce and return `false`.
    pub fn update_nonce(&mut self, response: &mut HttpResponse) -> (got: bool)
        ensures
            got == old(response).headers.nonce.is_some(),
            final(self).nonce == held_nonce_after(old(self).nonce, old(response).headers.nonce),
            final(self).proxy == old(self).proxy,
            final(self).agent_valid == old(self).agent_valid,
            final(response).headers.nonce is None,
            final(response).headers.location == old(response).headers.location,
            final(response).body == old(response).body,
            final(response).status == old(response).status,
    {
        match response.headers.nonce.take() {
            Some(nonce) => {
                self.nonce = Some(nonce);
                true
            },
            None => false,
        }
    }

    /// Update the nonce; a response without one is an error.
    pub fn must_update_nonce(&mut self, response: &mut HttpResponse) -> (r: Result<(), Error>)
        ensures
            r.is_ok() == old(response).headers.nonce.is_some(),
            r matches Err(e) ==> e is InvalidApi,
            final(self).nonce == held_nonce_after(old(self).nonce, old(response).headers.nonce),
            final(self).proxy == old(self).proxy,
            final(self).agent_valid == old(self).agent_valid,
    {
        if !self.update_nonce(response) {
            return Err(Error::InvalidApi(String::from_str("newNonce URL did not return a nonce")));
        }
        Ok(())
    }

    /// Handles the reply to a HEAD on the new-nonce URL: it must succeed and
    /// carry a nonce, which the engine then holds.
    pub fn new_nonce_reply(&mut self, reply: Result<HttpResponse, String>) -> (r: Result<(), Error>)
        ensures
            final(self).proxy == old(self).proxy,
            final(self).agent_valid == old(self).agent_valid,
            match reply {
                Err(_) => r matches Err(Error::Transport(_)) && final(self).nonce == old(
                    self,
                ).nonce,
                Ok(resp) => if !status_is_success(resp.status) {
                    r matches Err(Error::InvalidApi(_)) && final(self).nonce == old(self).nonce
                } else {
                    r.is_ok() == resp.headers.nonce.is_some() && (r matches Err(e) ==> e is InvalidApi)
                        && final(self).nonce == held_nonce_after(
                        old(self).nonce,
                        resp.headers.nonce,
                    )
                },
            },
    {
        match reply {
            Err(msg) => {
                let mut text = String::from_str("failed to get HEAD of newNonce URL: ");
                text.append(msg.as_str());
                Err(Error::Transport(text))
            },
            Ok(mut response) => {
                if !response.is_success() {
                    return Err(Error::InvalidApi(String::from_str("HEAD on newNonce URL returned error")));
                }
                self.must_update_nonce(&mut response)
            },
        }
    }

    /// Handles the reply to a signed request: takes over the reply's nonce
    /// whatever the status, then checks a success status against `expected`,
    /// or reads the problem document of an error status.
    pub fn run_request_reply(
        &mut self,
        expected: u16,
        reply: Result<HttpResponse, String>,
    ) -> (r: Result<HttpResponse, Error>)
        ensures
            final(self).proxy == old(self).proxy,
            final(self).agent_valid == old(self).agent_valid,
            match reply {
                Err(_) => r matches Err(Error::Transport(_)) && final(self).nonce == old(self).nonce,
                Ok(resp) => final(self).nonce == held_nonce_after(
                    old(self).nonce,
                    resp.headers.nonce,
                ) && reply_result_matches(
                    reply_kind(resp.status, expected, resp.body@, resp.headers.nonce.is_some()),
                    resp,
                    r,
                ),
            },
    {
        let mut response = match reply {
            Err(msg) => {
                let mut text = String::from_str("failed to execute request: ");
                text.append(msg.as_str());
                return Err(Error::Transport(text));
            },
            Ok(response) => response,
        };
        let got_nonce = self.update_nonce(&mut response);
        if response.is_success() {
            if response.status != expected {
                let mut text = String::from_str("API server responded with unexpected status code: ");
                text.append(decimal(response.status as usize).as_str());
                return Err(Error::InvalidApi(text));
            }
            return Ok(response);
        }
        let error = match problem_document(response.bytes()) {
            Some(e) => e,
            None => {
                return Err(
                    Error::InvalidApi(String::from_str("error status with improper error ACME response")),
                );
            },
        };
        let bad_nonce = String::from_str(BAD_NONCE);
        if error.ty == bad_nonce {
            if !got_nonce {
                return Err(
                    Error::InvalidApi(String::from_str("badNonce without a new Replay-Nonce header")),
                );
            }
            return Err(Error::BadNonce);
        }
        Err(Error::Api(error))
    }
}

} // verus!
