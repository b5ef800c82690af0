use vstd::prelude::*;

use crate::account::{account_object, check_account_object, dns_01_txt_of, key_authorization_of, Account};
use crate::directory::{directory_complete, directory_from_body, Directory};
use crate::error::Error;
use crate::nonce::{held_nonce_after, reply_kind, reply_result_matches, Inner};
use crate::order::{order_complete, order_from_body, Order};
use crate::response::{status_is_success, HttpResponse};
use crate::retry::{retry, Retry, KEPT_BAD_NONCE, MAX_BAD_NONCE_RETRIES};

verus! {

/// Where an exchange stands.
pub enum Phase {
    /// Not started.
    Start,
    /// Waiting for the reply to a GET on the directory URL.
    AwaitDirectory,
    /// Waiting for the reply to a HEAD on the new-nonce URL.
    AwaitNonce,
    /// Waiting for the reply to the signed request.
    AwaitReply,
    /// Over.
    Done,
}

/// One operation's run through the bad-nonce retry loop.
pub struct Exchange {
    /// Where the exchange stands.
    pub phase: Phase,
    /// The attempts made so far.
    pub retry: Retry,
    /// The success status the operation expects.
    pub expected: u16,
}

/// What the caller must do next for an exchange.
pub enum Action {
    /// GET this directory URL and hand the reply back.
    GetDirectory(String),
    /// HEAD this new-nonce URL and hand the reply back.
    HeadNonce(String),
    /// Sign the operation's request with this nonce, send it and hand the reply back.
    Send(String),
    /// The exchange is over, with this result.
    Finished(Result<HttpResponse, Error>),
}

impl Exchange {
    /// A fresh exchange for an operation that expects status `expected`.
    pub fn new(expected: u16) -> (r: Exchange)
        ensures
            r.phase is Start,
            r.retry.attempts == 0,
            r.expected == expected,
    {
        Exchange { phase: Phase::Start, retry: retry(), expected }
    }
}

/// A blocking ACME client's state: the engine, the cached directory and the account.
pub struct Client {
    /// The request engine with the held nonce.
    pub inner: Inner,
    /// The directory, once fetched.
    pub directory: Option<Directory>,
    /// The account in use, if any.
    pub account: Option<Account>,
    /// Where the directory is fetched from.
    pub directory_url: String,
}

/// The request the client needs next, given what it holds: the directory,
/// then a nonce, then the signed request itself.
pub open spec fn step_for(c: Client, a: Action, p: Phase) -> bool {
    match c.directory {
        None => a matches Action::GetDirectory(u) && u@ == c.directory_url@ && p is AwaitDirectory,
        Some(d) => match c.inner.nonce {
            None => a matches Action::HeadNonce(u) && u@ == d.new_nonce@ && p is AwaitNonce,
            Some(n) => a matches Action::Send(m) && m@ == n@ && p is AwaitReply,
        },
    }
}

/// The attempts counted once an exchange that has made `attempts` attempts
/// tries again, or `None` where it gives up: the first attempt and three
/// retries are allowed.
pub open spec fn attempts_after_retry(attempts: nat) -> Option<nat> {
    if attempts <= MAX_BAD_NONCE_RETRIES {
        Some(attempts + 1)
    } else {
        None
    }
}

/// The requests an exchange that has made `attempts` attempts still sends
/// when every reply is a retryable bad nonce.
pub open spec fn sends_on_bad_nonces(attempts: nat) -> nat
    decreases MAX_BAD_NONCE_RETRIES + 1 - attempts,
{
    match attempts_after_retry(attempts) {
        Some(n) => 1 + sends_on_bad_nonces(n),
        None => 0,
    }
}

/// An operation whose every reply is a retryable bad nonce sends four
/// requests, the first and three retries; the fourth bad-nonce reply ends it.
pub proof fn lemma_bad_nonce_retry_bound()
    ensures
        sends_on_bad_nonces(0) == 4,
        attempts_after_retry(4) is None,
        forall|k: nat| k < 4 ==> attempts_after_retry(k) == Some(k + 1),
{
    reveal_with_fuel(sends_on_bad_nonces, 5);
}

/// Whether a reply to the directory GET yields a directory.
pub open spec fn directory_reply_ok(reply: Result<HttpResponse, String>) -> bool {
    reply matches Ok(resp) && status_is_success(resp.status) && directory_complete(resp.body@)
}

/// Whether a reply to the new-nonce HEAD yields a nonce.
pub open spec fn nonce_reply_ok(reply: Result<HttpResponse, String>) -> bool {
    reply matches Ok(resp) && status_is_success(resp.status) && resp.headers.nonce is Some
}

/// The message of the error for an operation that needs an account.
pub open spec fn no_account_text() -> Seq<char> {
    "cannot use client without an account"@
}

impl Client {
    /// A client with no directory, account or nonce yet.
    pub fn new(directory_url: String) -> (r: Client)
        ensures
            r.directory_url == directory_url,
            r.directory is None,
            r.account is None,
            r.inner.nonce is None,
            r.inner.proxy is None,
    {
        Client { inner: Inner::new(), directory: None, account: None, directory_url }
    }

    /// The directory URL, without fetching the directory.
    pub fn directory_url(&self) -> (r: &str)
        ensures
            r@ == self.directory_url@,
    {
        self.directory_url.as_str()
    }

    /// Set the account this client should use.
    pub fn set_account(&mut self, account: Account)
        ensures
            final(self).account == Some(account),
            final(self).directory == old(self).directory,
            final(self).inner == old(self).inner,
            final(self).directory_url == old(self).directory_url,
    {
        self.account = Some(account);
    }

    /// The current account, if there is one.
    pub fn account(&self) -> (r: Option<&Account>)
        ensures
            r.is_some() == self.account.is_some(),
            r.is_some() ==> *r.unwrap() == self.account.unwrap(),
    {
        self.account.as_ref()
    }

    /// The current account; using the client without one is an error.
    pub fn need_account(&self) -> (r: Result<&Account, Error>)
        ensures
            r.is_ok() == self.account.is_some(),
            r matches Ok(a) ==> *a == self.account.unwrap(),
            r matches Err(e) ==> (e matches Error::Unauthorized(m) && m@ == no_account_text()),
    {
        match &self.account {
            Some(a) => Ok(a),
            None => Err(Error::Unauthorized(String::from_str("cannot use client without an account"))),
        }
    }

    /// The key authorization of `token` under the current account's key.
    pub fn key_authorization(&self, token: &str) -> (r: Result<String, Error>)
        ensures
            r.is_ok() == self.account.is_some(),
            r matches Ok(k) ==> k@ == key_authorization_of(token@, self.account.unwrap().thumbprint@),
            r matches Err(e) ==> (e matches Error::Unauthorized(m) && m@ == no_account_text()),
    {
        let account = self.need_account()?;
        Ok(account.key_authorization(token))
    }

    /// The DNS-01 TXT record value of `token` under the current account's key.
    pub fn dns_01_txt_value(&self, token: &str) -> (r: Result<Vec<u8>, Error>)
        ensures
            r.is_ok() == self.account.is_some(),
            r matches Ok(v) ==> v@ == dns_01_txt_of(token@, self.account.unwrap().thumbprint@),
            r matches Err(e) ==> (e matches Error::Unauthorized(m) && m@ == no_account_text()),
    {
        let account = self.need_account()?;
        Ok(account.dns_01_txt_value(token))
    }

    /// Set a proxy; the transport is built anew for the next request.
    pub fn set_proxy(&mut self, proxy: String)
        ensures
            final(self).inner.proxy == Some(proxy),
            !final(self).inner.agent_valid,
            final(self).inner.nonce == old(self).inner.nonce,
            final(self).directory == old(self).directory,
            final(self).account == old(self).account,
    {
        self.inner.set_proxy(proxy)
    }

    /// The terms of service URL of the cached directory; the directory must
    /// have been fetched.
    pub fn terms_of_service_url(&self) -> (r: Result<Option<&str>, Error>)
        ensures
            r.is_ok() == self.directory.is_some(),
            r matches Ok(t) ==> (t.is_some() == self.directory.unwrap().terms_of_service.is_some()
                && (t.is_some() ==> t.unwrap()@ == self.directory.unwrap().terms_of_service.unwrap()@)),
            r matches Err(e) ==> e is Client,
    {
        match &self.directory {
            Some(d) => Ok(d.terms_of_service_url()),
            None => Err(Error::Client(String::from_str("directory not fetched yet"))),
        }
    }

    fn next_request(&self, ex: &mut Exchange) -> (a: Action)
        ensures
            step_for(*self, a, final(ex).phase),
            final(ex).retry == old(ex).retry,
            final(ex).expected == old(ex).expected,
    {
        match &self.directory {
            None => {
                ex.phase = Phase::AwaitDirectory;
                Action::GetDirectory(self.directory_url.clone())
            },
            Some(d) => match &self.inner.nonce {
                None => {
                    ex.phase = Phase::AwaitNonce;
                    Action::HeadNonce(d.new_nonce.clone())
                },
                Some(n) => {
                    ex.phase = Phase::AwaitReply;
                    Action::Send(n.clone())
                },
            },
        }
    }

    /// Starts an exchange: counts the attempt and asks for what is missing first.
    pub fn start(&mut self, ex: &mut Exchange) -> (a: Action)
        ensures
            *final(self) == *old(self),
            final(ex).expected == old(ex).expected,
            old(ex).retry.attempts <= MAX_BAD_NONCE_RETRIES + 1 ==> final(ex).retry.attempts
                <= MAX_BAD_NONCE_RETRIES + 1,
            match attempts_after_retry(old(ex).retry.attempts as nat) {
                Some(n) => final(ex).retry.attempts == n && step_for(*old(self), a, final(ex).phase),
                None => a matches Action::Finished(Err(Error::Client(m))) && m@ == KEPT_BAD_NONCE@
                    && final(ex).phase is Done,
            },
    {
        match ex.retry.tick() {
            Ok(()) => self.next_request(ex),
            Err(e) => {
                ex.phase = Phase::Done;
                Action::Finished(Err(e))
            },
        }
    }

    /// Hands the reply to the last request of an exchange to the client and
    /// says what comes next. On a retryable bad-nonce reply the request is
    /// sent again with the fresh nonce, up to three times; the fourth bad-nonce
    /// reply ends the exchange.
    pub fn advance(&mut self, ex: &mut Exchange, reply: Result<HttpResponse, String>) -> (a: Action)
        ensures
            final(ex).expected == old(ex).expected,
            old(ex).retry.attempts <= MAX_BAD_NONCE_RETRIES + 1 ==> final(ex).retry.attempts
                <= MAX_BAD_NONCE_RETRIES + 1,
            final(self).account == old(self).account,
            final(self).directory_url == old(self).directory_url,
            final(self).inner.proxy == old(self).inner.proxy,
            old(ex).phase is AwaitDirectory ==> if directory_reply_ok(reply) {
                &&& final(self).directory matches Some(d)
                &&& directory_from_body(d, old(self).directory_url@, reply->Ok_0.body@)
                &&& final(self).inner == old(self).inner
                &&& final(ex).retry == old(ex).retry
                &&& step_for(*final(self), a, final(ex).phase)
            } else {
                &&& a matches Action::Finished(Err(_))
                &&& final(ex).phase is Done
                &&& *final(self) == *old(self)
            },
            old(ex).phase is AwaitNonce ==> if nonce_reply_ok(reply) {
                &&& final(self).directory == old(self).directory
                &&& final(self).inner.nonce == reply->Ok_0.headers.nonce
                &&& final(ex).retry == old(ex).retry
                &&& step_for(*final(self), a, final(ex).phase)
            } else {
                &&& a matches Action::Finished(Err(_))
                &&& final(ex).phase is Done
                &&& final(self).directory == old(self).directory
                &&& final(self).inner.nonce == old(self).inner.nonce
            },
            old(ex).phase is AwaitReply ==> final(self).directory == old(self).directory && match reply {
                Err(_) => a matches Action::Finished(Err(Error::Transport(_))) && final(ex).phase is Done
                    && final(self).inner.nonce == old(self).inner.nonce,
                Ok(resp) => {
                    let k = reply_kind(resp.status, old(ex).expected, resp.body@, resp.headers.nonce is Some);
                    &&& final(self).inner.nonce == held_nonce_after(old(self).inner.nonce, resp.headers.nonce)
                    &&& if k is RetryableBadNonce {
                        match attempts_after_retry(old(ex).retry.attempts as nat) {
                            Some(n) => {
                                &&& final(ex).retry.attempts == n
                                &&& step_for(*final(self), a, final(ex).phase)
                                &&& old(self).directory is Some ==> (a matches Action::Send(m)
                                    && m@ == resp.headers.nonce->Some_0@)
                            },
                            None => {
                                &&& a matches Action::Finished(Err(Error::Client(m)))
                                &&& m@ == KEPT_BAD_NONCE@
                                &&& final(ex).phase is Done
                            },
                        }
                    } else {
                        &&& a matches Action::Finished(r)
                        &&& reply_result_matches(k, resp, r)
                        &&& final(ex).phase is Done
                    }
                },
            },
            (old(ex).phase is Start || old(ex).phase is Done) ==> (a matches Action::Finished(Err(
                Error::Client(_),
            )) && final(ex).phase is Done && *final(self) == *old(self)),
    {
        match ex.phase {
            Phase::AwaitDirectory => {
                match Directory::from_reply(self.directory_url.clone(), reply) {
                    Ok(d) => {
                        self.directory = Some(d);
                        self.next_request(ex)
                    },
                    Err(e) => {
                        ex.phase = Phase::Done;
                        Action::Finished(Err(e))
                    },
                }
            },
            Phase::AwaitNonce => {
                match self.inner.new_nonce_reply(reply) {
                    Ok(()) => self.next_request(ex),
                    Err(e) => {
                        ex.phase = Phase::Done;
                        Action::Finished(Err(e))
                    },
                }
            },
            Phase::AwaitReply => {
                match self.inner.run_request_reply(ex.expected, reply) {
                    Ok(response) => {
                        ex.phase = Phase::Done;
                        Action::Finished(Ok(response))
                    },
                    Err(Error::BadNonce) => match ex.retry.tick() {
                        Ok(()) => self.next_request(ex),
                        Err(e) => {
                            ex.phase = Phase::Done;
                            Action::Finished(Err(e))
                        },
                    },
                    Err(e) => {
                        ex.phase = Phase::Done;
                        Action::Finished(Err(e))
                    },
                }
            },
            _ => {
                ex.phase = Phase::Done;
                Action::Finished(
                    Err(Error::Client(String::from_str("exchange is not awaiting a reply"))),
                )
            },
        }
    }

    /// Finishes a registration with the server's reply: the reply must carry
    /// the new account's location, and the client then uses that account.
    pub fn account_registered(&mut self, response: HttpResponse, thumbprint: String) -> (r: Result<
        (),
        Error,
    >)
        ensures
            r.is_ok() == (response.headers.location.is_some() && account_object(response.body@)),
            r.is_ok() ==> final(self).account == Some(
                (Account { location: response.headers.location->Some_0, thumbprint, data: response.body }),
            ),
            r matches Err(e) ==> (e is InvalidApi && final(self).account == old(self).account),
            final(self).directory == old(self).directory,
            final(self).inner == old(self).inner,
    {
        let mut response = response;
        let location = response.location_required()?;
        check_account_object(response.bytes())?;
        self.account = Some(Account { location, thumbprint, data: response.body });
        Ok(())
    }

    /// Replaces the account data with the server's reply to an account update;
    /// a reply that is no account object leaves the account as it was.
    pub fn account_updated(&mut self, response: HttpResponse) -> (r: Result<(), Error>)
        ensures
            r.is_ok() == (old(self).account.is_some() && account_object(response.body@)),
            r.is_ok() ==> final(self).account == Some(
                (Account { data: response.body, ..old(self).account->Some_0 }),
            ),
            old(self).account is None ==> (r matches Err(Error::Unauthorized(m)) && m@ == no_account_text()),
            old(self).account is Some ==> (r matches Err(e) ==> e is InvalidApi),
            r is Err ==> final(self).account == old(self).account,
            final(self).directory == old(self).directory,
            final(self).inner == old(self).inner,
    {
        if self.account.is_none() {
            return Err(Error::Unauthorized(String::from_str("cannot use client without an account")));
        }
        check_account_object(response.bytes())?;
        match self.account.take() {
            Some(a) => {
                self.account = Some(Account { data: response.body, ..a });
                Ok(())
            },
            None => Err(Error::Unauthorized(String::from_str("cannot use client without an account"))),
        }
    }

    /// Reads the order the server created: the reply must carry its location.
    pub fn order_created(&self, response: HttpResponse) -> (r: Result<Order, Error>)
        ensures
            response.headers.location is None ==> r matches Err(Error::InvalidApi(_)),
            response.headers.location matches Some(l) ==> (r.is_ok() == order_complete(
                response.body@,
            ) && (r matches Ok(o) ==> order_from_body(o, l@, response.body@))),
            r matches Err(e) ==> e is InvalidApi,
    {
        let mut response = response;
        let location = response.location_required()?;
        Order::from_json(location, response.bytes())
    }
}

} // verus!
