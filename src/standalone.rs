use vstd::prelude::*;

use crate::account::key_authorization_of;
use crate::client::{no_account_text, Client};
use crate::error::Error;
use crate::order::Authorization;
use crate::plugin::{
    challenge_path, challenge_with_token, first_of_type_has_token, is_first_of_type, missing_token_text,
    no_challenge_text, CHALLENGE_PATH_PREFIX,
};

verus! {

#[verifier::external_type_specification]
#[verifier::external_body]
pub struct ExAbortHandle(futures::future::AbortHandle);

/// Relies on `futures::future::AbortHandle::abort`: cancels the task the handle
/// belongs to; it never fails.
pub assume_specification[ futures::future::AbortHandle::abort ](h: &futures::future::AbortHandle);

/// What an HTTP-01 listener for one challenge serves, and where the CA is
/// then asked to validate.
pub struct StandalonePlan {
    /// The challenge's validation URL.
    pub validation_url: String,
    /// The one path that is answered.
    pub path: String,
    /// The key authorization served there.
    pub key_auth: String,
}

/// The HTTP-01 standalone responder: at most one listener, owned through the
/// handle that cancels its accept loop.
pub struct StandaloneServer {
    /// Cancels the running listener, if there is one.
    pub abort_handle: Option<futures::future::AbortHandle>,
    /// The handles of the listeners this responder has cancelled, in order.
    pub aborted: Ghost<Seq<futures::future::AbortHandle>>,
}

/// Whether `after` has cancelled the listener `before` held, if any, and holds none.
pub open spec fn stopped_from(before: StandaloneServer, after: StandaloneServer) -> bool {
    &&& after.abort_handle is None
    &&& match before.abort_handle {
        Some(h) => after.aborted@ == before.aborted@.push(h),
        None => after.aborted@ == before.aborted@,
    }
}

/// Whether `after` holds the listener `handle`, having cancelled the one
/// `before` held, if any.
pub open spec fn listening_from(
    before: StandaloneServer,
    after: StandaloneServer,
    handle: futures::future::AbortHandle,
) -> bool {
    &&& after.abort_handle == Some(handle)
    &&& match before.abort_handle {
        Some(h) => after.aborted@ == before.aborted@.push(h),
        None => after.aborted@ == before.aborted@,
    }
}

/// Two setups in succession, each stopping the previous listener and then
/// taking its new one, leave exactly one listener, the second; the first was
/// cancelled before the second was taken.
pub proof fn lemma_setup_twice_keeps_one(
    s0: StandaloneServer,
    s1: StandaloneServer,
    s2: StandaloneServer,
    s3: StandaloneServer,
    s4: StandaloneServer,
    first: futures::future::AbortHandle,
    second: futures::future::AbortHandle,
)
    requires
        stopped_from(s0, s1),
        listening_from(s1, s2, first),
        stopped_from(s2, s3),
        listening_from(s3, s4, second),
    ensures
        s4.abort_handle == Some(second),
        s3.aborted@.last() == first,
        s4.aborted@ == s2.aborted@.push(first),
{
}

impl StandaloneServer {
    /// A responder with no listener.
    pub fn new() -> (r: StandaloneServer)
        ensures
            r.abort_handle is None,
            r.aborted@ == Seq::<futures::future::AbortHandle>::empty(),
    {
        StandaloneServer { abort_handle: None, aborted: Ghost(Seq::empty()) }
    }

    /// Whether a listener is running.
    pub fn is_listening(&self) -> (r: bool)
        ensures
            r == self.abort_handle.is_some(),
    {
        self.abort_handle.is_some()
    }

    /// Cancels the running listener, if any; says whether there was one.
    pub fn stop(&mut self) -> (stopped: bool)
        ensures
            stopped == old(self).abort_handle.is_some(),
            stopped_from(*old(self), *final(self)),
    {
        match self.abort_handle.take() {
            Some(abort) => {
                abort.abort();
                proof {
                    self.aborted@ = self.aborted@.push(abort);
                }
                true
            },
            None => false,
        }
    }

    /// The first half of setup: stops any previous listener, then picks the
    /// first http-01 challenge and computes what the new listener serves.
    /// It succeeds exactly when that challenge has a token and the client an account.
    pub fn prepare(&mut self, client: &Client, authorization: &Authorization) -> (r: Result<
        StandalonePlan,
        Error,
    >)
        ensures
            stopped_from(*old(self), *final(self)),
            r.is_ok() == (client.account is Some && first_of_type_has_token(
                authorization.challenges@,
                "http-01"@,
            )),
            r matches Ok(p) ==> exists|i: int|
                #[trigger] is_first_of_type(authorization.challenges@, "http-01"@, i) && {
                    let c = authorization.challenges@[i];
                    &&& c.token matches Some(t)
                    &&& p.validation_url@ == c.url@
                    &&& p.path@ == CHALLENGE_PATH_PREFIX@ + t@
                    &&& client.account matches Some(a)
                    &&& p.key_auth@ == key_authorization_of(t@, a.thumbprint@)
                },
            r matches Err(e) ==> ((e matches Error::Client(m) && (m@ == no_challenge_text("http-01"@)
                || m@ == missing_token_text())) || (e matches Error::Unauthorized(m) && m@
                == no_account_text())),
    {
        self.stop();
        let (challenge, token) = challenge_with_token(authorization, "http-01")?;
        let key_auth = client.key_authorization(token)?;
        let path = challenge_path(token);
        Ok(StandalonePlan { validation_url: challenge.url.clone(), path, key_auth })
    }

    /// The second half of setup: takes ownership of the new listener's handle,
    /// cancelling any listener still held, so that exactly one runs.
    pub fn listening(&mut self, handle: futures::future::AbortHandle)
        ensures
            listening_from(*old(self), *final(self), handle),
    {
        self.stop();
        self.abort_handle = Some(handle);
    }

    /// Stops the listener; without one this does nothing, and it never fails.
    pub fn teardown(&mut self) -> (r: Result<(), Error>)
        ensures
            r is Ok,
            stopped_from(*old(self), *final(self)),
    {
        self.stop();
        Ok(())
    }
}

} // verus!
