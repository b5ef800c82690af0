use vstd::prelude::*;

use crate::error::Error;

verus! {

/// How many times an operation is retried after a bad-nonce error.
pub const MAX_BAD_NONCE_RETRIES: usize = 3;

/// The message of the error an operation ends with once its retries are spent.
pub const KEPT_BAD_NONCE: &'static str = "kept getting a badNonce error!";

/// Counts the attempts of one operation.
pub struct Retry {
    /// Attempts started so far.
    pub attempts: usize,
}

/// A counter for a fresh operation.
pub fn retry() -> (r: Retry)
    ensures
        r.attempts == 0,
{
    Retry { attempts: 0 }
}

impl Retry {
    /// Starts an attempt: the first one and up to three retries are allowed.
    pub fn tick(&mut self) -> (r: Result<(), Error>)
        ensures
            old(self).attempts <= MAX_BAD_NONCE_RETRIES ==> r.is_ok() && final(self).attempts
                == old(self).attempts + 1,
            old(self).attempts > MAX_BAD_NONCE_RETRIES ==> (final(self).attempts == old(
                self,
            ).attempts && (r matches Err(Error::Client(m)) && m@ == KEPT_BAD_NONCE@)),
    {
        if self.attempts > MAX_BAD_NONCE_RETRIES {
            return Err(Error::Client(String::from_str(KEPT_BAD_NONCE)));
        }
        self.attempts = self.attempts + 1;
        Ok(())
    }
}

} // verus!
