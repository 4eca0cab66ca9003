//! Retrying a browser page load: a timed-out load relaunches the browser and
//! is tried again, up to three loads in all; any other outcome is final.

use vstd::prelude::*;
use crate::direct::{lowercase, to_lowercase};
use crate::text::{chars_of, contains_exec, contains_text};

verus! {

/// The most page loads one request makes.
pub const MAX_ATTEMPTS: u8 = 3;

/// What a page load gives: the page's HTML and screenshot (empty when none
/// was asked for), or the error's text.
pub type PageResult = Result<(String, Vec<u8>), String>;

/// An error that names a timeout, in any letter case.
pub open spec fn is_timeout_error(e: Seq<char>) -> bool {
    contains_text(lowercase(e), "timeout"@)
}

/// Whether a page-load error names a timeout.
pub fn is_timeout(e: &str) -> (r: bool)
    ensures
        r == is_timeout_error(e@),
{
    let lower = to_lowercase(e);
    let hay = chars_of(lower.as_str());
    let needle = chars_of("timeout");
    contains_exec(hay.as_slice(), needle.as_slice())
}

/// Whether the load numbered `loads_made` (counting from one) is followed by another.
pub open spec fn loads_again(loads_made: nat, result: PageResult) -> bool {
    result matches Err(e) && is_timeout_error(e@) && loads_made < MAX_ATTEMPTS
}

/// What follows a page load.
pub enum RetryStep {
    /// The load's result is the request's result.
    Return(PageResult),
    /// Relaunch the browser and load again.
    RelaunchAndRetry,
    /// Relaunch the browser; the request fails with this error.
    RelaunchAndFail(String),
}

/// The retry state of one request.
pub struct PlaywrightRetry {
    attempts: u8,
}

impl PlaywrightRetry {
    /// The loads made so far.
    pub closed spec fn attempts(&self) -> nat {
        self.attempts as nat
    }

    /// No load made yet.
    pub fn new() -> (s: Self)
        ensures
            s.attempts() == 0,
    {
        PlaywrightRetry { attempts: 0 }
    }

    /// The loads made so far.
    pub fn attempts_made(&self) -> (n: u8)
        ensures
            n == self.attempts(),
    {
        self.attempts
    }

    /// Decides what follows a load: success and non-timeout errors end the
    /// request with that result; a timeout relaunches the browser and, unless
    /// this was the third load, loads again; after the third it fails with
    /// that timeout's error.
    pub fn on_attempt(&mut self, result: PageResult) -> (step: RetryStep)
        requires
            old(self).attempts() < MAX_ATTEMPTS,
        ensures
            final(self).attempts() == old(self).attempts() + 1,
            (step == RetryStep::RelaunchAndRetry) <==> loads_again(final(self).attempts(), result),
            match result {
                Ok(page) => step == RetryStep::Return(Ok(page)),
                Err(e) => if !is_timeout_error(e@) {
                    step == RetryStep::Return(Err(e))
                } else if final(self).attempts() < MAX_ATTEMPTS {
                    step == RetryStep::RelaunchAndRetry
                } else {
                    step == RetryStep::RelaunchAndFail(e)
                },
            },
    {
        self.attempts = self.attempts + 1;
        match result {
            Ok(page) => RetryStep::Return(Ok(page)),
            Err(e) => {
                if !is_timeout(e.as_str()) {
                    RetryStep::Return(Err(e))
                } else if self.attempts < MAX_ATTEMPTS {
                    RetryStep::RelaunchAndRetry
                } else {
                    RetryStep::RelaunchAndFail(e)
                }
            },
        }
    }
}

} // verus!
