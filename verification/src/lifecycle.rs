//! When the shared browser is relaunched: after every tenth request, and
//! whenever a page load timed out.

use vstd::prelude::*;

verus! {

/// The number of requests after which the browser and its contexts are renewed.
pub const REQUESTS_PER_BROWSER: usize = 10;

/// The request count kept beside the shared browser.
pub struct BrowserLifecycle {
    request_count: usize,
}

impl BrowserLifecycle {
    /// Requests served since the browser was last launched.
    pub closed spec fn count(&self) -> nat {
        self.request_count as nat
    }

    /// The count never reaches the renewal threshold: it is reset on reaching it.
    #[verifier::type_invariant]
    spec fn inv(&self) -> bool {
        self.request_count < REQUESTS_PER_BROWSER
    }

    /// The state just after the browser was launched.
    pub fn new() -> (s: Self)
        ensures
            s.count() == 0,
    {
        BrowserLifecycle { request_count: 0 }
    }

    /// Requests served since the browser was last launched.
    pub fn request_count(&self) -> (n: usize)
        ensures
            n == self.count(),
            n < REQUESTS_PER_BROWSER,
    {
        proof {
            use_type_invariant(self);
        }
        self.request_count
    }

    /// Counts one incoming request; `true` when it is the tenth since the
    /// last launch, in which case the caller relaunches the browser and its
    /// context pool, and the count starts over.
    pub fn on_request(&mut self) -> (relaunch: bool)
        ensures
            relaunch <==> old(self).count() + 1 == REQUESTS_PER_BROWSER,
            relaunch <==> final(self).count() == 0,
            final(self).count() == if relaunch { 0 } else { old(self).count() + 1 },
            final(self).count() == (old(self).count() + 1) % (REQUESTS_PER_BROWSER as nat),
            final(self).count() < REQUESTS_PER_BROWSER,
    {
        proof {
            use_type_invariant(&*self);
        }
        let next = self.request_count + 1;
        if next >= REQUESTS_PER_BROWSER {
            self.request_count = 0;
            true
        } else {
            self.request_count = next;
            false
        }
    }

    /// Records a relaunch made for another reason (a page-load timeout): the
    /// count starts over.
    pub fn on_relaunch(&mut self)
        ensures
            final(self).count() == 0,
    {
        self.request_count = 0;
    }
}

} // verus!
