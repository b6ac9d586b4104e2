//! The general throttle: requests per client within a window that starts
//! with the client's first request and is renewed once it has elapsed.
//!
//! It counts traffic, not guesses: it knows nothing of accounts and runs
//! beside the login guard.

use vstd::prelude::*;
use vstd::hash_map::StringHashMap;
use crate::reply::Reply;

verus! {

/// The limits of a throttle.
#[derive(Debug, Clone, Copy)]
pub struct RateLimitMiddleware {
    max_requests: u32,
    window_secs: u64,
}

impl RateLimitMiddleware {
    /// At most `max_requests` requests of a client within `window_secs`
    /// seconds.
    pub fn new(max_requests: u32, window_secs: u64) -> (limits: Self)
        ensures
            limits.max_requests() == max_requests,
            limits.window_secs() == window_secs,
    {
        RateLimitMiddleware { max_requests, window_secs }
    }

    /// The limits for the authentication endpoints: 5 requests in 5 minutes.
    pub fn auth_endpoints() -> (limits: Self)
        ensures
            limits.max_requests() == 5,
            limits.window_secs() == 300,
    {
        Self::new(5, 300)
    }

    /// The limits for all other endpoints: 100 requests a minute.
    pub fn general() -> (limits: Self)
        ensures
            limits.max_requests() == 100,
            limits.window_secs() == 60,
    {
        Self::new(100, 60)
    }

    pub closed spec fn max_requests(&self) -> u32 {
        self.max_requests
    }

    pub closed spec fn window_secs(&self) -> u64 {
        self.window_secs
    }

    /// The throttle with these limits, with no client seen yet.
    pub fn new_transform(&self) -> (service: RateLimitMiddlewareService)
        ensures
            service.limits() == *self,
            service.windows() == Map::<Seq<char>, Window>::empty(),
    {
        RateLimitMiddlewareService { limits: *self, clients: StringHashMap::new() }
    }
}

/// The window of one client: when it started and how many requests it saw.
#[derive(Debug, Clone, Copy, PartialEq, Eq, Structural)]
pub struct Window {
    pub window_start: u64,
    pub request_count: u32,
}

/// The seconds from `since` to `now`, zero where the clock went back.
pub open spec fn elapsed(now: u64, since: u64) -> int {
    if now >= since {
        now - since
    } else {
        0
    }
}

/// What a request at `now` does to the window of its client, and whether it
/// is let through: without a window, or with one that has elapsed, a new one
/// starts with this request; a full one refuses the request and stays as it
/// is; any other counts the request.
pub open spec fn throttle(window: Option<Window>, now: u64, limits: RateLimitMiddleware) -> (
    Option<Window>,
    bool,
) {
    match window {
        Some(w) => if elapsed(now, w.window_start) < limits.window_secs() {
            if w.request_count >= limits.max_requests() {
                (Some(w), false)
            } else {
                (
                    Some(
                        Window {
                            window_start: w.window_start,
                            request_count: (w.request_count + 1) as u32,
                        },
                    ),
                    true,
                )
            }
        } else {
            (Some(Window { window_start: now, request_count: 1 }), true)
        },
        None => (Some(Window { window_start: now, request_count: 1 }), true),
    }
}

/// The most requests that a window can hold: the limit, and one where the
/// limit is zero, as the request that opens a window is always let through.
pub open spec fn window_capacity(limits: RateLimitMiddleware) -> int {
    if limits.max_requests() == 0 {
        1
    } else {
        limits.max_requests() as int
    }
}

/// A window never counts more requests than it can hold, and a request that
/// is refused leaves it as it is.
pub proof fn lemma_throttle_is_bounded(window: Option<Window>, now: u64, limits: RateLimitMiddleware)
    requires
        window matches Some(w) ==> 1 <= w.request_count <= window_capacity(limits),
    ensures
        throttle(window, now, limits).0 matches Some(w) && 1 <= w.request_count
            <= window_capacity(limits),
        !throttle(window, now, limits).1 ==> throttle(window, now, limits).0 == window,
{
}

/// A throttle with its state: the limits and the window of each client.
pub struct RateLimitMiddlewareService {
    limits: RateLimitMiddleware,
    clients: StringHashMap<Window>,
}

impl RateLimitMiddlewareService {
    /// The limits of this throttle.
    pub closed spec fn limits(&self) -> RateLimitMiddleware {
        self.limits
    }

    /// The window of each client that was seen.
    pub closed spec fn windows(&self) -> Map<Seq<char>, Window> {
        self.clients@
    }

    /// The window of `client`, if it was seen.
    pub open spec fn window_of(&self, client: Seq<char>) -> Option<Window> {
        if self.windows().contains_key(client) {
            Some(self.windows()[client])
        } else {
            None
        }
    }

    /// The window of `client`, if it was seen.
    pub fn window(&self, client: &str) -> (window: Option<Window>)
        ensures
            window == self.window_of(client@),
    {
        match self.clients.get(client) {
            Some(w) => Some(*w),
            None => None,
        }
    }

    /// Counts a request of `client` at `now` and says whether it is let
    /// through. The window of the client becomes what the rule gives, and no
    /// other client's window changes.
    pub fn call(&mut self, client: &str, now: u64) -> (r: Result<(), Reply>)
        ensures
            final(self).limits() == old(self).limits(),
            throttle(old(self).window_of(client@), now, old(self).limits()).0 matches Some(w)
                && final(self).windows() == old(self).windows().insert(client@, w),
            r is Ok == throttle(old(self).window_of(client@), now, old(self).limits()).1,
            r matches Err(reply) ==> reply == Reply::RateLimited,
    {
        let next = match self.window(client) {
            Some(w) => {
                let passed: u64 = if now >= w.window_start {
                    now - w.window_start
                } else {
                    0
                };
                if passed < self.limits.window_secs {
                    if w.request_count >= self.limits.max_requests {
                        assert(self.windows().insert(client@, w) =~= self.windows());
                        return Err(Reply::RateLimited);
                    }
                    Window { window_start: w.window_start, request_count: w.request_count + 1 }
                } else {
                    Window { window_start: now, request_count: 1 }
                }
            },
            None => Window { window_start: now, request_count: 1 },
        };
        self.clients.insert(client.to_string(), next);
        Ok(())
    }
}

} // verus!
