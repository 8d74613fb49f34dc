//! Rate limiting, to hold off brute force attempts and floods.
//!
//! One limiter serves for authentication attempts, packets, connections or commands: it counts
//! requests by IP address in windows of time, and blocks an address that reaches the limit.

use std::time::Instant;
use vstd::prelude::*;

use crate::clock::{Clock, MAX_ELAPSED, NANOS_PER_SEC};
use crate::ip::IpAddr;
use crate::ip_map::IpMap;

verus! {

/// The requests of one address.
#[derive(Clone, Copy, Debug, PartialEq, Eq, Structural)]
pub struct RateLimitEntry {
    /// Number of requests in the current window.
    pub count: u32,
    /// Start of the current window, in nanoseconds on the limiter's clock.
    pub window_start: u128,
}

/// What a limiter knows: its settings, the request counts and the blocks.
#[verifier::ext_equal]
pub struct LimiterState {
    /// The requests of each address that has made some.
    pub requests: Map<IpAddr, RateLimitEntry>,
    /// The end of the block of each address that was blocked.
    pub blocked: Map<IpAddr, u128>,
    /// The most requests that an address is allowed in one window.
    pub max_requests: nat,
    /// Length of a window in nanoseconds.
    pub window: nat,
    /// Length of a block in nanoseconds.
    pub block_duration: nat,
}

/// The time from `start` to `now`, and zero where `now` comes first.
pub open spec fn time_since(start: nat, now: nat) -> nat {
    if start <= now {
        (now - start) as nat
    } else {
        0
    }
}

impl LimiterState {
    /// A limiter that has seen no request.
    pub open spec fn fresh(max_requests: u32, window_secs: u64, block_secs: u64) -> Self {
        LimiterState {
            requests: Map::empty(),
            blocked: Map::empty(),
            max_requests: max_requests as nat,
            window: window_secs as nat * NANOS_PER_SEC as nat,
            block_duration: block_secs as nat * NANOS_PER_SEC as nat,
        }
    }

    /// Whether `ip` is blocked at `now`.
    pub open spec fn is_blocked(self, ip: IpAddr, now: nat) -> bool {
        self.blocked.contains_key(ip) && now < self.blocked[ip]
    }

    /// Whether `ip` has requests in a window that is still open at `now`.
    pub open spec fn in_window(self, ip: IpAddr, now: nat) -> bool {
        self.requests.contains_key(ip) && time_since(self.requests[ip].window_start as nat, now)
            < self.window
    }

    /// The requests that stand to the account of `ip`.
    pub open spec fn count(self, ip: IpAddr) -> nat {
        if self.requests.contains_key(ip) {
            self.requests[ip].count as nat
        } else {
            0
        }
    }

    /// The requests of `ip` in the window that is open at `now`, and zero where none is.
    pub open spec fn count_in_window(self, ip: IpAddr, now: nat) -> nat {
        if self.in_window(ip, now) {
            self.count(ip)
        } else {
            0
        }
    }

    /// Whether `ip` may make a request, with its block looked up at `block_checked` and its
    /// count at `count_checked`: it is not blocked, and has not used up its window.
    pub open spec fn allows(self, ip: IpAddr, block_checked: nat, count_checked: nat) -> bool {
        !self.is_blocked(ip, block_checked) && self.count_in_window(ip, count_checked)
            < self.max_requests
    }

    /// The account of `ip` after one more request at `now`: counted in the open window, or as the
    /// first of a new one.
    pub open spec fn entry_after_request(self, ip: IpAddr, now: nat) -> RateLimitEntry {
        if self.in_window(ip, now) {
            RateLimitEntry {
                count: (self.requests[ip].count + 1) as u32,
                window_start: self.requests[ip].window_start,
            }
        } else {
            RateLimitEntry { count: 1, window_start: now as u128 }
        }
    }

    /// The limiter after a block of `ip` from `now` on.
    pub open spec fn after_block(self, ip: IpAddr, now: nat) -> Self {
        LimiterState {
            blocked: self.blocked.insert(ip, (now + self.block_duration) as u128),
            ..self
        }
    }

    /// The limiter after a request of `ip` at `now`, which blocks the address from `block_start`
    /// on where it reaches the limit.
    pub open spec fn after_request(self, ip: IpAddr, now: nat, block_start: nat) -> Self {
        let entry = self.entry_after_request(ip, now);
        let counted = LimiterState { requests: self.requests.insert(ip, entry), ..self };
        if entry.count >= self.max_requests {
            counted.after_block(ip, block_start)
        } else {
            counted
        }
    }

    /// The limiter after a cleanup at `now`: without the counts whose window started two windows
    /// ago or earlier, and without the blocks that are over.
    pub open spec fn after_cleanup(self, now: nat) -> Self {
        LimiterState {
            requests: crate::ip_map::retained(
                self.requests,
                |entry: RateLimitEntry|
                    time_since(entry.window_start as nat, now) < 2 * self.window,
            ),
            blocked: crate::ip_map::retained(self.blocked, |end: u128| now < end),
            ..self
        }
    }

    /// The limiter after it forgot `ip`.
    pub open spec fn after_reset(self, ip: IpAddr) -> Self {
        LimiterState {
            requests: self.requests.remove(ip),
            blocked: self.blocked.remove(ip),
            ..self
        }
    }
}

/// A rate limiter that counts requests by IP address.
///
/// - The number of requests in a window of time is limited.
/// - An address that reaches the limit is blocked.
/// - Stale entries are cleaned up on demand.
pub struct RateLimiter {
    requests: IpMap<RateLimitEntry>,
    blocked: IpMap<u128>,
    max_requests: u32,
    window_secs: u64,
    block_secs: u64,
    clock: Clock,
}

impl View for RateLimiter {
    type V = LimiterState;

    closed spec fn view(&self) -> LimiterState {
        LimiterState {
            requests: self.requests@,
            blocked: self.blocked@,
            max_requests: self.max_requests as nat,
            window: self.window_secs as nat * NANOS_PER_SEC as nat,
            block_duration: self.block_secs as nat * NANOS_PER_SEC as nat,
        }
    }
}

/// The time from `start` to `now`, and zero where `now` comes first.
fn duration_since(now: u128, start: u128) -> (elapsed: u128)
    ensures
        elapsed == time_since(start as nat, now as nat),
{
    if start <= now {
        now - start
    } else {
        0
    }
}

impl RateLimiter {
    /// The reading at which the limiter's clock was started. Times are counted from it.
    pub closed spec fn started(&self) -> Instant {
        self.clock.started()
    }

    /// Makes a rate limiter.
    ///
    /// - `max_requests`: the most requests that an address is allowed in one window
    /// - `window_secs`: length of a window in seconds
    /// - `block_secs`: how long an address stays blocked, in seconds
    pub fn new(max_requests: u32, window_secs: u64, block_secs: u64) -> (limiter: Self)
        ensures
            limiter@ == LimiterState::fresh(max_requests, window_secs, block_secs),
            call_ensures(Instant::now, (), limiter.started()),
    {
        RateLimiter {
            requests: IpMap::new(),
            blocked: IpMap::new(),
            max_requests,
            window_secs,
            block_secs,
            clock: Clock::start(),
        }
    }

    /// Whether `ip` is allowed to make a request: `false` while it is blocked, or has used up its
    /// window. The block is looked up at one reading of the clock and the count at another.
    pub fn check(&self, ip: &IpAddr) -> (allowed: bool)
        ensures
            exists|block_checked: u128, count_checked: u128|
                {
                    &&& crate::clock::can_read(self.started(), block_checked)
                    &&& crate::clock::can_read(self.started(), count_checked)
                    &&& allowed == #[trigger] self@.allows(
                        *ip,
                        block_checked as nat,
                        count_checked as nat,
                    )
                },
    {
        let block_checked: u128 = self.clock.now();
        let count_checked: u128 = self.clock.now();
        self.check_at(ip, block_checked, count_checked)
    }

    /// Whether `ip` is allowed to make a request, with its block looked up at `block_checked` and
    /// its count at `count_checked`.
    pub fn check_at(&self, ip: &IpAddr, block_checked: u128, count_checked: u128) -> (allowed: bool)
        ensures
            allowed == self@.allows(*ip, block_checked as nat, count_checked as nat),
    {
        if self.is_blocked_at(ip, block_checked) {
            return false;
        }
        if let Some(entry) = self.requests.get(ip) {
            if duration_since(count_checked, entry.window_start) < self.window() {
                return entry.count < self.max_requests;
            }
        }
        0 < self.max_requests
    }

    /// Counts a request of `ip`, and blocks the address if it has reached the limit. The request
    /// is counted at one reading of the clock and a block starts at another.
    pub fn record(&mut self, ip: &IpAddr)
        requires
            old(self)@.count(*ip) < u32::MAX,
        ensures
            exists|now: u128, block_start: u128|
                {
                    &&& crate::clock::can_read(old(self).started(), now)
                    &&& crate::clock::can_read(old(self).started(), block_start)
                    &&& final(self)@ == #[trigger] old(self)@.after_request(
                        *ip,
                        now as nat,
                        block_start as nat,
                    )
                },
            final(self).started() == old(self).started(),
    {
        let now: u128 = self.clock.now();
        let block_start: u128 = self.clock.now();
        self.record_at(ip, now, block_start);
    }

    /// Counts a request of `ip` at `now`, and blocks the address from `block_start` on if it has
    /// reached the limit.
    pub fn record_at(&mut self, ip: &IpAddr, now: u128, block_start: u128)
        requires
            old(self)@.in_window(*ip, now as nat) ==> old(self)@.count(*ip) < u32::MAX,
            block_start <= MAX_ELAPSED,
        ensures
            final(self)@ == old(self)@.after_request(*ip, now as nat, block_start as nat),
            final(self).started() == old(self).started(),
    {
        let mut entry = match self.requests.get(ip) {
            Some(entry) => entry,
            None => RateLimitEntry { count: 0, window_start: now },
        };
        if duration_since(now, entry.window_start) >= self.window() {
            entry.count = 0;
            entry.window_start = now;
        }
        entry.count = entry.count + 1;
        self.requests.insert(*ip, entry);
        if entry.count >= self.max_requests {
            self.block_at(ip, block_start);
        }
        assert(self@ =~= old(self)@.after_request(*ip, now as nat, block_start as nat));
    }

    /// Whether `ip` is blocked, at a reading of the clock.
    pub fn is_blocked(&self, ip: &IpAddr) -> (blocked: bool)
        ensures
            exists|now: u128|
                crate::clock::can_read(self.started(), now) && blocked == #[trigger] self@.is_blocked(
                    *ip,
                    now as nat,
                ),
    {
        let now: u128 = self.clock.now();
        self.is_blocked_at(ip, now)
    }

    /// Whether `ip` is blocked at `now`.
    pub fn is_blocked_at(&self, ip: &IpAddr, now: u128) -> (blocked: bool)
        ensures
            blocked == self@.is_blocked(*ip, now as nat),
    {
        match self.blocked.get(ip) {
            Some(unblock_time) => now < unblock_time,
            None => false,
        }
    }

    /// Blocks `ip` for the block duration, from a reading of the clock on.
    pub fn block(&mut self, ip: &IpAddr)
        ensures
            exists|now: u128|
                crate::clock::can_read(old(self).started(), now) && final(self)@
                    == #[trigger] old(self)@.after_block(*ip, now as nat),
            final(self).started() == old(self).started(),
    {
        let now: u128 = self.clock.now();
        self.block_at(ip, now);
    }

    /// Blocks `ip` for the block duration from `now` on.
    pub fn block_at(&mut self, ip: &IpAddr, now: u128)
        requires
            now <= MAX_ELAPSED,
        ensures
            final(self)@ == old(self)@.after_block(*ip, now as nat),
            final(self).started() == old(self).started(),
    {
        let unblock_time: u128 = now + self.block_secs as u128 * NANOS_PER_SEC;
        self.blocked.insert(*ip, unblock_time);
        assert(self@ =~= old(self)@.after_block(*ip, now as nat));
    }

    /// Drops stale entries, so that the tables do not grow without bound. To be called from time
    /// to time, such as every minute.
    pub fn cleanup(&mut self)
        requires
            old(self)@.requests.is_empty() || 2 * old(self)@.window <= u64::MAX * NANOS_PER_SEC,
        ensures
            exists|now: u128|
                crate::clock::can_read(old(self).started(), now) && final(self)@
                    == #[trigger] old(self)@.after_cleanup(now as nat),
            final(self).started() == old(self).started(),
    {
        let now: u128 = self.clock.now();
        self.cleanup_at(now);
    }

    /// Drops the entries that are stale at `now`.
    pub fn cleanup_at(&mut self, now: u128)
        requires
            old(self)@.requests.is_empty() || 2 * old(self)@.window <= u64::MAX * NANOS_PER_SEC,
        ensures
            final(self)@ == old(self)@.after_cleanup(now as nat),
            final(self).started() == old(self).started(),
    {
        let horizon: u128 = self.window() * 2;
        let keep_entry = |entry: RateLimitEntry| -> (kept: bool)
            ensures
                kept == (time_since(entry.window_start as nat, now as nat) < horizon),
        {
            let age: u128 = duration_since(now, entry.window_start);
            age < horizon
        };
        let ghost is_recent = |entry: RateLimitEntry|
            time_since(entry.window_start as nat, now as nat) < horizon;
        self.requests.retain(keep_entry, Ghost(is_recent));
        let keep_block = |unblock_time: u128| -> (kept: bool)
            ensures
                kept == (now < unblock_time),
        {
            now < unblock_time
        };
        let ghost is_running = |unblock_time: u128| now < unblock_time;
        self.blocked.retain(keep_block, Ghost(is_running));
        proof {
            let old_window = old(self)@.window;
            assert(is_recent =~= (|entry: RateLimitEntry|
                time_since(entry.window_start as nat, now as nat) < 2 * old_window));
            assert(is_running =~= (|end: u128| (now as nat) < end));
        }
        assert(self@ =~= old(self)@.after_cleanup(now as nat));
    }

    /// Forgets what the limiter knows of `ip`.
    pub fn reset(&mut self, ip: &IpAddr)
        ensures
            final(self)@ == old(self)@.after_reset(*ip),
            final(self).started() == old(self).started(),
    {
        self.requests.remove(ip);
        self.blocked.remove(ip);
        assert(self@ =~= old(self)@.after_reset(*ip));
    }

    /// The requests that stand to the account of `ip`.
    pub fn get_count(&self, ip: &IpAddr) -> (count: u32)
        ensures
            count == self@.count(*ip),
    {
        match self.requests.get(ip) {
            Some(entry) => entry.count,
            None => 0,
        }
    }

    /// Whether requests stand to the account of any address.
    pub fn has_requests(&self) -> (has: bool)
        ensures
            has == !self@.requests.is_empty(),
    {
        !self.requests.is_empty()
    }

    /// Length of a window in nanoseconds.
    fn window(&self) -> (nanos: u128)
        ensures
            nanos == self@.window,
            nanos <= u64::MAX * NANOS_PER_SEC,
    {
        self.window_secs as u128 * NANOS_PER_SEC
    }
}

} // verus!
