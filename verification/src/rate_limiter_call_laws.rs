//! How the calls of a rate limiter relate to each other.

use vstd::prelude::*;

use crate::ip::IpAddr;
use crate::rate_limiter::RateLimiter;

verus! {

/// A new limiter allows every address if any requests are allowed at all; none is blocked, and none
/// has a request on its account.
pub proof fn law_new_then_ask(
    max_requests: u32,
    window_secs: u64,
    block_secs: u64,
    limiter: RateLimiter,
    ip: &IpAddr,
    block_checked: u128,
    count_checked: u128,
    allowed: bool,
    blocked: bool,
    count: u32,
    has_requests: bool,
)
    requires
        call_ensures(RateLimiter::new, (max_requests, window_secs, block_secs), limiter),
        call_ensures(RateLimiter::check_at, (&limiter, ip, block_checked, count_checked), allowed),
        call_ensures(RateLimiter::is_blocked_at, (&limiter, ip, block_checked), blocked),
        call_ensures(RateLimiter::get_count, (&limiter, ip), count),
        call_ensures(RateLimiter::has_requests, (&limiter,), has_requests),
    ensures
        allowed <==> max_requests > 0,
        !blocked,
        count == 0,
        !has_requests,
{
}

/// A recorded request never takes a block away: an address that was blocked at a moment before it
/// is blocked at that moment after it, unless the request started a block that ends before the
/// running one.
pub proof fn law_record_ends_no_block(
    limiter: &mut RateLimiter,
    ip: &IpAddr,
    now: u128,
    block_start: u128,
    checked: u128,
    blocked: bool,
)
    requires
        call_ensures(RateLimiter::record_at, (limiter, ip, now, block_start), ()),
        call_ensures(RateLimiter::is_blocked_at, (&*old(limiter), ip, checked), true),
        call_ensures(RateLimiter::is_blocked_at, (&*final(limiter), ip, checked), blocked),
        block_start + old(limiter)@.block_duration <= u128::MAX,
        old(limiter)@.blocked[*ip] <= block_start + old(limiter)@.block_duration,
    ensures
        blocked,
{
}

/// A recorded request that leaves an address under the limit changes nothing about whether it is
/// blocked; one that reaches the limit blocks it for the block duration.
pub proof fn law_record_then_ask(
    limiter: &mut RateLimiter,
    ip: &IpAddr,
    now: u128,
    block_start: u128,
    checked: u128,
    before: bool,
    after: bool,
    count_before: u32,
    count: u32,
)
    requires
        count_before < u32::MAX,
        block_start + old(limiter)@.block_duration <= u128::MAX,
        call_ensures(RateLimiter::is_blocked_at, (&*old(limiter), ip, checked), before),
        call_ensures(RateLimiter::get_count, (&*old(limiter), ip), count_before),
        call_ensures(RateLimiter::record_at, (limiter, ip, now, block_start), ()),
        call_ensures(RateLimiter::is_blocked_at, (&*final(limiter), ip, checked), after),
        call_ensures(RateLimiter::get_count, (&*final(limiter), ip), count),
    ensures
        count == 1 || count == count_before + 1,
        count < old(limiter)@.max_requests ==> after == before,
        count >= old(limiter)@.max_requests ==> (after <==> checked < block_start
            + old(limiter)@.block_duration),
{
}

/// A request that is recorded while the window of its address is open counts for one more.
pub proof fn law_record_counts_in_the_window(
    limiter: &mut RateLimiter,
    ip: &IpAddr,
    now: u128,
    block_start: u128,
    count_before: u32,
    count: u32,
)
    requires
        count_before < u32::MAX,
        old(limiter)@.requests.contains_key(*ip),
        old(limiter)@.requests[*ip].window_start <= now,
        now < old(limiter)@.requests[*ip].window_start + old(limiter)@.window,
        call_ensures(RateLimiter::get_count, (&*old(limiter), ip), count_before),
        call_ensures(RateLimiter::record_at, (limiter, ip, now, block_start), ()),
        call_ensures(RateLimiter::get_count, (&*final(limiter), ip), count),
    ensures
        count == count_before + 1,
{
}

/// What is recorded of one address is not told of another.
pub proof fn law_record_is_of_one_address(
    limiter: &mut RateLimiter,
    ip: &IpAddr,
    now: u128,
    block_start: u128,
    other: &IpAddr,
    block_checked: u128,
    count_checked: u128,
    before: (bool, bool, u32),
    after: (bool, bool, u32),
)
    requires
        *ip != *other,
        call_ensures(
            RateLimiter::check_at,
            (&*old(limiter), other, block_checked, count_checked),
            before.0,
        ),
        call_ensures(RateLimiter::is_blocked_at, (&*old(limiter), other, block_checked), before.1),
        call_ensures(RateLimiter::get_count, (&*old(limiter), other), before.2),
        call_ensures(RateLimiter::record_at, (limiter, ip, now, block_start), ()),
        call_ensures(
            RateLimiter::check_at,
            (&*final(limiter), other, block_checked, count_checked),
            after.0,
        ),
        call_ensures(RateLimiter::is_blocked_at, (&*final(limiter), other, block_checked), after.1),
        call_ensures(RateLimiter::get_count, (&*final(limiter), other), after.2),
    ensures
        after == before,
{
    crate::rate_limiter_laws::law_request_is_of_one_address(
        old(limiter)@,
        *ip,
        now as nat,
        block_start as nat,
        *other,
    );
}

/// A blocked address is told to be blocked, and may make no request, until the block duration is
/// over; then it is not blocked.
pub proof fn law_block_then_ask(
    limiter: &mut RateLimiter,
    ip: &IpAddr,
    now: u128,
    block_checked: u128,
    count_checked: u128,
    blocked: bool,
    allowed: bool,
)
    requires
        now + old(limiter)@.block_duration <= u128::MAX,
        call_ensures(RateLimiter::block_at, (limiter, ip, now), ()),
        call_ensures(RateLimiter::is_blocked_at, (&*final(limiter), ip, block_checked), blocked),
        call_ensures(
            RateLimiter::check_at,
            (&*final(limiter), ip, block_checked, count_checked),
            allowed,
        ),
    ensures
        blocked <==> block_checked < now + old(limiter)@.block_duration,
        blocked ==> !allowed,
{
}

/// After a cleanup the limiter answers as it would have without it, at any later moment; the count
/// of an address is what it was, or is forgotten.
pub proof fn law_cleanup_then_ask(
    limiter: &mut RateLimiter,
    cleaned: u128,
    ip: &IpAddr,
    block_checked: u128,
    count_checked: u128,
    before: (bool, bool, u32),
    after: (bool, bool, u32),
)
    requires
        cleaned <= block_checked,
        cleaned <= count_checked,
        call_ensures(
            RateLimiter::check_at,
            (&*old(limiter), ip, block_checked, count_checked),
            before.0,
        ),
        call_ensures(RateLimiter::is_blocked_at, (&*old(limiter), ip, block_checked), before.1),
        call_ensures(RateLimiter::get_count, (&*old(limiter), ip), before.2),
        call_ensures(RateLimiter::cleanup_at, (limiter, cleaned), ()),
        call_ensures(
            RateLimiter::check_at,
            (&*final(limiter), ip, block_checked, count_checked),
            after.0,
        ),
        call_ensures(RateLimiter::is_blocked_at, (&*final(limiter), ip, block_checked), after.1),
        call_ensures(RateLimiter::get_count, (&*final(limiter), ip), after.2),
    ensures
        after.0 == before.0,
        after.1 == before.1,
        after.2 == before.2 || after.2 == 0,
        old(limiter)@.requests.contains_key(*ip) && old(limiter)@.requests[*ip].window_start + 2
            * old(limiter)@.window <= cleaned ==> after.2 == 0,
        old(limiter)@.requests.contains_key(*ip) && old(limiter)@.window > 0 && cleaned
            < old(limiter)@.requests[*ip].window_start + 2 * old(limiter)@.window ==> after.2
            == before.2,
{
}

/// After a reset the limiter answers for the address as a new one would.
pub proof fn law_reset_then_ask(
    limiter: &mut RateLimiter,
    ip: &IpAddr,
    block_checked: u128,
    count_checked: u128,
    allowed: bool,
    blocked: bool,
    count: u32,
)
    requires
        call_ensures(RateLimiter::reset, (limiter, ip), ()),
        call_ensures(
            RateLimiter::check_at,
            (&*final(limiter), ip, block_checked, count_checked),
            allowed,
        ),
        call_ensures(RateLimiter::is_blocked_at, (&*final(limiter), ip, block_checked), blocked),
        call_ensures(RateLimiter::get_count, (&*final(limiter), ip), count),
    ensures
        allowed <==> old(limiter)@.max_requests > 0,
        !blocked,
        count == 0,
{
}

/// The settings of a limiter and the start of its clock are the same after every call.
pub proof fn law_calls_keep_the_settings(
    recording: &mut RateLimiter,
    blocking: &mut RateLimiter,
    cleaning: &mut RateLimiter,
    resetting: &mut RateLimiter,
    ip: &IpAddr,
    now: u128,
    block_start: u128,
)
    requires
        call_ensures(RateLimiter::record_at, (recording, ip, now, block_start), ()),
        call_ensures(RateLimiter::block_at, (blocking, ip, now), ()),
        call_ensures(RateLimiter::cleanup_at, (cleaning, now), ()),
        call_ensures(RateLimiter::reset, (resetting, ip), ()),
    ensures
        have_same_settings(*old(recording), *final(recording)),
        have_same_settings(*old(blocking), *final(blocking)),
        have_same_settings(*old(cleaning), *final(cleaning)),
        have_same_settings(*old(resetting), *final(resetting)),
{
}

/// Whether two limiters have the same settings, and clocks that were started at the same reading.
pub open spec fn have_same_settings(left: RateLimiter, right: RateLimiter) -> bool {
    &&& left@.max_requests == right@.max_requests
    &&& left@.window == right@.window
    &&& left@.block_duration == right@.block_duration
    &&& left.started() == right.started()
}

/// The calls that read the clock do what the calls that are told the time do, at readings that the
/// limiter's clock can give.
pub proof fn law_clock_gives_the_time(
    limiter: RateLimiter,
    ip: &IpAddr,
    allowed: bool,
    blocked: bool,
    recording: &mut RateLimiter,
    blocking: &mut RateLimiter,
    cleaning: &mut RateLimiter,
)
    requires
        call_ensures(RateLimiter::check, (&limiter, ip), allowed),
        call_ensures(RateLimiter::is_blocked, (&limiter, ip), blocked),
        call_ensures(RateLimiter::record, (recording, ip), ()),
        call_ensures(RateLimiter::block, (blocking, ip), ()),
        call_ensures(RateLimiter::cleanup, (cleaning,), ()),
    ensures
        exists|now: u128, later: u128|
            #![trigger limiter@.allows(*ip, now as nat, later as nat)]
            {
                &&& crate::clock::can_read(limiter.started(), now)
                &&& crate::clock::can_read(limiter.started(), later)
                &&& allowed == limiter@.allows(*ip, now as nat, later as nat)
            },
        exists|now: u128|
            #![trigger limiter@.is_blocked(*ip, now as nat)]
            {
                &&& crate::clock::can_read(limiter.started(), now)
                &&& blocked == limiter@.is_blocked(*ip, now as nat)
            },
        exists|now: u128, later: u128|
            #![trigger old(recording)@.after_request(*ip, now as nat, later as nat)]
            {
                &&& crate::clock::can_read(old(recording).started(), now)
                &&& crate::clock::can_read(old(recording).started(), later)
                &&& final(recording)@ == old(recording)@.after_request(
                    *ip,
                    now as nat,
                    later as nat,
                )
            },
        exists|now: u128|
            #![trigger old(blocking)@.after_block(*ip, now as nat)]
            {
                &&& crate::clock::can_read(old(blocking).started(), now)
                &&& final(blocking)@ == old(blocking)@.after_block(*ip, now as nat)
            },
        exists|now: u128|
            #![trigger old(cleaning)@.after_cleanup(now as nat)]
            {
                &&& crate::clock::can_read(old(cleaning).started(), now)
                &&& final(cleaning)@ == old(cleaning)@.after_cleanup(now as nat)
            },
{
}

/// A clock can read a number of nanoseconds if and only if some time that can pass since its start
/// has that many, and that number is one that a duration can have.
pub proof fn law_readings_are_times_since_the_start(started: std::time::Instant, nanos: u128)
    ensures
        crate::clock::can_read(started, nanos) <==> nanos
            <= 18_446_744_073_709_551_615_999_999_999 && exists|elapsed: std::time::Duration|
            call_ensures(std::time::Instant::elapsed, (&started,), elapsed) && #[trigger] call_ensures(
                std::time::Duration::as_nanos,
                (&elapsed,),
                nanos,
            ),
{
}

} // verus!
