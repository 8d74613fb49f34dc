//! What holds of a rate limiter over any number of calls.

use vstd::prelude::*;

use crate::ip::IpAddr;
use crate::rate_limiter::LimiterState;

verus! {

/// A request of one address: the moment it is counted, and the moment from which a block runs if
/// it brings one about.
pub struct Request {
    pub now: nat,
    pub block_start: nat,
}

/// The limiter `state` after the requests `requests` of `ip`, in order.
pub open spec fn after_requests(state: LimiterState, ip: IpAddr, requests: Seq<Request>) -> LimiterState
    decreases requests.len(),
{
    if requests.len() == 0 {
        state
    } else {
        after_requests(state, ip, requests.drop_last()).after_request(
            ip,
            requests.last().now,
            requests.last().block_start,
        )
    }
}

/// Whether all of `requests` fall into the window that the first of them opens.
pub open spec fn in_one_window(requests: Seq<Request>, window: nat) -> bool {
    &&& window > 0
    &&& forall|i: int|
        0 <= i < requests.len() ==> #[trigger] requests[i].now
            < requests[0].now + window
}

/// The last moment at which a block may start, so that its end can be told.
pub open spec fn can_block_at(state: LimiterState, block_start: nat) -> bool {
    block_start + state.block_duration <= u128::MAX
}

/// A limiter that has seen no request allows every address at all times, unless no requests are
/// allowed at all.
pub proof fn law_fresh_limiter_allows(
    max_requests: u32,
    window_secs: u64,
    block_secs: u64,
    ip: IpAddr,
    block_checked: nat,
    count_checked: nat,
)
    ensures
        LimiterState::fresh(max_requests, window_secs, block_secs).allows(
            ip,
            block_checked,
            count_checked,
        ) <==> max_requests > 0,
        !LimiterState::fresh(max_requests, window_secs, block_secs).is_blocked(ip, block_checked),
        LimiterState::fresh(max_requests, window_secs, block_secs).count(ip) == 0,
{
}

/// Where no requests are allowed at all, no address may make one, whatever it did before.
pub proof fn law_limit_of_zero_allows_nothing(
    state: LimiterState,
    ip: IpAddr,
    block_checked: nat,
    count_checked: nat,
)
    requires
        state.max_requests == 0,
    ensures
        !state.allows(ip, block_checked, count_checked),
{
}

/// A blocked address may make no request.
pub proof fn law_blocked_is_refused(
    state: LimiterState,
    ip: IpAddr,
    block_checked: nat,
    count_checked: nat,
)
    requires
        state.is_blocked(ip, block_checked),
    ensures
        !state.allows(ip, block_checked, count_checked),
{
}

/// A block lasts for the block duration and no longer.
pub proof fn law_block_lasts_for_its_duration(
    state: LimiterState,
    ip: IpAddr,
    block_start: nat,
    now: nat,
)
    requires
        can_block_at(state, block_start),
    ensures
        state.after_block(ip, block_start).is_blocked(ip, now) <==> now < block_start
            + state.block_duration,
{
}

/// What one address does leaves every other address alone: its block, its count and what it may
/// do.
pub proof fn law_addresses_are_independent(
    state: LimiterState,
    ip: IpAddr,
    requests: Seq<Request>,
    other: IpAddr,
    block_checked: nat,
    count_checked: nat,
)
    requires
        ip != other,
    ensures
        after_requests(state, ip, requests).is_blocked(other, block_checked) == state.is_blocked(
            other,
            block_checked,
        ),
        after_requests(state, ip, requests).count(other) == state.count(other),
        after_requests(state, ip, requests).in_window(other, count_checked) == state.in_window(
            other,
            count_checked,
        ),
        after_requests(state, ip, requests).allows(other, block_checked, count_checked)
            == state.allows(other, block_checked, count_checked),
    decreases requests.len(),
{
    law_settings_stay(state, ip, requests);
    if requests.len() > 0 {
        law_settings_stay(state, ip, requests.drop_last());
        law_addresses_are_independent(
            state,
            ip,
            requests.drop_last(),
            other,
            block_checked,
            count_checked,
        );
    }
}

/// Requests of different addresses can change places: the limiter ends up the same, so that
/// whatever holds of the requests of one address holds however those of others come in between.
pub proof fn law_requests_of_different_addresses_commute(
    state: LimiterState,
    ip: IpAddr,
    request: Request,
    other: IpAddr,
    other_request: Request,
)
    requires
        ip != other,
    ensures
        state.after_request(ip, request.now, request.block_start).after_request(
            other,
            other_request.now,
            other_request.block_start,
        ) == state.after_request(other, other_request.now, other_request.block_start).after_request(
            ip,
            request.now,
            request.block_start,
        ),
{
    let one_way = state.after_request(ip, request.now, request.block_start).after_request(
        other,
        other_request.now,
        other_request.block_start,
    );
    let other_way = state.after_request(
        other,
        other_request.now,
        other_request.block_start,
    ).after_request(ip, request.now, request.block_start);
    assert(one_way =~= other_way);
}

/// Requests leave the settings of the limiter as they are.
pub proof fn law_settings_stay(state: LimiterState, ip: IpAddr, requests: Seq<Request>)
    ensures
        after_requests(state, ip, requests).max_requests == state.max_requests,
        after_requests(state, ip, requests).window == state.window,
        after_requests(state, ip, requests).block_duration == state.block_duration,
    decreases requests.len(),
{
    if requests.len() > 0 {
        law_settings_stay(state, ip, requests.drop_last());
    }
}

/// Requests in one window are counted one by one: where the first opens a window, the
/// count after any number of requests in it, up to what a counter holds, is that number.
pub proof fn law_requests_are_counted(state: LimiterState, ip: IpAddr, requests: Seq<Request>)
    requires
        0 < requests.len() <= u32::MAX,
        !state.in_window(ip, requests[0].now),
        in_one_window(requests, state.window),
        requests[0].now <= u128::MAX,
    ensures
        after_requests(state, ip, requests).count(ip) == requests.len(),
        after_requests(state, ip, requests).requests.contains_key(ip),
        after_requests(state, ip, requests).requests[ip].window_start == requests[0].now,
    decreases requests.len(),
{
    let before = requests.drop_last();
    law_settings_stay(state, ip, before);
    if before.len() > 0 {
        assert forall|i: int| 0 <= i < before.len() implies #[trigger] before[i].now
            < before[0].now + state.window by {
            assert(before[i] == requests[i]);
        }
        law_requests_are_counted(state, ip, before);
        assert(requests.last() == requests[requests.len() - 1]);
    } else {
        assert(after_requests(state, ip, before) == state);
        assert(requests.last() == requests[0]);
    }
}

/// An address that makes fewer requests in a window than the limit is not blocked, and may make
/// another one.
pub proof fn law_under_limit_is_allowed(
    state: LimiterState,
    ip: IpAddr,
    requests: Seq<Request>,
    block_checked: nat,
    count_checked: nat,
)
    requires
        !state.is_blocked(ip, block_checked),
        0 < requests.len() < state.max_requests <= u32::MAX,
        !state.in_window(ip, requests[0].now),
        in_one_window(requests, state.window),
        requests[0].now <= u128::MAX,
    ensures
        !after_requests(state, ip, requests).is_blocked(ip, block_checked),
        after_requests(state, ip, requests).allows(ip, block_checked, count_checked),
    decreases requests.len(),
{
    let before = requests.drop_last();
    if before.len() > 0 {
        assert forall|i: int| 0 <= i < before.len() implies #[trigger] before[i].now
            < before[0].now + state.window by {
            assert(before[i] == requests[i]);
        }
        law_under_limit_is_allowed(state, ip, before, block_checked, count_checked);
    } else {
        assert(after_requests(state, ip, before) == state);
    }
    law_settings_stay(state, ip, before);
    law_settings_stay(state, ip, requests);
    law_requests_are_counted(state, ip, requests);
}

/// An address that reaches the limit within a window is blocked, from the request that reaches it
/// and for the block duration; until then it may make no request.
pub proof fn law_reaching_limit_blocks(
    state: LimiterState,
    ip: IpAddr,
    requests: Seq<Request>,
    block_checked: nat,
    count_checked: nat,
)
    requires
        0 < requests.len() <= u32::MAX,
        !state.in_window(ip, requests[0].now),
        state.max_requests <= requests.len(),
        in_one_window(requests, state.window),
        requests[0].now <= u128::MAX,
        can_block_at(state, requests.last().block_start),
    ensures
        after_requests(state, ip, requests).is_blocked(ip, block_checked) <==> block_checked
            < requests.last().block_start + state.block_duration,
        block_checked < requests.last().block_start + state.block_duration ==> !after_requests(
            state,
            ip,
            requests,
        ).allows(ip, block_checked, count_checked),
{
    law_requests_are_counted(state, ip, requests);
    law_settings_stay(state, ip, requests.drop_last());
}

/// Once its window is over, an address that is not blocked may make requests again, if any are
/// allowed at all, and the next one is the first of a new window.
pub proof fn law_window_starts_anew(
    state: LimiterState,
    ip: IpAddr,
    block_checked: nat,
    now: nat,
    block_start: nat,
)
    requires
        !state.is_blocked(ip, block_checked),
        state.requests.contains_key(ip),
        state.requests[ip].window_start + state.window <= now,
        now <= u128::MAX,
    ensures
        state.allows(ip, block_checked, now) <==> state.max_requests > 0,
        state.after_request(ip, now, block_start).count(ip) == 1,
{
}

/// A cleanup cannot be told from the outside at later times: who is blocked and who may make a
/// request, and the account that the next request leaves behind, are what they would have been.
pub proof fn law_cleanup_changes_no_answer(
    state: LimiterState,
    cleaned: nat,
    ip: IpAddr,
    block_checked: nat,
    count_checked: nat,
)
    requires
        cleaned <= block_checked,
        cleaned <= count_checked,
    ensures
        state.after_cleanup(cleaned).is_blocked(ip, block_checked) == state.is_blocked(
            ip,
            block_checked,
        ),
        state.after_cleanup(cleaned).allows(ip, block_checked, count_checked) == state.allows(
            ip,
            block_checked,
            count_checked,
        ),
        state.after_cleanup(cleaned).entry_after_request(ip, count_checked)
            == state.entry_after_request(ip, count_checked),
{
}

/// A cleanup forgets the count of an address whose window started two windows ago or earlier, and
/// keeps every other count.
pub proof fn law_cleanup_forgets_stale_counts(state: LimiterState, cleaned: nat, ip: IpAddr)
    requires
        state.requests.contains_key(ip),
    ensures
        state.after_cleanup(cleaned).count(ip) == (if state.window == 0
            || state.requests[ip].window_start + 2 * state.window <= cleaned {
            0
        } else {
            state.count(ip)
        }),
{
}

/// After a reset an address is as good as new, and may make requests if any are allowed at all. No
/// other address is touched.
pub proof fn law_reset_forgets_the_address(
    state: LimiterState,
    ip: IpAddr,
    other: IpAddr,
    block_checked: nat,
    count_checked: nat,
)
    ensures
        state.after_reset(ip).allows(ip, block_checked, count_checked) <==> state.max_requests
            > 0,
        !state.after_reset(ip).is_blocked(ip, block_checked),
        state.after_reset(ip).count(ip) == 0,
        ip != other ==> {
            &&& state.after_reset(ip).is_blocked(other, block_checked) == state.is_blocked(
                other,
                block_checked,
            )
            &&& state.after_reset(ip).allows(other, block_checked, count_checked) == state.allows(
                other,
                block_checked,
                count_checked,
            )
            &&& state.after_reset(ip).count(other) == state.count(other)
        },
{
}

/// A request never shortens or ends a block of its own address: whoever is blocked at a moment
/// before the request is blocked at that moment after it, whether the request reaches the limit or
/// stays under it. A block that the request starts is one that does not end before the running one.
pub proof fn law_request_ends_no_block(
    state: LimiterState,
    ip: IpAddr,
    now: nat,
    block_start: nat,
    checked: nat,
)
    requires
        state.is_blocked(ip, checked),
        can_block_at(state, block_start),
        state.blocked[ip] <= block_start + state.block_duration,
    ensures
        state.after_request(ip, now, block_start).is_blocked(ip, checked),
{
}

/// A request that leaves the count under the limit changes nothing about who is blocked when. One
/// that brings the count to the limit, or finds it there, blocks its address for the block duration
/// and no longer.
pub proof fn law_request_blocks_at_the_limit_only(
    state: LimiterState,
    ip: IpAddr,
    now: nat,
    block_start: nat,
    checked: nat,
)
    requires
        can_block_at(state, block_start),
    ensures
        ({
            let after = state.after_request(ip, now, block_start);
            if after.count(ip) < state.max_requests {
                after.blocked == state.blocked
            } else {
                after.is_blocked(ip, checked) <==> checked < block_start + state.block_duration
            }
        }),
{
}

/// A request is counted: as one more where the window of the address is still open, and as the
/// first of a window that begins with it where it is not.
pub proof fn law_request_counts_for_one(
    state: LimiterState,
    ip: IpAddr,
    now: nat,
    block_start: nat,
    later: nat,
)
    requires
        now <= u128::MAX,
        state.count(ip) < u32::MAX,
    ensures
        ({
            let after = state.after_request(ip, now, block_start);
            let open = state.requests.contains_key(ip) && state.window > 0 && now
                < state.requests[ip].window_start + state.window;
            &&& after.count(ip) == (if open {
                state.count(ip) + 1
            } else {
                1
            })
            &&& open ==> after.in_window(ip, later) == state.in_window(ip, later)
            &&& !open ==> (after.in_window(ip, later) <==> state.window > 0 && later < now
                + state.window)
        }),
{
}

/// Requests of an address touch nothing that is kept of any other, nor the settings.
pub proof fn law_request_is_of_one_address(
    state: LimiterState,
    ip: IpAddr,
    now: nat,
    block_start: nat,
    other: IpAddr,
)
    requires
        ip != other,
    ensures
        ({
            let after = state.after_request(ip, now, block_start);
            &&& after.requests.contains_key(other) == state.requests.contains_key(other)
            &&& after.requests[other] == state.requests[other]
            &&& after.blocked.contains_key(other) == state.blocked.contains_key(other)
            &&& after.blocked[other] == state.blocked[other]
            &&& after.max_requests == state.max_requests
            &&& after.window == state.window
            &&& after.block_duration == state.block_duration
        }),
{
}

/// An address is blocked until its block ends, and an address without a block never is.
pub proof fn law_blocked_until_the_end_of_the_block(state: LimiterState, ip: IpAddr, now: nat)
    ensures
        state.blocked.contains_key(ip) ==> (state.is_blocked(ip, now) <==> now < state.blocked[ip]),
        !state.blocked.contains_key(ip) ==> !state.is_blocked(ip, now),
{
}

/// An address may make a request if and only if its block, if it has one, is over, and it has made
/// fewer requests than the limit in a window that is still open, where there is one.
pub proof fn law_allowed_while_window_is_not_used_up(
    state: LimiterState,
    ip: IpAddr,
    block_checked: nat,
    count_checked: nat,
)
    ensures
        state.allows(ip, block_checked, count_checked) <==> {
            &&& state.blocked.contains_key(ip) ==> state.blocked[ip] <= block_checked
            &&& state.max_requests > 0
            &&& state.requests.contains_key(ip) && state.window > 0 && count_checked
                < state.requests[ip].window_start + state.window ==> state.requests[ip].count
                < state.max_requests
        },
{
}

/// The window of an address is open from its first request on until its length is over. An address
/// without requests has none, and a window without length is never open.
pub proof fn law_window_is_open_until_its_end(state: LimiterState, ip: IpAddr, now: nat)
    ensures
        state.in_window(ip, now) <==> state.requests.contains_key(ip) && state.window > 0 && now
            < state.requests[ip].window_start + state.window,
        state.in_window(ip, now) ==> state.count_in_window(ip, now) == state.requests[ip].count,
        !state.in_window(ip, now) ==> state.count_in_window(ip, now) == 0,
{
}

/// The count of an address is the one on its account, and zero where it has none.
pub proof fn law_count_is_of_the_account(state: LimiterState, ip: IpAddr)
    ensures
        state.requests.contains_key(ip) ==> state.count(ip) == state.requests[ip].count,
        !state.requests.contains_key(ip) ==> state.count(ip) == 0,
{
}

/// A block is of one address: counts, settings and the blocks of others stay as they are.
pub proof fn law_block_is_of_one_address(
    state: LimiterState,
    ip: IpAddr,
    now: nat,
    other: IpAddr,
    checked: nat,
)
    ensures
        ({
            let after = state.after_block(ip, now);
            &&& after.requests == state.requests
            &&& after.max_requests == state.max_requests
            &&& after.window == state.window
            &&& after.block_duration == state.block_duration
            &&& ip != other ==> after.is_blocked(other, checked) == state.is_blocked(other, checked)
        }),
{
}

/// A cleanup drops what is stale and that alone: the accounts whose window began two windows ago or
/// earlier, and the blocks that are over. Everything else is kept as it is, the settings too.
pub proof fn law_cleanup_drops_what_is_stale(state: LimiterState, cleaned: nat, ip: IpAddr)
    ensures
        ({
            let after = state.after_cleanup(cleaned);
            &&& after.requests.contains_key(ip) <==> state.requests.contains_key(ip) && state.window
                > 0 && cleaned < state.requests[ip].window_start + 2 * state.window
            &&& after.requests.contains_key(ip) ==> after.requests[ip] == state.requests[ip]
            &&& after.blocked.contains_key(ip) <==> state.blocked.contains_key(ip) && cleaned
                < state.blocked[ip]
            &&& after.blocked.contains_key(ip) ==> after.blocked[ip] == state.blocked[ip]
            &&& after.max_requests == state.max_requests
            &&& after.window == state.window
            &&& after.block_duration == state.block_duration
        }),
{
}

/// A reset drops the account and the block of one address, and touches nothing else.
pub proof fn law_reset_is_of_one_address(state: LimiterState, ip: IpAddr, other: IpAddr)
    ensures
        ({
            let after = state.after_reset(ip);
            &&& !after.requests.contains_key(ip)
            &&& !after.blocked.contains_key(ip)
            &&& ip != other ==> {
                &&& after.requests.contains_key(other) == state.requests.contains_key(other)
                &&& after.requests[other] == state.requests[other]
                &&& after.blocked.contains_key(other) == state.blocked.contains_key(other)
                &&& after.blocked[other] == state.blocked[other]
            }
            &&& after.max_requests == state.max_requests
            &&& after.window == state.window
            &&& after.block_duration == state.block_duration
        }),
{
}

/// A new limiter has the settings that it was made with, its times in nanoseconds, and knows of no
/// address.
pub proof fn law_new_limiter_has_its_settings(
    max_requests: u32,
    window_secs: u64,
    block_secs: u64,
    ip: IpAddr,
)
    ensures
        ({
            let state = LimiterState::fresh(max_requests, window_secs, block_secs);
            &&& state.max_requests == max_requests
            &&& state.window == window_secs * 1_000_000_000
            &&& state.block_duration == block_secs * 1_000_000_000
            &&& !state.requests.contains_key(ip)
            &&& !state.blocked.contains_key(ip)
        }),
{
}

} // verus!
