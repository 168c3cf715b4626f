//! Per-user rate limiting over a sliding time window.
//!
//! Every user has a queue of the instants (in whole seconds) at which a
//! request was admitted, oldest first.  A check at instant `now` first drops
//! from the front of the queue every instant that lies at or before
//! `now - window_secs`, then admits the request when fewer than
//! `max_requests` instants remain.

use std::collections::VecDeque;

use dashmap::DashMap;
use vstd::prelude::*;

use crate::clock::current_timestamp;
use crate::text::{decimal, push_decimal};

verus! {

#[verifier::external_type_specification]
#[verifier::external_body]
#[verifier::reject_recursive_types(K)]
#[verifier::reject_recursive_types(V)]
#[verifier::reject_recursive_types(S)]
pub struct ExDashMap<K, V, S>(DashMap<K, V, S>);

/// What a `DashMap` of request queues holds: each key's queue, by view.
pub uninterp spec fn request_log(m: DashMap<String, VecDeque<u64>>) -> Map<Seq<char>, Seq<u64>>;

/// An empty map, made by `DashMap::new`.
#[verifier::external_body]
fn new_request_log() -> (requests: DashMap<String, VecDeque<u64>>)
    ensures
        request_log(requests) =~= Map::empty(),
{
    DashMap::new()
}

/// `DashMap::remove`: takes the key's entry out of the map and hands back
/// its queue, or `None` when the key has no entry.
#[verifier::external_body]
fn take_queue(requests: &mut DashMap<String, VecDeque<u64>>, user_id: &str) -> (queue: Option<VecDeque<u64>>)
    ensures
        request_log(*final(requests)) == request_log(*old(requests)).remove(user_id@),
        request_log(*old(requests)).contains_key(user_id@) <==> queue is Some,
        queue matches Some(q) ==> q@ == request_log(*old(requests))[user_id@],
{
    requests.remove(user_id).map(|entry| entry.1)
}

/// `DashMap::insert`: stores `queue` under `user_id`, replacing any queue
/// that was there.
#[verifier::external_body]
fn put_queue(requests: &mut DashMap<String, VecDeque<u64>>, user_id: String, queue: VecDeque<u64>)
    ensures
        request_log(*final(requests)) == request_log(*old(requests)).insert(user_id@, queue@),
{
    requests.insert(user_id, queue);
}

/// `DashMap::get`: a copy of the queue stored under `user_id`, or `None`.
#[verifier::external_body]
fn read_queue(requests: &DashMap<String, VecDeque<u64>>, user_id: &str) -> (queue: Option<VecDeque<u64>>)
    ensures
        request_log(*requests).contains_key(user_id@) <==> queue is Some,
        queue matches Some(q) ==> q@ == request_log(*requests)[user_id@],
{
    match requests.get(user_id) {
        Some(entry) => Some(entry.value().clone()),
        None => None,
    }
}

/// The error returned when a request is refused.
#[derive(Debug, Clone, Copy, PartialEq, Eq)]
pub struct RateLimitError {
    pub retry_after_secs: u64,
}

impl RateLimitError {
    /// The error's message.
    pub fn to_string(&self) -> (s: String)
        ensures
            s@ == "Rate limit exceeded, retry after "@ + decimal(self.retry_after_secs as nat) + "s"@,
    {
        let mut s = "Rate limit exceeded, retry after ".to_owned();
        push_decimal(&mut s, self.retry_after_secs);
        s.append("s");
        s
    }
}

/// `now - window_secs`, or 0 when the window reaches back past the epoch.
pub open spec fn window_start(now: u64, window_secs: u64) -> u64 {
    if now >= window_secs {
        (now - window_secs) as u64
    } else {
        0
    }
}

/// The queue left after dropping, from its front, every instant that is at
/// or before `start`.
pub open spec fn prune(q: Seq<u64>, start: u64) -> Seq<u64>
    decreases q.len(),
{
    if q.len() > 0 && q[0] <= start {
        prune(q.drop_first(), start)
    } else {
        q
    }
}

/// The queue recorded for `user`, empty when there is none.
pub open spec fn queue_of(log: Map<Seq<char>, Seq<u64>>, user: Seq<char>) -> Seq<u64> {
    if log.contains_key(user) {
        log[user]
    } else {
        Seq::empty()
    }
}

/// How many instants of `q` lie after `start`.
pub open spec fn count_after(q: Seq<u64>, start: u64) -> nat
    decreases q.len(),
{
    if q.len() == 0 {
        0
    } else {
        count_after(q.drop_last(), start) + (if q.last() > start { 1nat } else { 0nat })
    }
}

/// The abstract state of a limiter.
pub struct RateLimiterView {
    pub window_secs: u64,
    pub max_requests: u64,
    pub log: Map<Seq<char>, Seq<u64>>,
}

/// The live part of `user`'s queue at instant `now`.
pub open spec fn live_queue(s: RateLimiterView, user: Seq<char>, now: u64) -> Seq<u64> {
    prune(queue_of(s.log, user), window_start(now, s.window_secs))
}

/// Whether a check by `user` at `now` is refused.
pub open spec fn refused(s: RateLimiterView, user: Seq<char>, now: u64) -> bool {
    live_queue(s, user, now).len() >= s.max_requests
}

/// The wait announced to a refused request: until the oldest live instant
/// leaves the window (at most `u64::MAX` seconds), or a whole window when
/// there is none.
pub open spec fn retry_after(s: RateLimiterView, user: Seq<char>, now: u64) -> int {
    let p = live_queue(s, user, now);
    if p.len() > 0 {
        let wait = p[0] + s.window_secs - now;
        if wait <= u64::MAX {
            wait
        } else {
            u64::MAX as int
        }
    } else {
        s.window_secs as int
    }
}

/// The state after a check by `user` at `now`.
pub open spec fn after_check(s: RateLimiterView, user: Seq<char>, now: u64) -> RateLimiterView {
    let p = live_queue(s, user, now);
    RateLimiterView {
        log: s.log.insert(user, if refused(s, user, now) { p } else { p.push(now) }),
        ..s
    }
}

/// A check by `user` at `now` that took the limiter from `s` to `t` and
/// answered `result`: the live queue kept, the request recorded when it is
/// admitted, refused exactly when the window is full, with the wait of
/// `retry_after`.
pub open spec fn checked(
    s: RateLimiterView,
    t: RateLimiterView,
    user: Seq<char>,
    now: u64,
    result: Result<(), RateLimitError>,
) -> bool {
    &&& t == after_check(s, user, now)
    &&& (result is Err <==> refused(s, user, now))
    &&& (result matches Err(e) ==> e.retry_after_secs == retry_after(s, user, now))
}

/// The state invariant: no queue holds more than `max_requests` instants.
pub open spec fn log_wf(s: RateLimiterView) -> bool {
    forall|u: Seq<char>| #[trigger] s.log.contains_key(u) ==> s.log[u].len() <= s.max_requests
}

/// `prune` keeps a suffix of the queue.
pub proof fn lemma_prune_suffix(q: Seq<u64>, start: u64)
    ensures
        prune(q, start).len() <= q.len(),
        prune(q, start) == q.subrange(q.len() - prune(q, start).len(), q.len() as int),
        prune(q, start).len() > 0 ==> prune(q, start)[0] > start,
    decreases q.len(),
{
    if q.len() > 0 && q[0] <= start {
        lemma_prune_suffix(q.drop_first(), start);
        assert(q.drop_first().subrange(
            q.drop_first().len() - prune(q, start).len(),
            q.drop_first().len() as int,
        ) =~= q.subrange(q.len() - prune(q, start).len(), q.len() as int));
    } else {
        assert(q.subrange(0, q.len() as int) =~= q);
    }
}

/// Checks by one user never change what another user is told: after a
/// check by `a`, a check by `b != a` is refused, and announces a wait,
/// exactly as it would have been before, and `b`'s queue is untouched.
pub proof fn lemma_check_isolation(s: RateLimiterView, a: Seq<char>, b: Seq<char>, now_a: u64, now_b: u64)
    requires
        a != b,
    ensures
        queue_of(after_check(s, a, now_a).log, b) == queue_of(s.log, b),
        refused(after_check(s, a, now_a), b, now_b) == refused(s, b, now_b),
        retry_after(after_check(s, a, now_a), b, now_b) == retry_after(s, b, now_b),
{
}

/// With a window of at least one second, a refused request is always told
/// to wait a positive number of seconds.
pub proof fn lemma_retry_after_positive(s: RateLimiterView, user: Seq<char>, now: u64)
    requires
        s.window_secs > 0,
    ensures
        retry_after(s, user, now) > 0,
{
    let q = queue_of(s.log, user);
    lemma_prune_suffix(q, window_start(now, s.window_secs));
}

/// While the clock has not gone back past any recorded instant, the wait
/// announced to a refused request is at most one window.
pub proof fn lemma_retry_after_within_window(s: RateLimiterView, user: Seq<char>, now: u64)
    requires
        forall|i: int| 0 <= i < queue_of(s.log, user).len() ==> #[trigger] queue_of(s.log, user)[i] <= now,
    ensures
        retry_after(s, user, now) <= s.window_secs,
{
    let q = queue_of(s.log, user);
    let ws = window_start(now, s.window_secs);
    lemma_prune_suffix(q, ws);
    let p = prune(q, ws);
    if p.len() > 0 {
        assert(p[0] == q[q.len() - p.len()]);
    }
}

/// A refused request that waits exactly the announced number of seconds,
/// with no other check by the same user in between, is admitted (unless
/// the oldest live instant plus the window overflows a `u64`, when the
/// announced wait is cut to `u64::MAX`).
pub proof fn lemma_retry_after_is_enough(s: RateLimiterView, user: Seq<char>, now: u64)
    requires
        log_wf(s),
        s.max_requests > 0,
        refused(s, user, now),
        live_queue(s, user, now)[0] + s.window_secs <= u64::MAX,
    ensures
        now + retry_after(s, user, now) <= u64::MAX,
        !refused(after_check(s, user, now), user, (now + retry_after(s, user, now)) as u64),
{
    let q = queue_of(s.log, user);
    let ws = window_start(now, s.window_secs);
    let p = prune(q, ws);
    lemma_prune_suffix(q, ws);
    if s.log.contains_key(user) {
        assert(q == s.log[user]);
        assert(q.len() <= s.max_requests);
    }
    assert(p.len() > 0);
    let later = (now + retry_after(s, user, now)) as u64;
    assert(later == p[0] + s.window_secs);
    let t = after_check(s, user, now);
    assert(queue_of(t.log, user) == p);
    assert(window_start(later, s.window_secs) == p[0]);
    lemma_prune_suffix(p.drop_first(), p[0]);
    assert(prune(p, p[0]) == prune(p.drop_first(), p[0]));
}

/// Once every recorded instant of a user has left the window, that user is
/// admitted again (given a limit of at least one request).
pub proof fn lemma_window_slides(s: RateLimiterView, user: Seq<char>, now: u64)
    requires
        s.max_requests > 0,
        forall|i: int|
            0 <= i < queue_of(s.log, user).len() ==> #[trigger] queue_of(s.log, user)[i] <= window_start(
                now,
                s.window_secs,
            ),
    ensures
        live_queue(s, user, now).len() == 0,
        !refused(s, user, now),
{
    lemma_prune_all_old(queue_of(s.log, user), window_start(now, s.window_secs));
}

proof fn lemma_prune_all_old(q: Seq<u64>, start: u64)
    requires
        forall|i: int| 0 <= i < q.len() ==> #[trigger] q[i] <= start,
    ensures
        prune(q, start).len() == 0,
    decreases q.len(),
{
    if q.len() > 0 {
        assert(q[0] <= start);
        assert forall|i: int| 0 <= i < q.drop_first().len() implies #[trigger] q.drop_first()[i] <= start by {
            assert(q.drop_first()[i] == q[i + 1]);
        }
        lemma_prune_all_old(q.drop_first(), start);
    }
}

/// `k` checks in a row by one user at the same instant.
pub open spec fn repeated_checks(s: RateLimiterView, user: Seq<char>, now: u64, k: nat) -> RateLimiterView
    decreases k,
{
    if k == 0 {
        s
    } else {
        after_check(repeated_checks(s, user, now, (k - 1) as nat), user, now)
    }
}

/// A user with nothing live in the window, checking repeatedly at one
/// instant, is admitted exactly `max_requests` times: the first
/// `max_requests` checks are admitted and every later one is refused.
pub proof fn lemma_burst_admits_exactly_max(s: RateLimiterView, user: Seq<char>, now: u64, k: nat)
    requires
        s.window_secs > 0,
        now > 0,
        live_queue(s, user, now).len() == 0,
    ensures
        live_queue(repeated_checks(s, user, now, k), user, now) =~= Seq::new(
            if k <= s.max_requests { k } else { s.max_requests as nat },
            |i: int| now,
        ),
        refused(repeated_checks(s, user, now, k), user, now) <==> k >= s.max_requests,
        repeated_checks(s, user, now, k).window_secs == s.window_secs,
        repeated_checks(s, user, now, k).max_requests == s.max_requests,
    decreases k,
{
    let ws = window_start(now, s.window_secs);
    assert(now > ws);
    if k > 0 {
        lemma_burst_admits_exactly_max(s, user, now, (k - 1) as nat);
        let prev = repeated_checks(s, user, now, (k - 1) as nat);
        let p = live_queue(prev, user, now);
        let stored = if refused(prev, user, now) { p } else { p.push(now) };
        assert(queue_of(repeated_checks(s, user, now, k).log, user) == stored);
        assert forall|i: int| 0 <= i < stored.len() implies #[trigger] stored[i] > ws by {
            if !refused(prev, user, now) && i == p.len() {
                assert(stored[i] == now);
            } else {
                assert(stored[i] == p[i]);
            }
        }
        lemma_prune_keeps_recent(stored, ws);
        let m: nat = if k <= s.max_requests { k } else { s.max_requests as nat };
        assert(live_queue(repeated_checks(s, user, now, k), user, now) == stored);
        if refused(prev, user, now) {
            assert(k - 1 >= s.max_requests);
            assert(stored =~= Seq::new(m, |i: int| now));
        } else {
            assert(stored =~= Seq::new(m, |i: int| now));
        }
    }
}

proof fn lemma_prune_keeps_recent(q: Seq<u64>, start: u64)
    requires
        forall|i: int| 0 <= i < q.len() ==> #[trigger] q[i] > start,
    ensures
        prune(q, start) == q,
{
}

/// Counting from the front: the first instant, then the rest.
proof fn lemma_count_after_first(q: Seq<u64>, start: u64)
    requires
        q.len() > 0,
    ensures
        count_after(q, start) == count_after(q.drop_first(), start) + (if q[0] > start { 1nat } else { 0nat }),
    decreases q.len(),
{
    if q.len() > 1 {
        lemma_count_after_first(q.drop_last(), start);
        assert(q.drop_last().drop_first() =~= q.drop_first().drop_last());
        assert(q.drop_first().last() == q.last());
        assert(q.drop_last()[0] == q[0]);
        assert(count_after(q.drop_first(), start) == count_after(q.drop_first().drop_last(), start) + (if q.last()
            > start {
            1nat
        } else {
            0nat
        }));
    } else {
        assert(q.drop_first().len() == 0);
        assert(q.drop_last().len() == 0);
        assert(q.last() == q[0]);
        assert(count_after(q.drop_last(), start) == 0);
        assert(count_after(q.drop_first(), start) == 0);
    }
}

/// Pruning up to `start` drops no instant after any `later >= start`.
proof fn lemma_count_after_prune(q: Seq<u64>, start: u64, later: u64)
    requires
        start <= later,
    ensures
        count_after(prune(q, start), later) == count_after(q, later),
    decreases q.len(),
{
    if q.len() > 0 && q[0] <= start {
        lemma_count_after_prune(q.drop_first(), start, later);
        lemma_count_after_first(q, later);
    }
}

/// Counting after appending one instant.
proof fn lemma_count_after_push(q: Seq<u64>, t: u64, start: u64)
    ensures
        count_after(q.push(t), start) == count_after(q, start) + (if t > start { 1nat } else { 0nat }),
{
    assert(q.push(t).drop_last() =~= q);
}

/// No more instants are counted than the queue holds.
proof fn lemma_count_after_le_len(q: Seq<u64>, start: u64)
    ensures
        count_after(q, start) <= q.len(),
    decreases q.len(),
{
    if q.len() > 0 {
        lemma_count_after_le_len(q.drop_last(), start);
    }
}

/// A queue all of whose instants lie after `start` is counted whole.
proof fn lemma_count_after_all(q: Seq<u64>, start: u64)
    requires
        forall|i: int| 0 <= i < q.len() ==> #[trigger] q[i] > start,
    ensures
        count_after(q, start) == q.len(),
    decreases q.len(),
{
    if q.len() > 0 {
        assert forall|i: int| 0 <= i < q.drop_last().len() implies #[trigger] q.drop_last()[i] > start by {
            assert(q.drop_last()[i] == q[i]);
        }
        lemma_count_after_all(q.drop_last(), start);
    }
}

/// In a queue kept oldest first, pruning up to `start` keeps exactly the
/// instants after `start`.
proof fn lemma_prune_len_sorted(q: Seq<u64>, start: u64)
    requires
        forall|i: int, j: int| 0 <= i <= j < q.len() ==> q[i] <= q[j],
    ensures
        prune(q, start).len() == count_after(q, start),
    decreases q.len(),
{
    if q.len() > 0 {
        if q[0] <= start {
            lemma_count_after_first(q, start);
            assert forall|i: int, j: int| 0 <= i <= j < q.drop_first().len() implies q.drop_first()[i]
                <= q.drop_first()[j] by {
                assert(q.drop_first()[i] == q[i + 1]);
                assert(q.drop_first()[j] == q[j + 1]);
            }
            lemma_prune_len_sorted(q.drop_first(), start);
        } else {
            assert forall|i: int| 0 <= i < q.len() implies #[trigger] q[i] > start by {
                assert(q[0] <= q[i]);
            }
            lemma_count_after_all(q, start);
        }
    }
}

/// For a queue kept oldest first (as checks at non-decreasing instants keep
/// it), a check is refused exactly when the number of recorded requests
/// that `count_at` reports for the window already reaches the limit.
pub proof fn lemma_refused_iff_count_reaches_limit(s: RateLimiterView, user: Seq<char>, now: u64)
    requires
        forall|i: int, j: int|
            0 <= i <= j < queue_of(s.log, user).len() ==> queue_of(s.log, user)[i] <= queue_of(s.log, user)[j],
    ensures
        refused(s, user, now) <==> count_after(queue_of(s.log, user), window_start(now, s.window_secs))
            >= s.max_requests,
{
    lemma_prune_len_sorted(queue_of(s.log, user), window_start(now, s.window_secs));
}

/// The limiter after checks by `user` at the instants `times[0]`, ...,
/// `times[k - 1]`, in that order.
pub open spec fn run(s: RateLimiterView, user: Seq<char>, times: Seq<u64>, k: nat) -> RateLimiterView
    decreases k,
{
    if k == 0 {
        s
    } else {
        after_check(run(s, user, times, (k - 1) as nat), user, times[k - 1])
    }
}

/// Whether the check at `times[j]` in such a run is admitted.
pub open spec fn admitted(s: RateLimiterView, user: Seq<char>, times: Seq<u64>, j: nat) -> bool {
    !refused(run(s, user, times, j), user, times[j as int])
}

/// How many of the first `k` checks of such a run are admitted at an
/// instant after `start`.
pub open spec fn admitted_after(s: RateLimiterView, user: Seq<char>, times: Seq<u64>, k: nat, start: u64) -> nat
    decreases k,
{
    if k == 0 {
        0
    } else {
        admitted_after(s, user, times, (k - 1) as nat, start) + (if admitted(s, user, times, (k - 1) as nat)
            && times[k - 1] > start {
            1nat
        } else {
            0nat
        })
    }
}

/// Along a run at non-decreasing instants, the instants recorded for the
/// user after any `start` at or past the last check's window start are the
/// ones recorded before the run plus the admitted checks after `start`; the
/// queue never outgrows the limit.
proof fn lemma_run_counts(s: RateLimiterView, user: Seq<char>, times: Seq<u64>, k: nat)
    requires
        queue_of(s.log, user).len() <= s.max_requests,
        k <= times.len(),
        forall|i: int, j: int| 0 <= i <= j < times.len() ==> times[i] <= times[j],
    ensures
        run(s, user, times, k).window_secs == s.window_secs,
        run(s, user, times, k).max_requests == s.max_requests,
        queue_of(run(s, user, times, k).log, user).len() <= s.max_requests,
        forall|start: u64|
            (k > 0 ==> start >= window_start(times[k - 1], s.window_secs)) ==> #[trigger] count_after(
                queue_of(run(s, user, times, k).log, user),
                start,
            ) == count_after(queue_of(s.log, user), start) + admitted_after(s, user, times, k, start),
    decreases k,
{
    if k > 0 {
        let k1 = (k - 1) as nat;
        lemma_run_counts(s, user, times, k1);
        let r = run(s, user, times, k1);
        let t = times[k - 1];
        let ws = window_start(t, s.window_secs);
        let q = queue_of(r.log, user);
        let p = prune(q, ws);
        lemma_prune_suffix(q, ws);
        let stored = if refused(r, user, t) { p } else { p.push(t) };
        assert(queue_of(run(s, user, times, k).log, user) == stored);
        assert forall|start: u64| start >= ws implies #[trigger] count_after(
            queue_of(run(s, user, times, k).log, user),
            start,
        ) == count_after(queue_of(s.log, user), start) + admitted_after(s, user, times, k, start) by {
            lemma_count_after_prune(q, ws, start);
            lemma_count_after_push(p, t, start);
            if k1 > 0 {
                assert(times[k1 - 1] <= times[k - 1]);
                assert(window_start(times[k1 - 1], s.window_secs) <= ws);
            }
            assert(count_after(q, start) == count_after(queue_of(s.log, user), start) + admitted_after(
                s,
                user,
                times,
                k1,
                start,
            ));
        }
    }
}

/// The sliding window: however the checks by one user are spread over
/// non-decreasing instants, no window of `window_secs` seconds (ending at
/// any instant `end` not before the checks counted) holds more than
/// `max_requests` admitted checks.
pub proof fn lemma_sliding_window_limit(s: RateLimiterView, user: Seq<char>, times: Seq<u64>, k: nat, end: u64)
    requires
        log_wf(s),
        k <= times.len(),
        forall|i: int, j: int| 0 <= i <= j < times.len() ==> times[i] <= times[j],
        k > 0 ==> times[k - 1] <= end,
    ensures
        admitted_after(s, user, times, k, window_start(end, s.window_secs)) <= s.max_requests,
{
    if s.log.contains_key(user) {
        assert(queue_of(s.log, user) == s.log[user]);
    }
    lemma_run_counts(s, user, times, k);
    let start = window_start(end, s.window_secs);
    let q = queue_of(run(s, user, times, k).log, user);
    lemma_count_after_le_len(q, start);
    assert(count_after(q, start) == count_after(queue_of(s.log, user), start) + admitted_after(
        s,
        user,
        times,
        k,
        start,
    ));
}

/// The limiter after the checks `checks[0]`, ..., `checks[k - 1]`, in that
/// order, each a user and the instant of that user's check.
pub open spec fn run_checks(s: RateLimiterView, checks: Seq<(Seq<char>, u64)>, k: nat) -> RateLimiterView
    decreases k,
{
    if k == 0 {
        s
    } else {
        after_check(run_checks(s, checks, (k - 1) as nat), checks[k - 1].0, checks[k - 1].1)
    }
}

/// Whether the check `checks[j]` in such a run is admitted.
pub open spec fn check_admitted(s: RateLimiterView, checks: Seq<(Seq<char>, u64)>, j: nat) -> bool {
    !refused(run_checks(s, checks, j), checks[j as int].0, checks[j as int].1)
}

/// How many of the first `k` checks of such a run are checks by `user`,
/// admitted, at an instant after `start`.
pub open spec fn admitted_for_after(
    s: RateLimiterView,
    checks: Seq<(Seq<char>, u64)>,
    k: nat,
    user: Seq<char>,
    start: u64,
) -> nat
    decreases k,
{
    if k == 0 {
        0
    } else {
        admitted_for_after(s, checks, (k - 1) as nat, user, start) + (if checks[k - 1].0 == user
            && check_admitted(s, checks, (k - 1) as nat) && checks[k - 1].1 > start {
            1nat
        } else {
            0nat
        })
    }
}

/// Along any run of checks by any users, the instants recorded for `user`
/// after a `start` at or past the window start of each of `user`'s checks
/// are the ones recorded before the run plus `user`'s admitted checks after
/// `start`; `user`'s queue never outgrows the limit.
proof fn lemma_run_checks_counts(s: RateLimiterView, checks: Seq<(Seq<char>, u64)>, k: nat, user: Seq<char>)
    requires
        queue_of(s.log, user).len() <= s.max_requests,
        k <= checks.len(),
    ensures
        run_checks(s, checks, k).window_secs == s.window_secs,
        run_checks(s, checks, k).max_requests == s.max_requests,
        queue_of(run_checks(s, checks, k).log, user).len() <= s.max_requests,
        forall|start: u64|
            (forall|j: int| 0 <= j < k && #[trigger] checks[j].0 == user ==> start >= window_start(checks[j].1, s.window_secs))
                ==> #[trigger] count_after(queue_of(run_checks(s, checks, k).log, user), start) == count_after(
                queue_of(s.log, user),
                start,
            ) + admitted_for_after(s, checks, k, user, start),
    decreases k,
{
    if k > 0 {
        let k1 = (k - 1) as nat;
        lemma_run_checks_counts(s, checks, k1, user);
        let r = run_checks(s, checks, k1);
        let v = checks[k - 1].0;
        let t = checks[k - 1].1;
        let ws = window_start(t, s.window_secs);
        let q = queue_of(r.log, user);
        let next = run_checks(s, checks, k);
        assert(next == after_check(r, v, t));
        if v == user {
            let p = prune(q, ws);
            lemma_prune_suffix(q, ws);
            let stored = if refused(r, user, t) { p } else { p.push(t) };
            assert(queue_of(next.log, user) == stored);
            assert forall|start: u64|
                (forall|j: int| 0 <= j < k && #[trigger] checks[j].0 == user ==> start >= window_start(checks[j].1, s.window_secs))
                    implies #[trigger] count_after(queue_of(next.log, user), start) == count_after(
                    queue_of(s.log, user),
                    start,
                ) + admitted_for_after(s, checks, k, user, start) by {
                assert(checks[k - 1].0 == user);
                assert(start >= ws);
                lemma_count_after_prune(q, ws, start);
                lemma_count_after_push(p, t, start);
                assert(forall|j: int| 0 <= j < k1 && #[trigger] checks[j].0 == user ==> start >= window_start(checks[j].1, s.window_secs));
            }
        } else {
            assert(queue_of(next.log, user) == q);
            assert forall|start: u64|
                (forall|j: int| 0 <= j < k && #[trigger] checks[j].0 == user ==> start >= window_start(checks[j].1, s.window_secs))
                    implies #[trigger] count_after(queue_of(next.log, user), start) == count_after(
                    queue_of(s.log, user),
                    start,
                ) + admitted_for_after(s, checks, k, user, start) by {
                assert(forall|j: int| 0 <= j < k1 && #[trigger] checks[j].0 == user ==> start >= window_start(checks[j].1, s.window_secs));
            }
        }
    }
}

/// The sliding window, with every user's checks interleaved: in any run of
/// checks by any users, at any instants, no window of `window_secs` seconds
/// ending at an instant `end` (not before any of `user`'s checks counted)
/// holds more than `max_requests` admitted checks by `user`.
pub proof fn lemma_interleaved_window_limit(
    s: RateLimiterView,
    checks: Seq<(Seq<char>, u64)>,
    k: nat,
    user: Seq<char>,
    end: u64,
)
    requires
        log_wf(s),
        k <= checks.len(),
        forall|j: int| 0 <= j < k && #[trigger] checks[j].0 == user ==> checks[j].1 <= end,
    ensures
        admitted_for_after(s, checks, k, user, window_start(end, s.window_secs)) <= s.max_requests,
{
    if s.log.contains_key(user) {
        assert(queue_of(s.log, user) == s.log[user]);
    }
    lemma_run_checks_counts(s, checks, k, user);
    let start = window_start(end, s.window_secs);
    assert forall|j: int| 0 <= j < k && #[trigger] checks[j].0 == user implies start >= window_start(
        checks[j].1,
        s.window_secs,
    ) by {
        assert(checks[j].1 <= end);
    }
    let q = queue_of(run_checks(s, checks, k).log, user);
    lemma_count_after_le_len(q, start);
    assert(count_after(q, start) == count_after(queue_of(s.log, user), start) + admitted_for_after(
        s,
        checks,
        k,
        user,
        start,
    ));
}

/// With one request per window, a check by a user `d < window_secs`
/// seconds after one of theirs that was admitted at `t` is refused, and is
/// told to wait the `window_secs - d` seconds until `t` leaves the window.
/// (An admission at instant 0 is the exception: no window ever holds
/// instant 0.)
pub proof fn lemma_one_per_window(s: RateLimiterView, user: Seq<char>, t: u64, d: u64)
    requires
        s.max_requests == 1,
        !refused(s, user, t),
        d < s.window_secs,
        t + d <= u64::MAX,
        t > 0,
    ensures
        refused(after_check(s, user, t), user, (t + d) as u64),
        retry_after(after_check(s, user, t), user, (t + d) as u64) == s.window_secs - d,
{
    let later = (t + d) as u64;
    let r = after_check(s, user, t);
    let p = live_queue(s, user, t);
    assert(p.len() == 0);
    assert(queue_of(r.log, user) =~= seq![t]);
    let ws = window_start(later, s.window_secs);
    assert(t > ws);
    assert(prune(seq![t], ws) == seq![t]);
}

/// A sliding-window rate limiter, keyed by user.
pub struct RateLimiter {
    window_secs: u64,
    max_requests: u64,
    requests: DashMap<String, VecDeque<u64>>,
}

impl RateLimiter {
    pub closed spec fn view(&self) -> RateLimiterView {
        RateLimiterView {
            window_secs: self.window_secs,
            max_requests: self.max_requests,
            log: request_log(self.requests),
        }
    }

    pub open spec fn wf(&self) -> bool {
        log_wf(self.view())
    }

    /// A limiter that admits `max_requests` requests per user within any
    /// `window_secs` seconds, with no requests recorded yet.
    pub fn new(window_secs: u64, max_requests: u64) -> (limiter: RateLimiter)
        ensures
            limiter.view() == (RateLimiterView {
                window_secs,
                max_requests,
                log: Map::empty(),
            }),
            limiter.wf(),
    {
        RateLimiter { window_secs, max_requests, requests: new_request_log() }
    }

    pub fn window_secs(&self) -> (w: u64)
        ensures
            w == self.view().window_secs,
    {
        self.window_secs
    }

    pub fn max_requests(&self) -> (m: u64)
        ensures
            m == self.view().max_requests,
    {
        self.max_requests
    }

    /// Checks a request by `user_id` at instant `now` (seconds since the
    /// epoch), and records it when it is admitted.
    pub fn check_at(&mut self, user_id: &str, now: u64) -> (result: Result<(), RateLimitError>)
        requires
            old(self).wf(),
        ensures
            final(self).wf(),
            checked(old(self).view(), final(self).view(), user_id@, now, result),
    {
        let ghost s = self.view();
        let window_start: u64 = if now >= self.window_secs {
            now - self.window_secs
        } else {
            0
        };
        let mut queue: VecDeque<u64> = match take_queue(&mut self.requests, user_id) {
            Some(q) => q,
            None => VecDeque::new(),
        };
        let ghost q0 = queue@;
        assert(q0 == queue_of(s.log, user_id@));
        proof {
            lemma_prune_suffix(q0, window_start);
        }
        loop
            invariant
                prune(queue@, window_start) == prune(q0, window_start),
                queue@.len() <= q0.len(),
                queue@ == q0.subrange(q0.len() - queue@.len(), q0.len() as int),
            ensures
                queue@ == prune(q0, window_start),
            decreases queue@.len(),
        {
            if queue.len() == 0 {
                break;
            }
            if queue[0] > window_start {
                break;
            }
            let ghost before = queue@;
            queue.pop_front();
            assert(queue@ =~= before.drop_first());
            assert(queue@ =~= q0.subrange(q0.len() - queue@.len(), q0.len() as int));
        }
        assert(s.log.contains_key(user_id@) ==> s.log[user_id@].len() <= s.max_requests);
        if (queue.len() as u64) >= self.max_requests {
            let retry_after_secs: u64 = if queue.len() > 0 {
                let oldest = queue[0];
                if oldest <= now {
                    self.window_secs - (now - oldest)
                } else {
                    self.window_secs.saturating_add(oldest - now)
                }
            } else {
                self.window_secs
            };
            put_queue(&mut self.requests, user_id.to_owned(), queue);
            assert(self.view().log =~= after_check(s, user_id@, now).log);
            return Err(RateLimitError { retry_after_secs });
        }
        queue.push_back(now);
        put_queue(&mut self.requests, user_id.to_owned(), queue);
        assert(self.view().log =~= after_check(s, user_id@, now).log);
        Ok(())
    }

    /// Checks a request by `user_id` now, by the system clock (a clock that
    /// reads an instant before the epoch reads as the epoch itself), and
    /// records it when it is admitted.
    pub fn check(&mut self, user_id: &str) -> (result: Result<(), RateLimitError>)
        requires
            old(self).wf(),
        ensures
            final(self).wf(),
            exists|now: u64| checked(old(self).view(), final(self).view(), user_id@, now, result),
    {
        let now = current_timestamp();
        self.check_at(user_id, now)
    }

    /// How many of `user_id`'s recorded requests lie inside the window that
    /// ends at `now`.
    pub fn count_at(&self, user_id: &str, now: u64) -> (count: u64)
        ensures
            count == count_after(queue_of(self.view().log, user_id@), window_start(now, self.view().window_secs)),
    {
        let window_start: u64 = if now >= self.window_secs {
            now - self.window_secs
        } else {
            0
        };
        match read_queue(&self.requests, user_id) {
            None => 0,
            Some(queue) => {
                let mut count: u64 = 0;
                let mut i: usize = 0;
                while i < queue.len()
                    invariant
                        i <= queue@.len(),
                        count == count_after(queue@.subrange(0, i as int), window_start),
                        count <= i,
                    decreases queue@.len() - i,
                {
                    assert(queue@.subrange(0, i + 1).drop_last() =~= queue@.subrange(0, i as int));
                    if queue[i] > window_start {
                        count = count + 1;
                    }
                    i = i + 1;
                }
                assert(queue@.subrange(0, queue@.len() as int) =~= queue@);
                count
            }
        }
    }

    /// How many of `user_id`'s recorded requests lie inside the window that
    /// ends now, by the system clock.
    pub fn current_count(&self, user_id: &str) -> (count: u64)
        ensures
            exists|now: u64|
                count == count_after(queue_of(self.view().log, user_id@), window_start(now, self.view().window_secs)),
    {
        let now = current_timestamp();
        self.count_at(user_id, now)
    }
}

} // verus!
