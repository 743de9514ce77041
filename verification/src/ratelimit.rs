//! Sliding-window rate limiter per client address.
//!
//! Times are nanoseconds on a monotonic clock read by the caller. An
//! address is a pair: the family (4 or 6) and the address's bits.
use vstd::prelude::*;

use dashmap::DashMap;

verus! {

/// A client address: family (4 or 6) and the address's bits.
pub type IpKey = (u8, u128);

/// Address to the times of its recent accepted requests.
pub type WindowMap = DashMap<IpKey, Vec<u64>>;

/// The request times held by a limiter map, per address.
pub uninterp spec fn limiter_windows(m: WindowMap) -> Map<IpKey, Seq<u64>>;

/// `DashMap::new`: an empty map.
#[verifier::external_body]
fn windows_new() -> (r: WindowMap)
    ensures
        limiter_windows(r) =~= Map::empty(),
{
    DashMap::new()
}

/// `DashMap::remove`: takes the times of `k` out of the map (none when
/// absent), the value converted from the `(key, value)` pair.
#[verifier::external_body]
fn windows_take(m: &mut WindowMap, k: IpKey) -> (r: Vec<u64>)
    ensures
        limiter_windows(*final(m)) == limiter_windows(*old(m)).remove(k),
        r@ == (if limiter_windows(*old(m)).dom().contains(k) {
            limiter_windows(*old(m))[k]
        } else {
            Seq::empty()
        }),
{
    match m.remove(&k) {
        Some((_, v)) => v,
        None => Vec::new(),
    }
}

/// `DashMap::insert`: sets the times of `k`.
#[verifier::external_body]
fn windows_put(m: &mut WindowMap, k: IpKey, v: Vec<u64>)
    ensures
        limiter_windows(*final(m)) == limiter_windows(*old(m)).insert(k, v@),
{
    m.insert(k, v);
}

/// A request at `t` still counts at `now` in a window of `window` ns.
pub open spec fn recent(t: u64, now: u64, window: u64) -> bool {
    (if now >= t {
        now - t
    } else {
        0int
    }) < window
}

/// The times of `ts` that still count at `now`.
pub open spec fn recent_times(ts: Seq<u64>, now: u64, window: u64) -> Seq<u64> {
    ts.filter(|t: u64| recent(t, now, window))
}

/// The times recorded for `ip` (none when absent).
pub open spec fn times_of(w: Map<IpKey, Seq<u64>>, ip: IpKey) -> Seq<u64> {
    if w.dom().contains(ip) {
        w[ip]
    } else {
        Seq::empty()
    }
}

/// Whether a request from `ip` at `now` is let through.
pub open spec fn allows(w: Map<IpKey, Seq<u64>>, ip: IpKey, now: u64, max: usize, window: u64) -> bool {
    recent_times(times_of(w, ip), now, window).len() < max
}

/// The record after a request from `ip` at `now`: stale times of `ip` are
/// dropped and, when the request is let through, `now` is added.
pub open spec fn after_check(
    w: Map<IpKey, Seq<u64>>,
    ip: IpKey,
    now: u64,
    max: usize,
    window: u64,
) -> Map<IpKey, Seq<u64>> {
    let kept = recent_times(times_of(w, ip), now, window);
    if kept.len() < max {
        w.insert(ip, kept.push(now))
    } else {
        w.insert(ip, kept)
    }
}

/// Every address holds at most `max` times.
pub open spec fn bounded(w: Map<IpKey, Seq<u64>>, max: usize) -> bool {
    forall|k: IpKey| #[trigger] w.dom().contains(k) ==> w[k].len() <= max
}

/// Whether a request at `t` still counts at `now`.
pub fn is_recent(t: u64, now: u64, window: u64) -> (r: bool)
    ensures
        r == recent(t, now, window),
{
    let e = if now >= t {
        now - t
    } else {
        0
    };
    e < window
}

/// The times of `ts` that still count at `now`, in their order.
fn keep_recent(ts: &Vec<u64>, now: u64, window: u64) -> (r: Vec<u64>)
    ensures
        r@ == recent_times(ts@, now, window),
{
    let mut out: Vec<u64> = Vec::new();
    let mut i: usize = 0;
    while i < ts.len()
        invariant
            i <= ts@.len(),
            out@ == ts@.take(i as int).filter(|t: u64| recent(t, now, window)),
        decreases ts@.len() - i,
    {
        proof {
            reveal_with_fuel(Seq::<_>::filter, 1);
            assert(ts@.take(i + 1).drop_last() =~= ts@.take(i as int));
        }
        if is_recent(ts[i], now, window) {
            out.push(ts[i]);
        }
        i += 1;
    }
    assert(ts@.take(ts@.len() as int) =~= ts@);
    out
}

/// Simple sliding-window rate limiter per address.
pub struct RateLimiter {
    limits: WindowMap,
    max: usize,
    window: u64,
}

impl View for RateLimiter {
    /// The recorded request times per address.
    type V = Map<IpKey, Seq<u64>>;

    closed spec fn view(&self) -> Map<IpKey, Seq<u64>> {
        limiter_windows(self.limits)
    }
}

impl RateLimiter {
    /// The most requests one address may make within a window.
    pub closed spec fn spec_max(&self) -> usize {
        self.max
    }

    /// The window's length in nanoseconds.
    pub closed spec fn spec_window(&self) -> u64 {
        self.window
    }

    /// A limiter letting each address make `max` requests per `window` ns.
    pub fn new(max: usize, window: u64) -> (r: Self)
        ensures
            r@ == Map::<IpKey, Seq<u64>>::empty(),
            r.spec_max() == max,
            r.spec_window() == window,
    {
        RateLimiter { limits: windows_new(), max, window }
    }

    /// Returns true if the request from `ip` at `now` is allowed, false if
    /// it is rate limited. Only allowed requests are recorded.
    pub fn check(&mut self, ip: IpKey, now: u64) -> (r: bool)
        ensures
            r == allows(old(self)@, ip, now, old(self).spec_max(), old(self).spec_window()),
            final(self)@ == after_check(
                old(self)@,
                ip,
                now,
                old(self).spec_max(),
                old(self).spec_window(),
            ),
            final(self).spec_max() == old(self).spec_max(),
            final(self).spec_window() == old(self).spec_window(),
    {
        let ghost w0 = self@;
        let times = windows_take(&mut self.limits, ip);
        let mut kept = keep_recent(&times, now, self.window);
        if kept.len() >= self.max {
            windows_put(&mut self.limits, ip, kept);
            assert(self@ =~= after_check(w0, ip, now, self.max, self.window));
            return false;
        }
        kept.push(now);
        windows_put(&mut self.limits, ip, kept);
        assert(self@ =~= after_check(w0, ip, now, self.max, self.window));
        true
    }
}

/// Checking a request never lets an address hold more than `max` recorded
/// requests: a limiter that starts bounded stays bounded.
pub proof fn law_check_keeps_bound(
    w: Map<IpKey, Seq<u64>>,
    ip: IpKey,
    now: u64,
    max: usize,
    window: u64,
)
    requires
        bounded(w, max),
    ensures
        bounded(after_check(w, ip, now, max, window), max),
{
    let ts = times_of(w, ip);
    ts.lemma_filter_len(|t: u64| recent(t, now, window));
    let w2 = after_check(w, ip, now, max, window);
    assert forall|k: IpKey| #[trigger] w2.dom().contains(k) implies w2[k].len() <= max by {
        if k != ip {
            assert(w.dom().contains(k));
        }
    }
}

/// A request is let through exactly when fewer than `max` requests from
/// the same address fall in the window; a refused request is not recorded.
pub proof fn law_refusal_records_nothing(
    w: Map<IpKey, Seq<u64>>,
    ip: IpKey,
    now: u64,
    max: usize,
    window: u64,
)
    ensures
        allows(w, ip, now, max, window) <==> recent_times(times_of(w, ip), now, window).len() < max,
        !allows(w, ip, now, max, window) ==> times_of(after_check(w, ip, now, max, window), ip)
            == recent_times(times_of(w, ip), now, window),
        allows(w, ip, now, max, window) ==> times_of(after_check(w, ip, now, max, window), ip)
            == recent_times(times_of(w, ip), now, window).push(now),
{
}

/// A request from one address leaves every other address's record as it
/// was.
pub proof fn law_addresses_independent(
    w: Map<IpKey, Seq<u64>>,
    ip: IpKey,
    other: IpKey,
    now: u64,
    max: usize,
    window: u64,
)
    requires
        other != ip,
    ensures
        times_of(after_check(w, ip, now, max, window), other) == times_of(w, other),
{
}

/// The record after the requests of `reqs`, each an address and the time
/// it was checked, were checked in order on a new limiter.
pub open spec fn run_state(reqs: Seq<(IpKey, u64)>, max: usize, window: u64) -> Map<
    IpKey,
    Seq<u64>,
>
    decreases reqs.len(),
{
    if reqs.len() == 0 {
        Map::empty()
    } else {
        after_check(run_state(reqs.drop_last(), max, window), reqs.last().0, reqs.last().1, max, window)
    }
}

/// Whether request `i` of `reqs` is let through.
pub open spec fn run_answer(reqs: Seq<(IpKey, u64)>, i: int, max: usize, window: u64) -> bool {
    allows(run_state(reqs.take(i), max, window), reqs[i].0, reqs[i].1, max, window)
}

/// The times of the requests of `reqs` from `ip` that were let through,
/// in order.
pub open spec fn granted_times(reqs: Seq<(IpKey, u64)>, ip: IpKey, max: usize, window: u64) -> Seq<
    u64,
>
    decreases reqs.len(),
{
    if reqs.len() == 0 {
        Seq::empty()
    } else {
        let prior = granted_times(reqs.drop_last(), ip, max, window);
        if reqs.last().0 == ip && allows(
            run_state(reqs.drop_last(), max, window),
            ip,
            reqs.last().1,
            max,
            window,
        ) {
            prior.push(reqs.last().1)
        } else {
            prior
        }
    }
}

/// The requests come in the order of the clock.
pub open spec fn in_time_order(reqs: Seq<(IpKey, u64)>) -> bool {
    forall|i: int, j: int| 0 <= i <= j < reqs.len() ==> reqs[i].1 <= reqs[j].1
}

/// No request of `reqs` is later than `now`.
pub open spec fn no_later_than(reqs: Seq<(IpKey, u64)>, now: u64) -> bool {
    forall|i: int| 0 <= i < reqs.len() ==> reqs[i].1 <= now
}

/// Whether a request comes from `ip`.
pub open spec fn from_addr(ip: IpKey) -> spec_fn((IpKey, u64)) -> bool {
    |r: (IpKey, u64)| r.0 == ip
}

/// The requests of `reqs` from `ip`, in order.
pub open spec fn requests_from(reqs: Seq<(IpKey, u64)>, ip: IpKey) -> Seq<(IpKey, u64)> {
    reqs.filter(from_addr(ip))
}

proof fn lemma_filter_push<A>(s: Seq<A>, x: A, q: spec_fn(A) -> bool)
    ensures
        s.push(x).filter(q) == (if q(x) {
            s.filter(q).push(x)
        } else {
            s.filter(q)
        }),
{
    reveal_with_fuel(Seq::<_>::filter, 1);
    assert(s.push(x).drop_last() =~= s);
}

proof fn lemma_filter_times_bounded(s: Seq<u64>, q: spec_fn(u64) -> bool, bound: u64)
    requires
        forall|i: int| 0 <= i < s.len() ==> s[i] <= bound,
    ensures
        forall|i: int| 0 <= i < s.filter(q).len() ==> s.filter(q)[i] <= bound,
    decreases s.len(),
{
    if s.len() > 0 {
        let prev = s.drop_last();
        lemma_filter_times_bounded(prev, q, bound);
        assert(s =~= prev.push(s.last()));
        lemma_filter_push(prev, s.last(), q);
        assert(s.last() == s[s.len() - 1]);
    }
}

/// Dropping what is stale at `t0` and then what is stale at a later `now`
/// drops just what is stale at `now`, for times no later than `t0`.
proof fn lemma_recent_twice(s: Seq<u64>, t0: u64, now: u64, window: u64)
    requires
        forall|i: int| 0 <= i < s.len() ==> s[i] <= t0,
        t0 <= now,
    ensures
        recent_times(recent_times(s, t0, window), now, window) == recent_times(s, now, window),
    decreases s.len(),
{
    if s.len() > 0 {
        let p = |t: u64| recent(t, t0, window);
        let q = |t: u64| recent(t, now, window);
        let prev = s.drop_last();
        let x = s.last();
        lemma_recent_twice(prev, t0, now, window);
        assert(s =~= prev.push(x));
        lemma_filter_push(prev, x, p);
        lemma_filter_push(prev, x, q);
        lemma_filter_push(prev.filter(p), x, q);
    }
}

/// What a run of checks keeps for `ip`, seen at any `now` no earlier than
/// every request, is exactly what was let through for `ip` in the window
/// before `now`; and every kept time is no later than `now`.
proof fn lemma_run_keeps_granted(
    reqs: Seq<(IpKey, u64)>,
    ip: IpKey,
    now: u64,
    max: usize,
    window: u64,
)
    requires
        in_time_order(reqs),
        no_later_than(reqs, now),
    ensures
        forall|i: int|
            0 <= i < times_of(run_state(reqs, max, window), ip).len() ==> times_of(
                run_state(reqs, max, window),
                ip,
            )[i] <= now,
        recent_times(times_of(run_state(reqs, max, window), ip), now, window) == recent_times(
            granted_times(reqs, ip, max, window),
            now,
            window,
        ),
    decreases reqs.len(),
{
    if reqs.len() > 0 {
        let prev = reqs.drop_last();
        let (k, t0) = reqs.last();
        assert(reqs.last() == reqs[reqs.len() - 1]);
        assert(no_later_than(prev, t0));
        lemma_run_keeps_granted(prev, ip, now, max, window);
        lemma_run_keeps_granted(prev, ip, t0, max, window);
        if k == ip {
            let st = run_state(prev, max, window);
            let times = times_of(st, ip);
            let kept = recent_times(times, t0, window);
            let granted = granted_times(prev, ip, max, window);
            let q = |t: u64| recent(t, now, window);
            lemma_recent_twice(times, t0, now, window);
            lemma_filter_times_bounded(times, |t: u64| recent(t, t0, window), now);
            lemma_filter_push(kept, t0, q);
            lemma_filter_push(granted, t0, q);
        }
    }
}

proof fn lemma_run_bounded(reqs: Seq<(IpKey, u64)>, max: usize, window: u64)
    ensures
        bounded(run_state(reqs, max, window), max),
    decreases reqs.len(),
{
    if reqs.len() > 0 {
        lemma_run_bounded(reqs.drop_last(), max, window);
        law_check_keeps_bound(
            run_state(reqs.drop_last(), max, window),
            reqs.last().0,
            reqs.last().1,
            max,
            window,
        );
    }
}

/// Over any run of checks on a new limiter, in the clock's order: a request
/// is let through exactly when fewer than `max` earlier requests from the
/// same address were let through within the window before it; so with
/// `max == 0` none is.
pub proof fn law_limit_over_calls(reqs: Seq<(IpKey, u64)>, i: int, max: usize, window: u64)
    requires
        in_time_order(reqs),
        0 <= i < reqs.len(),
    ensures
        run_answer(reqs, i, max, window) <==> recent_times(
            granted_times(reqs.take(i), reqs[i].0, max, window),
            reqs[i].1,
            window,
        ).len() < max,
        max == 0 ==> !run_answer(reqs, i, max, window),
{
    let pre = reqs.take(i);
    assert(in_time_order(pre));
    assert(no_later_than(pre, reqs[i].1));
    lemma_run_keeps_granted(pre, reqs[i].0, reqs[i].1, max, window);
}

/// Over any run of checks on a new limiter, in the clock's order, at most
/// `max` requests from one address are let through within any window that
/// ends at or after the last request.
pub proof fn law_at_most_max_per_window(
    reqs: Seq<(IpKey, u64)>,
    ip: IpKey,
    now: u64,
    max: usize,
    window: u64,
)
    requires
        in_time_order(reqs),
        no_later_than(reqs, now),
    ensures
        recent_times(granted_times(reqs, ip, max, window), now, window).len() <= max,
{
    lemma_run_keeps_granted(reqs, ip, now, max, window);
    lemma_run_bounded(reqs, max, window);
    let st = run_state(reqs, max, window);
    times_of(st, ip).lemma_filter_len(|t: u64| recent(t, now, window));
    if st.dom().contains(ip) {
        assert(st[ip].len() <= max);
    }
}

proof fn lemma_filter_no_later(s: Seq<(IpKey, u64)>, q: spec_fn((IpKey, u64)) -> bool, bound: u64)
    requires
        no_later_than(s, bound),
    ensures
        no_later_than(s.filter(q), bound),
    decreases s.len(),
{
    if s.len() > 0 {
        let prev = s.drop_last();
        lemma_filter_no_later(prev, q, bound);
        assert(s =~= prev.push(s.last()));
        lemma_filter_push(prev, s.last(), q);
        assert(s.last() == s[s.len() - 1]);
    }
}

proof fn lemma_filter_in_order(s: Seq<(IpKey, u64)>, q: spec_fn((IpKey, u64)) -> bool)
    requires
        in_time_order(s),
    ensures
        in_time_order(s.filter(q)),
    decreases s.len(),
{
    if s.len() > 0 {
        let prev = s.drop_last();
        let x = s.last();
        assert(x == s[s.len() - 1]);
        lemma_filter_in_order(prev, q);
        assert(no_later_than(prev, x.1));
        lemma_filter_no_later(prev, q, x.1);
        assert(s =~= prev.push(x));
        lemma_filter_push(prev, x, q);
        let y = prev.filter(q);
        if q(x) {
            let z = y.push(x);
            assert forall|i: int, j: int| 0 <= i <= j < z.len() implies z[i].1 <= z[j].1 by {
                if j < y.len() {
                    assert(z[i] == y[i] && z[j] == y[j]);
                } else if i < y.len() {
                    assert(z[i] == y[i]);
                }
            }
        }
    }
}

/// Requests from other addresses never change which requests from `ip` are
/// let through: over any run in the clock's order, `ip` is let through at
/// the same times as in the run of its own requests alone.
pub proof fn law_other_addresses_never_matter(
    reqs: Seq<(IpKey, u64)>,
    ip: IpKey,
    max: usize,
    window: u64,
)
    requires
        in_time_order(reqs),
    ensures
        granted_times(reqs, ip, max, window) == granted_times(
            requests_from(reqs, ip),
            ip,
            max,
            window,
        ),
    decreases reqs.len(),
{
    if reqs.len() > 0 {
        let q = from_addr(ip);
        let prev = reqs.drop_last();
        let x = reqs.last();
        assert(x == reqs[reqs.len() - 1]);
        law_other_addresses_never_matter(prev, ip, max, window);
        assert(reqs =~= prev.push(x));
        lemma_filter_push(prev, x, q);
        let fp = requests_from(prev, ip);
        if x.0 == ip {
            let fr = fp.push(x);
            assert(fr.drop_last() =~= fp);
            assert(fr.last() == x);
            assert(no_later_than(prev, x.1));
            lemma_filter_in_order(prev, q);
            lemma_filter_no_later(prev, q, x.1);
            lemma_run_keeps_granted(prev, ip, x.1, max, window);
            lemma_run_keeps_granted(fp, ip, x.1, max, window);
        }
    }
}

/// The model of runs is the limiter's own record: a new limiter holds the
/// record of the empty run, and a `check` on a limiter holding the record
/// of a run holds, afterwards, the record of that run with the request
/// added, answering as the run answers that request. So any sequence of
/// calls on a limiter from `RateLimiter::new` is a run, and the laws over
/// runs hold of it.
pub proof fn law_calls_are_runs(reqs: Seq<(IpKey, u64)>, ip: IpKey, now: u64, max: usize, window: u64)
    ensures
        run_state(Seq::empty(), max, window) == Map::<IpKey, Seq<u64>>::empty(),
        run_state(reqs.push((ip, now)), max, window) == after_check(
            run_state(reqs, max, window),
            ip,
            now,
            max,
            window,
        ),
        run_answer(reqs.push((ip, now)), reqs.len() as int, max, window) == allows(
            run_state(reqs, max, window),
            ip,
            now,
            max,
            window,
        ),
{
    assert(reqs.push((ip, now)).drop_last() =~= reqs);
    assert(reqs.push((ip, now)).take(reqs.len() as int) =~= reqs);
}

/// Requests inside the window always count, however long the window: if an
/// address has at least `max` recorded requests, each no later than `now`
/// and less than `window` before it, a request at `now` is refused.
pub proof fn law_full_window_refuses(
    w: Map<IpKey, Seq<u64>>,
    ip: IpKey,
    now: u64,
    max: usize,
    window: u64,
)
    requires
        w.dom().contains(ip),
        w[ip].len() >= max,
        forall|i: int| 0 <= i < max ==> w[ip][i] <= now && now - w[ip][i] < window,
    ensures
        !allows(w, ip, now, max, window),
{
    let ts = w[ip];
    lemma_recent_prefix_count(ts, now, window, max as int);
}

/// Requests outside the window never count: if every recorded request of
/// an address is `window` or more before `now`, a request at `now` is let
/// through whenever `max` is positive.
pub proof fn law_stale_requests_do_not_count(
    w: Map<IpKey, Seq<u64>>,
    ip: IpKey,
    now: u64,
    max: usize,
    window: u64,
)
    requires
        max > 0,
        forall|i: int| 0 <= i < times_of(w, ip).len() ==> times_of(w, ip)[i] <= now && now - times_of(
            w,
            ip,
        )[i] >= window,
    ensures
        allows(w, ip, now, max, window),
{
    lemma_none_recent(times_of(w, ip), now, window);
}

proof fn lemma_none_recent(s: Seq<u64>, now: u64, window: u64)
    requires
        forall|i: int| 0 <= i < s.len() ==> s[i] <= now && now - s[i] >= window,
    ensures
        recent_times(s, now, window).len() == 0,
    decreases s.len(),
{
    if s.len() > 0 {
        let prev = s.drop_last();
        lemma_none_recent(prev, now, window);
        assert(s =~= prev.push(s.last()));
        lemma_filter_push(prev, s.last(), |t: u64| recent(t, now, window));
        assert(s.last() == s[s.len() - 1]);
    }
}

/// The first `k` times of `s`, all in the window at `now`, are all kept:
/// at least `k` times of `s` count at `now`.
proof fn lemma_recent_prefix_count(s: Seq<u64>, now: u64, window: u64, k: int)
    requires
        0 <= k <= s.len(),
        forall|i: int| 0 <= i < k ==> s[i] <= now && now - s[i] < window,
    ensures
        recent_times(s, now, window).len() >= k,
    decreases s.len(),
{
    if s.len() > 0 {
        let prev = s.drop_last();
        let x = s.last();
        assert(x == s[s.len() - 1]);
        assert(s =~= prev.push(x));
        lemma_filter_push(prev, x, |t: u64| recent(t, now, window));
        if k == s.len() {
            lemma_recent_prefix_count(prev, now, window, k - 1);
        } else {
            lemma_recent_prefix_count(prev, now, window, k);
        }
    }
}

/// The requests of `reqs` all come from `ip`.
pub open spec fn all_from(reqs: Seq<(IpKey, u64)>, ip: IpKey) -> bool {
    forall|i: int| 0 <= i < reqs.len() ==> reqs[i].0 == ip
}

/// The requests of `reqs` all fall within one window: the last is less
/// than `window` after the first.
pub open spec fn within_one_window(reqs: Seq<(IpKey, u64)>, window: u64) -> bool {
    forall|i: int, j: int| 0 <= i <= j < reqs.len() ==> reqs[j].1 - reqs[i].1 < window
}

proof fn lemma_all_recent_kept(s: Seq<u64>, now: u64, window: u64)
    requires
        forall|i: int| 0 <= i < s.len() ==> s[i] <= now && now - s[i] < window,
    ensures
        recent_times(s, now, window).len() == s.len(),
{
    lemma_recent_prefix_count(s, now, window, s.len() as int);
    s.lemma_filter_len(|t: u64| recent(t, now, window));
}

/// In a burst from one address within one window, `min(n, max)` of the `n`
/// requests are let through, each at a time between the first and last.
proof fn lemma_burst_granted(reqs: Seq<(IpKey, u64)>, ip: IpKey, max: usize, window: u64)
    requires
        reqs.len() > 0,
        all_from(reqs, ip),
        in_time_order(reqs),
        within_one_window(reqs, window),
    ensures
        granted_times(reqs, ip, max, window).len() == (if reqs.len() < max {
            reqs.len() as int
        } else {
            max as int
        }),
        forall|k: int|
            0 <= k < granted_times(reqs, ip, max, window).len() ==> reqs[0].1 <= #[trigger] granted_times(
                reqs,
                ip,
                max,
                window,
            )[k] <= reqs.last().1,
    decreases reqs.len(),
{
    let prev = reqs.drop_last();
    let x = reqs.last();
    assert(x == reqs[reqs.len() - 1]);
    let t = x.1;
    assert(no_later_than(prev, t));
    lemma_run_keeps_granted(prev, ip, t, max, window);
    let g = granted_times(prev, ip, max, window);
    if prev.len() == 0 {
        assert(g.len() == 0);
        assert(run_state(prev, max, window) == Map::<IpKey, Seq<u64>>::empty());
    } else {
        assert(prev[0] == reqs[0]);
        assert(prev.last() == reqs[reqs.len() - 2]);
        lemma_burst_granted(prev, ip, max, window);
        assert forall|i: int| 0 <= i < g.len() implies g[i] <= t && t - g[i] < window by {
            assert(reqs[0].1 <= g[i] <= prev.last().1);
        }
        lemma_all_recent_kept(g, t, window);
    }
}

/// A burst of requests from one address within one window: exactly the
/// first `max` are let through and every later one is refused, however long
/// the window is.
pub proof fn law_burst_first_max_pass(reqs: Seq<(IpKey, u64)>, ip: IpKey, i: int, max: usize, window: u64)
    requires
        all_from(reqs, ip),
        in_time_order(reqs),
        within_one_window(reqs, window),
        0 <= i < reqs.len(),
    ensures
        run_answer(reqs, i, max, window) <==> i < max,
{
    law_limit_over_calls(reqs, i, max, window);
    let pre = reqs.take(i);
    assert(reqs[i].0 == ip);
    if i > 0 {
        assert(all_from(pre, ip));
        assert(in_time_order(pre));
        assert(within_one_window(pre, window));
        lemma_burst_granted(pre, ip, max, window);
        let g = granted_times(pre, ip, max, window);
        assert(pre[0] == reqs[0]);
        assert(pre.last() == reqs[i - 1]);
        assert forall|k: int| 0 <= k < g.len() implies g[k] <= reqs[i].1 && reqs[i].1 - g[k] < window by {
            assert(reqs[0].1 <= g[k] <= reqs[i - 1].1);
        }
        lemma_all_recent_kept(g, reqs[i].1, window);
    } else {
        assert(pre.len() == 0);
    }
}

} // verus!
