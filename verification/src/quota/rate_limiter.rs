//! Per-user sliding-window rate limiting.
//!
//! Times are nanoseconds on the limiter's monotonic clock, measured from the
//! instant the limiter was created.
use vstd::prelude::*;
use std::collections::HashMap;
use std::time::Instant;

verus! {

broadcast use vstd::std_specs::hash::group_hash_axioms;

/// The length of the rate-limit window: one minute, in nanoseconds.
pub const WINDOW_NANOS: u64 = 60_000_000_000;

/// The timestamps of `ts` that are later than `cutoff`, in order.
pub open spec fn recent(ts: Seq<u64>, cutoff: int) -> Seq<u64>
    decreases ts.len(),
{
    if ts.len() == 0 {
        seq![]
    } else if ts.last() > cutoff {
        recent(ts.drop_last(), cutoff).push(ts.last())
    } else {
        recent(ts.drop_last(), cutoff)
    }
}

/// The timestamps still inside a window of `window` nanoseconds ending at `now`.
pub open spec fn in_window(ts: Seq<u64>, window: u64, now: u64) -> Seq<u64> {
    recent(ts, now - window)
}

/// Whether `count` requests in the window reach the per-minute limit; a
/// negative limit never does.
pub open spec fn limit_reached(count: nat, limit_rpm: i32) -> bool {
    limit_rpm >= 0 && count >= limit_rpm
}

/// The seconds to wait before retrying, given the window's timestamps: until
/// the oldest one leaves the window (whole seconds, at least one); 60 when
/// the window is empty.
pub open spec fn retry_after_secs(ts: Seq<u64>, window: u64, now: u64) -> u64 {
    if ts.len() > 0 {
        let elapsed: int = if now >= ts[0] { now - ts[0] } else { 0 };
        if elapsed < window {
            let secs = (window - elapsed) / 1_000_000_000;
            if secs > 1 { secs as u64 } else { 1 }
        } else {
            1
        }
    } else {
        60
    }
}

/// The outcome of checking and recording a request of `user_id` at `now`:
/// expired timestamps are dropped, and the request is recorded and allowed
/// unless the window already holds `limit_rpm` requests.
pub open spec fn record_outcome(
    pre: Map<u128, Seq<u64>>,
    post: Map<u128, Seq<u64>>,
    window: u64,
    user_id: u128,
    limit_rpm: i32,
    now: u64,
    r: Result<(), u64>,
) -> bool {
    let w = in_window(user_timestamps(pre, user_id), window, now);
    if limit_reached(w.len(), limit_rpm) {
        &&& r == Err::<(), u64>(retry_after_secs(w, window, now))
        &&& post == pre.insert(user_id, w)
    } else {
        &&& r == Ok::<(), u64>(())
        &&& post == pre.insert(user_id, w.push(now))
    }
}

/// The windows after a request of `user_id` is recorded at `now` whatever
/// the limit: its expired timestamps are dropped and `now` is appended.
pub open spec fn recorded(m: Map<u128, Seq<u64>>, window: u64, user_id: u128, now: u64) -> Map<u128, Seq<u64>> {
    m.insert(user_id, in_window(user_timestamps(m, user_id), window, now).push(now))
}

/// The outcome of checking, without recording, a request of `user_id` at `now`.
pub open spec fn check_outcome(
    pre: Map<u128, Seq<u64>>,
    post: Map<u128, Seq<u64>>,
    window: u64,
    user_id: u128,
    limit_rpm: i32,
    now: u64,
    r: Result<(), u64>,
) -> bool {
    let w = in_window(user_timestamps(pre, user_id), window, now);
    &&& r == if limit_reached(w.len(), limit_rpm) {
        Err::<(), u64>(retry_after_secs(w, window, now))
    } else {
        Ok::<(), u64>(())
    }
    &&& post == pre.insert(user_id, w)
}

/// The windows after a cleanup at `now`: every window is pruned to the
/// timestamps inside it, and users left with none are forgotten.
pub open spec fn cleaned(m: Map<u128, Seq<u64>>, window: u64, now: u64) -> Map<u128, Seq<u64>> {
    Map::new(
        |k: u128| m.contains_key(k) && in_window(m[k], window, now).len() > 0,
        |k: u128| in_window(m[k], window, now),
    )
}

/// The windows part-way through a cleanup, when the users in `done` have
/// been handled.
pub open spec fn partly_cleaned(m: Map<u128, Seq<u64>>, done: Set<u128>, window: u64, now: u64) -> Map<
    u128,
    Seq<u64>,
> {
    Map::new(
        |k: u128| m.contains_key(k) && (!done.contains(k) || in_window(m[k], window, now).len() > 0),
        |k: u128| if done.contains(k) {
            in_window(m[k], window, now)
        } else {
            m[k]
        },
    )
}

/// The recorded timestamps of `user_id` (empty for an unknown user).
pub open spec fn user_timestamps(m: Map<u128, Seq<u64>>, user_id: u128) -> Seq<u64> {
    if m.contains_key(user_id) {
        m[user_id]
    } else {
        seq![]
    }
}

/// The timestamps of one user's recent requests.
pub struct SlidingWindow {
    timestamps: Vec<u64>,
}

impl View for SlidingWindow {
    type V = Seq<u64>;

    closed spec fn view(&self) -> Seq<u64> {
        self.timestamps@
    }
}

impl SlidingWindow {
    /// An empty window.
    pub fn new() -> (r: Self)
        ensures
            r@ == Seq::<u64>::empty(),
    {
        SlidingWindow { timestamps: Vec::new() }
    }

    /// Drops the timestamps that have left the window ending at `now` and
    /// returns how many remain.
    pub fn count_in_window(&mut self, window_size: u64, now: u64) -> (r: usize)
        ensures
            final(self)@ == in_window(old(self)@, window_size, now),
            r == final(self)@.len(),
    {
        let ghost ts = self@;
        let mut kept: Vec<u64> = Vec::new();
        let n = self.timestamps.len();
        let mut i: usize = 0;
        while i < n
            invariant
                n == ts.len(),
                ts == self.timestamps@,
                i <= n,
                kept@ == recent(ts.take(i as int), now - window_size),
            decreases n - i,
        {
            proof {
                let t = ts.take(i + 1);
                assert(t.drop_last() == ts.take(i as int));
            }
            let t = self.timestamps[i];
            if now < window_size || t > now - window_size {
                kept.push(t);
            }
            i = i + 1;
        }
        proof {
            assert(ts.take(n as int) == ts);
        }
        self.timestamps = kept;
        self.timestamps.len()
    }

    /// Records a request at `now`.
    pub fn add_request(&mut self, now: u64)
        ensures
            final(self)@ == old(self)@.push(now),
    {
        self.timestamps.push(now);
    }

    /// The first (oldest) recorded timestamp.
    pub fn oldest_timestamp(&self) -> (r: Option<u64>)
        ensures
            r == (if self@.len() > 0 {
                Some(self@[0])
            } else {
                None::<u64>
            }),
    {
        if self.timestamps.len() > 0 {
            Some(self.timestamps[0])
        } else {
            None
        }
    }
}

/// Calls `std::time::Instant::now`. Nothing is stated: the result is the time
/// of the call.
#[verifier::external_body]
fn instant_now() -> Instant {
    Instant::now()
}

/// Calls `Instant::elapsed` on `origin` and converts the duration to whole
/// nanoseconds. Nothing is stated: the result is the time of the call.
#[verifier::external_body]
fn nanos_since(origin: &Instant) -> u64 {
    origin.elapsed().as_nanos() as u64
}

/// Declares `std::time::Instant`, the origin of the limiter's clock.
#[verifier::external_type_specification]
#[verifier::external_body]
pub struct ExInstant(Instant);

/// User-level sliding-window rate limiter: each user may make at most
/// `limit_rpm` requests within any one-minute window.
pub struct RateLimiter {
    windows: HashMap<u128, SlidingWindow>,
    users: Vec<u128>,
    window_size: u64,
    origin: Instant,
}

impl Default for RateLimiter {
    fn default() -> (r: Self)
        ensures
            r.wf(),
            r.windows() == Map::<u128, Seq<u64>>::empty(),
            r.window_size() == WINDOW_NANOS,
    {
        RateLimiter::new()
    }
}

impl RateLimiter {
    /// The recorded timestamps of each user.
    pub closed spec fn windows(&self) -> Map<u128, Seq<u64>> {
        Map::new(|k: u128| self.windows@.contains_key(k), |k: u128| self.windows@[k]@)
    }

    /// Every user with a window is listed exactly once, and the window is
    /// one minute long.
    pub closed spec fn wf(&self) -> bool {
        &&& self.users@.to_set() == self.windows@.dom()
        &&& self.users@.no_duplicates()
        &&& self.window_size == WINDOW_NANOS
    }

    /// A valid limiter counts over a one-minute window.
    pub proof fn lemma_wf_window(&self)
        requires
            self.wf(),
        ensures
            self.window_size() == WINDOW_NANOS,
    {
    }

    /// The window length in nanoseconds.
    pub closed spec fn window_size(&self) -> u64 {
        self.window_size
    }

    /// The recorded timestamps of `user_id` (empty for an unknown user).
    pub open spec fn user_window(&self, user_id: u128) -> Seq<u64> {
        user_timestamps(self.windows(), user_id)
    }

    /// A limiter with no recorded requests and a one-minute window.
    pub fn new() -> (r: Self)
        ensures
            r.wf(),
            r.windows() == Map::<u128, Seq<u64>>::empty(),
            r.window_size() == WINDOW_NANOS,
    {
        let r = RateLimiter {
            windows: HashMap::new(),
            users: Vec::new(),
            window_size: WINDOW_NANOS,
            origin: instant_now(),
        };
        assert(r.windows() =~= Map::<u128, Seq<u64>>::empty());
        assert(r.users@.to_set() =~= r.windows@.dom());
        r
    }

    fn take_window(&mut self, user_id: u128) -> (w: SlidingWindow)
        ensures
            w@ == old(self).user_window(user_id),
            final(self).windows() == old(self).windows().remove(user_id),
            final(self).window_size() == old(self).window_size(),
            final(self).users == old(self).users,
            final(self).windows@.dom() == old(self).windows@.dom().remove(user_id),
    {
        let w = match self.windows.remove(&user_id) {
            Some(w) => w,
            None => SlidingWindow::new(),
        };
        assert(self.windows() =~= old(self).windows().remove(user_id));
        w
    }

    fn put_window(&mut self, user_id: u128, w: SlidingWindow)
        ensures
            final(self).windows() == old(self).windows().insert(user_id, w@),
            final(self).window_size() == old(self).window_size(),
            final(self).users == old(self).users,
            final(self).windows@.dom() == old(self).windows@.dom().insert(user_id),
    {
        self.windows.insert(user_id, w);
        assert(self.windows() =~= old(self).windows().insert(user_id, w@));
    }

    /// Checks whether `user_id` may make a request at time `now` under
    /// `limit_rpm` requests per window and records it if so. Expired
    /// timestamps are dropped either way. Returns `Err(retry_after_secs)`
    /// when the limit is reached.
    pub fn check_and_record_at(&mut self, user_id: u128, limit_rpm: i32, now: u64) -> (r: Result<(), u64>)
        requires
            old(self).wf(),
        ensures
            final(self).wf(),
            final(self).window_size() == old(self).window_size(),
            record_outcome(old(self).windows(), final(self).windows(), old(self).window_size(), user_id, limit_rpm, now, r),
    {
        self.remember_user(user_id);
        let ghost dom1 = self.windows@.dom();
        let mut window = self.take_window(user_id);
        let current_count = window.count_in_window(self.window_size, now);
        let result = if limit_rpm >= 0 && current_count >= limit_rpm as usize {
            let retry_after = self.retry_after(&window, now);
            Err(retry_after)
        } else {
            window.add_request(now);
            Ok(())
        };
        self.put_window(user_id, window);
        proof {
            assert(old(self).windows().remove(user_id).insert(user_id, window@) =~= old(self).windows().insert(
                user_id,
                window@,
            ));
            assert(self.windows@.dom() =~= dom1.insert(user_id));
        }
        result
    }

    /// Records a request of `user_id` at time `now` whatever the limit;
    /// expired timestamps are dropped first.
    pub fn record_at(&mut self, user_id: u128, now: u64)
        requires
            old(self).wf(),
        ensures
            final(self).wf(),
            final(self).window_size() == old(self).window_size(),
            final(self).windows() == recorded(old(self).windows(), old(self).window_size(), user_id, now),
    {
        self.remember_user(user_id);
        let ghost dom1 = self.windows@.dom();
        let mut window = self.take_window(user_id);
        let _ = window.count_in_window(self.window_size, now);
        window.add_request(now);
        self.put_window(user_id, window);
        proof {
            assert(old(self).windows().remove(user_id).insert(user_id, window@) =~= old(self).windows().insert(
                user_id,
                window@,
            ));
            assert(self.windows@.dom() =~= dom1.insert(user_id));
        }
    }

    /// Lists `user_id` among the users if it is not yet known.
    fn remember_user(&mut self, user_id: u128)
        requires
            old(self).wf(),
        ensures
            final(self).windows == old(self).windows,
            final(self).window_size == old(self).window_size,
            final(self).users@.to_set() == old(self).windows@.dom().insert(user_id),
            final(self).users@.no_duplicates(),
    {
        if !self.windows.contains_key(&user_id) {
            proof {
                assert(!self.users@.contains(user_id));
            }
            self.users.push(user_id);
            proof {
                lemma_push_to_set(old(self).users@, user_id);
                assert(self.users@.no_duplicates());
            }
        } else {
            assert(old(self).windows@.dom().insert(user_id) =~= old(self).windows@.dom());
        }
    }

    fn retry_after(&self, window: &SlidingWindow, now: u64) -> (r: u64)
        ensures
            r == retry_after_secs(window@, self.window_size(), now),
    {
        match window.oldest_timestamp() {
            Some(oldest) => {
                let elapsed = if now >= oldest {
                    now - oldest
                } else {
                    0
                };
                if elapsed < self.window_size {
                    let secs = (self.window_size - elapsed) / 1_000_000_000;
                    if secs > 1 {
                        secs
                    } else {
                        1
                    }
                } else {
                    1
                }
            },
            None => 60,
        }
    }

    /// Checks whether `user_id` may make a request at time `now` without
    /// recording it (expired timestamps are still dropped).
    pub fn check_only_at(&mut self, user_id: u128, limit_rpm: i32, now: u64) -> (r: Result<(), u64>)
        requires
            old(self).wf(),
        ensures
            final(self).wf(),
            final(self).window_size() == old(self).window_size(),
            check_outcome(old(self).windows(), final(self).windows(), old(self).window_size(), user_id, limit_rpm, now, r),
    {
        self.remember_user(user_id);
        let ghost dom1 = self.windows@.dom();
        let mut window = self.take_window(user_id);
        let current_count = window.count_in_window(self.window_size, now);
        let result = if limit_rpm >= 0 && current_count >= limit_rpm as usize {
            let retry_after = self.retry_after(&window, now);
            Err(retry_after)
        } else {
            Ok(())
        };
        self.put_window(user_id, window);
        proof {
            assert(old(self).windows().remove(user_id).insert(user_id, window@) =~= old(self).windows().insert(
                user_id,
                window@,
            ));
            assert(self.windows@.dom() =~= dom1.insert(user_id));
        }
        result
    }

    /// The number of requests of `user_id` inside the window ending at `now`;
    /// expired timestamps of a known user are dropped.
    pub fn get_current_count_at(&mut self, user_id: u128, now: u64) -> (r: usize)
        requires
            old(self).wf(),
        ensures
            final(self).wf(),
            final(self).window_size() == old(self).window_size(),
            r == in_window(old(self).user_window(user_id), old(self).window_size(), now).len(),
            final(self).windows() == if old(self).windows().contains_key(user_id) {
                old(self).windows().insert(
                    user_id,
                    in_window(old(self).user_window(user_id), old(self).window_size(), now),
                )
            } else {
                old(self).windows()
            },
    {
        if self.windows.contains_key(&user_id) {
            let mut window = self.take_window(user_id);
            let count = window.count_in_window(self.window_size, now);
            self.put_window(user_id, window);
            proof {
                assert(old(self).windows().remove(user_id).insert(user_id, window@) =~= old(self).windows().insert(
                    user_id,
                    window@,
                ));
            }
            count
        } else {
            proof {
                assert(recent(Seq::<u64>::empty(), now - self.window_size) =~= Seq::<u64>::empty());
            }
            0
        }
    }

    /// Prunes every window to the timestamps inside the window ending at
    /// `now` and forgets the users left with none.
    pub fn cleanup_at(&mut self, now: u64)
        requires
            old(self).wf(),
        ensures
            final(self).wf(),
            final(self).window_size() == old(self).window_size(),
            final(self).windows() == cleaned(old(self).windows(), old(self).window_size(), now),
    {
        let mut users: Vec<u128> = Vec::new();
        std::mem::swap(&mut users, &mut self.users);
        let ghost us = users@;
        let ghost m0 = self.windows();
        let ghost w = self.window_size;
        proof {
            assert(partly_cleaned(m0, us.take(0).to_set(), w, now) =~= m0);
            assert(self.users@.to_set() =~= Set::<u128>::empty());
        }
        for u in it: users.into_iter()
            invariant
                us.len() == it.seq().len(),
                forall|j: int| 0 <= j < us.len() ==> us[j] == it.seq()[j],
                us.no_duplicates(),
                us.to_set() == m0.dom(),
                self.window_size == w,
                self.windows() == partly_cleaned(m0, us.take(it.index() as int).to_set(), w, now),
                self.windows@.dom() == self.windows().dom(),
                self.users@.no_duplicates(),
                self.users@.to_set() == Set::new(
                    |k: u128| us.take(it.index() as int).contains(k) && in_window(m0[k], w, now).len() > 0,
                ),
        {
            let ghost i = it.index() as int;
            let ghost done = us.take(i).to_set();
            proof {
                assert(us.take(i + 1) == us.take(i).push(u));
                lemma_push_to_set(us.take(i), u);
                assert(us[i] == u);
                assert(us.contains(u));
                assert(us.to_set().contains(u));
                if us.take(i).contains(u) {
                    let tp = us.take(i);
                    let j = choose|j: int| 0 <= j < tp.len() && tp[j] == u;
                    assert(us[j] == us[i]);
                }
                assert(!done.contains(u));
                if self.users@.contains(u) {
                    assert(self.users@.to_set().contains(u));
                }
                assert(!self.users@.contains(u));
            }
            let mut window = self.take_window(u);
            let count = window.count_in_window(self.window_size, now);
            assert(window@ == in_window(m0[u], w, now));
            let ghost users_before = self.users@;
            if count > 0 {
                self.put_window(u, window);
                self.users.push(u);
                proof {
                    lemma_push_to_set(users_before, u);
                }
            }
            proof {
                assert forall|k: u128| us.take(i + 1).contains(k) <==> (us.take(i).contains(k) || k == u) by {
                    if us.take(i + 1).contains(k) {
                        let ti = us.take(i + 1);
                        let j = choose|j: int| 0 <= j < ti.len() && ti[j] == k;
                        if j < i {
                            assert(us.take(i)[j] == k);
                        }
                    }
                    if us.take(i).contains(k) {
                        let tp = us.take(i);
                        let j = choose|j: int| 0 <= j < tp.len() && tp[j] == k;
                        assert(us.take(i + 1)[j] == k);
                    }
                    if k == u {
                        assert(us.take(i + 1)[i] == k);
                    }
                }
            }
            proof {
                let done2 = us.take(i + 1).to_set();
                assert(self.windows() =~= partly_cleaned(m0, done2, w, now));
                assert(self.windows@.dom() =~= self.windows().dom());
                assert(self.users@.to_set() =~= Set::new(
                    |k: u128| us.take(i + 1).contains(k) && in_window(m0[k], w, now).len() > 0,
                ));
            }
        }
        proof {
            assert(us.take(us.len() as int) == us);
            assert(self.windows() =~= cleaned(m0, w, now));
            assert(self.users@.to_set() =~= self.windows@.dom());
        }
    }

    /// The current time on the limiter's clock, in nanoseconds since the
    /// limiter was created.
    pub fn now_nanos(&self) -> (r: u64) {
        nanos_since(&self.origin)
    }

    /// Prunes every window at the current time and forgets the users left
    /// with no request inside the window.
    pub fn cleanup(&mut self)
        requires
            old(self).wf(),
        ensures
            final(self).wf(),
            final(self).window_size() == old(self).window_size(),
            exists|now: u64| final(self).windows() == #[trigger] cleaned(old(self).windows(), old(self).window_size(), now),
    {
        let now = nanos_since(&self.origin);
        self.cleanup_at(now);
    }

    /// Checks and records a request of `user_id` at the current time.
    pub fn check_and_record(&mut self, user_id: u128, limit_rpm: i32) -> (r: Result<(), u64>)
        requires
            old(self).wf(),
        ensures
            final(self).wf(),
            final(self).window_size() == old(self).window_size(),
            exists|now: u64|
                #[trigger] record_outcome(old(self).windows(), final(self).windows(), old(self).window_size(), user_id, limit_rpm, now, r),
    {
        let now = nanos_since(&self.origin);
        self.check_and_record_at(user_id, limit_rpm, now)
    }

    /// Checks, without recording, a request of `user_id` at the current time.
    pub fn check_only(&mut self, user_id: u128, limit_rpm: i32) -> (r: Result<(), u64>)
        requires
            old(self).wf(),
        ensures
            final(self).wf(),
            final(self).window_size() == old(self).window_size(),
            exists|now: u64|
                #[trigger] check_outcome(old(self).windows(), final(self).windows(), old(self).window_size(), user_id, limit_rpm, now, r),
    {
        let now = nanos_since(&self.origin);
        self.check_only_at(user_id, limit_rpm, now)
    }

    /// The number of requests of `user_id` inside the window ending now.
    pub fn get_current_count(&mut self, user_id: u128) -> (r: usize)
        requires
            old(self).wf(),
        ensures
            final(self).wf(),
            final(self).window_size() == old(self).window_size(),
            exists|now: u64| r == (#[trigger] in_window(old(self).user_window(user_id), old(self).window_size(), now)).len(),
    {
        let now = nanos_since(&self.origin);
        self.get_current_count_at(user_id, now)
    }
}

proof fn lemma_push_to_set(s: Seq<u128>, x: u128)
    ensures
        s.push(x).to_set() == s.to_set().insert(x),
{
    assert forall|a: u128| s.push(x).to_set().contains(a) <==> s.to_set().insert(x).contains(a) by {
        if s.push(x).contains(a) {
            let i = choose|i: int| 0 <= i < s.len() + 1 && s.push(x)[i] == a;
            if i < s.len() {
                assert(s[i] == a);
            }
        }
        if s.contains(a) {
            let i = choose|i: int| 0 <= i < s.len() && s[i] == a;
            assert(s.push(x)[i] == a);
        }
        if a == x {
            assert(s.push(x)[s.len() as int] == x);
        }
    }
    assert(s.push(x).to_set() =~= s.to_set().insert(x));
}

proof fn lemma_recent_bounded(ts: Seq<u64>, c: int)
    ensures
        recent(ts, c).len() <= ts.len(),
        forall|j: int| 0 <= j < recent(ts, c).len() ==> recent(ts, c)[j] > c,
    decreases ts.len(),
{
    if ts.len() > 0 {
        lemma_recent_bounded(ts.drop_last(), c);
    }
}

/// Pruning at a cutoff after pruning at an earlier one is pruning at the later one.
proof fn lemma_recent_twice(ts: Seq<u64>, c1: int, c2: int)
    requires
        c1 <= c2,
    ensures
        recent(recent(ts, c1), c2) == recent(ts, c2),
    decreases ts.len(),
{
    if ts.len() > 0 {
        lemma_recent_twice(ts.drop_last(), c1, c2);
        let r1 = recent(ts.drop_last(), c1);
        if ts.last() > c1 {
            assert(recent(ts, c1) == r1.push(ts.last()));
            assert(recent(ts, c1).drop_last() == r1);
        }
    }
}

proof fn lemma_recent_push(ts: Seq<u64>, x: u64, c: int)
    requires
        x > c,
    ensures
        recent(ts.push(x), c) == recent(ts, c).push(x),
{
    assert(ts.push(x).drop_last() == ts);
}

/// A request is allowed only while the window holds fewer than `limit_rpm`
/// requests, so right after an allowed request the window ending at that
/// instant holds at most `limit_rpm` requests of the user.
pub proof fn law_allowed_requests_bounded(
    pre: Map<u128, Seq<u64>>,
    post: Map<u128, Seq<u64>>,
    window: u64,
    user_id: u128,
    limit_rpm: i32,
    now: u64,
)
    requires
        window > 0,
        limit_rpm >= 0,
        record_outcome(pre, post, window, user_id, limit_rpm, now, Ok(())),
    ensures
        in_window(user_timestamps(post, user_id), window, now).len() <= limit_rpm,
{
    let w = in_window(user_timestamps(pre, user_id), window, now);
    assert(user_timestamps(post, user_id) == w.push(now));
    lemma_recent_push(w, now, now - window);
    lemma_recent_twice(user_timestamps(pre, user_id), now - window, now - window);
}

/// Once the window holds `limit_rpm` requests of a user, a further request
/// in that window is refused, and nothing is recorded for it.
pub proof fn law_limit_reached_refuses(
    pre: Map<u128, Seq<u64>>,
    post: Map<u128, Seq<u64>>,
    window: u64,
    user_id: u128,
    limit_rpm: i32,
    now: u64,
    r: Result<(), u64>,
)
    requires
        limit_rpm >= 0,
        in_window(user_timestamps(pre, user_id), window, now).len() >= limit_rpm,
        record_outcome(pre, post, window, user_id, limit_rpm, now, r),
    ensures
        r is Err,
        post == pre.insert(user_id, in_window(user_timestamps(pre, user_id), window, now)),
{
}

/// A request of one user leaves every other user's window unchanged.
pub proof fn law_users_independent(
    pre: Map<u128, Seq<u64>>,
    post: Map<u128, Seq<u64>>,
    window: u64,
    user_id: u128,
    limit_rpm: i32,
    now: u64,
    r: Result<(), u64>,
    other: u128,
)
    requires
        other != user_id,
        record_outcome(pre, post, window, user_id, limit_rpm, now, r),
    ensures
        user_timestamps(post, other) == user_timestamps(pre, other),
{
}

/// Checking without recording gives the same answer as checking and recording.
pub proof fn law_check_only_agrees(
    pre: Map<u128, Seq<u64>>,
    post1: Map<u128, Seq<u64>>,
    post2: Map<u128, Seq<u64>>,
    window: u64,
    user_id: u128,
    limit_rpm: i32,
    now: u64,
    r1: Result<(), u64>,
    r2: Result<(), u64>,
)
    requires
        record_outcome(pre, post1, window, user_id, limit_rpm, now, r1),
        check_outcome(pre, post2, window, user_id, limit_rpm, now, r2),
    ensures
        r1 == r2,
{
}

/// A cleanup never changes a later decision: the window of every user, seen
/// at the cleanup's time or later, is the same before and after it.
pub proof fn law_cleanup_invisible(m: Map<u128, Seq<u64>>, window: u64, now: u64, later: u64, user_id: u128)
    requires
        now <= later,
    ensures
        in_window(user_timestamps(cleaned(m, window, now), user_id), window, later) == in_window(
            user_timestamps(m, user_id),
            window,
            later,
        ),
{
    let c = cleaned(m, window, now);
    if m.contains_key(user_id) {
        lemma_recent_twice(m[user_id], now - window, later - window);
        if !c.contains_key(user_id) {
            let p = in_window(m[user_id], window, now);
            assert(p.len() == 0);
            assert(recent(p, later - window) =~= Seq::<u64>::empty());
            assert(recent(Seq::<u64>::empty(), later - window) =~= Seq::<u64>::empty());
        }
    } else {
        assert(!c.contains_key(user_id));
    }
}

/// Checking and recording a request at `now` on a valid limiter, where `n`
/// requests of the user are inside the one-minute window: it is allowed
/// exactly when `n` is under the limit; the window then holds `n + 1`
/// requests, and after a refusal still `n`, with a wait of one to sixty
/// seconds. Other users are untouched.
pub proof fn law_record_counts(
    pre: RateLimiter,
    post: RateLimiter,
    user_id: u128,
    limit_rpm: i32,
    now: u64,
    r: Result<(), u64>,
)
    requires
        pre.wf(),
        record_outcome(pre.windows(), post.windows(), pre.window_size(), user_id, limit_rpm, now, r),
    ensures
        ({
            let n = in_window(pre.user_window(user_id), WINDOW_NANOS, now).len();
            let after = in_window(post.user_window(user_id), WINDOW_NANOS, now).len();
            &&& (r is Ok <==> !limit_reached(n, limit_rpm))
            &&& (r is Ok ==> after == n + 1)
            &&& (r matches Err(secs) ==> after == n && 1 <= secs <= 60)
        }),
        forall|v: u128| v != user_id ==> #[trigger] post.user_window(v) == pre.user_window(v),
{
    pre.lemma_wf_window();
    let ts = pre.user_window(user_id);
    let c = now - WINDOW_NANOS;
    let w = in_window(ts, WINDOW_NANOS, now);
    lemma_recent_twice(ts, c, c);
    if limit_reached(w.len(), limit_rpm) {
        lemma_retry_bounds(w, now);
    } else {
        assert(post.user_window(user_id) == w.push(now));
        lemma_recent_push(w, now, c);
    }
}

/// Recording a request at `now` on a valid limiter, where `n` requests of
/// the user are inside the one-minute window: the window then holds `n + 1`
/// requests. Other users are untouched.
pub proof fn law_record_request_counts(pre: RateLimiter, post: RateLimiter, user_id: u128, now: u64)
    requires
        pre.wf(),
        post.windows() == recorded(pre.windows(), pre.window_size(), user_id, now),
    ensures
        in_window(post.user_window(user_id), WINDOW_NANOS, now).len()
            == in_window(pre.user_window(user_id), WINDOW_NANOS, now).len() + 1,
        forall|v: u128| v != user_id ==> #[trigger] post.user_window(v) == pre.user_window(v),
{
    pre.lemma_wf_window();
    let ts = pre.user_window(user_id);
    let c = now - WINDOW_NANOS;
    let w = in_window(ts, WINDOW_NANOS, now);
    lemma_recent_twice(ts, c, c);
    assert(post.user_window(user_id) == w.push(now));
    lemma_recent_push(w, now, c);
}

/// Checking a request at `now` without recording it, on a valid limiter
/// where `n` requests of the user are inside the one-minute window: the
/// answer is as for checking and recording, and the window still holds `n`
/// requests. Other users are untouched.
pub proof fn law_check_counts(
    pre: RateLimiter,
    post: RateLimiter,
    user_id: u128,
    limit_rpm: i32,
    now: u64,
    r: Result<(), u64>,
)
    requires
        pre.wf(),
        check_outcome(pre.windows(), post.windows(), pre.window_size(), user_id, limit_rpm, now, r),
    ensures
        ({
            let n = in_window(pre.user_window(user_id), WINDOW_NANOS, now).len();
            &&& (r is Ok <==> !limit_reached(n, limit_rpm))
            &&& in_window(post.user_window(user_id), WINDOW_NANOS, now).len() == n
            &&& (r matches Err(secs) ==> 1 <= secs <= 60)
        }),
        forall|v: u128| v != user_id ==> #[trigger] post.user_window(v) == pre.user_window(v),
{
    pre.lemma_wf_window();
    let ts = pre.user_window(user_id);
    let c = now - WINDOW_NANOS;
    let w = in_window(ts, WINDOW_NANOS, now);
    lemma_recent_twice(ts, c, c);
    if limit_reached(w.len(), limit_rpm) {
        lemma_retry_bounds(w, now);
    }
}

/// The wait before a retry runs until the oldest timestamp still in the
/// window, `w[0]`, leaves it: with `left` the nanoseconds until then
/// (the whole window when that timestamp is not yet past), waiting `secs + 1`
/// seconds always suffices, and `secs` seconds are not more than `left`
/// unless `left` is under a second, when the wait is one second. An empty
/// window gives a minute.
proof fn lemma_retry_waits_for_oldest(w: Seq<u64>, now: u64)
    ensures
        ({
            let secs = retry_after_secs(w, WINDOW_NANOS, now);
            &&& 1 <= secs <= 60
            &&& w.len() == 0 ==> secs == 60
            &&& w.len() > 0 ==> {
                let left: int = WINDOW_NANOS - (if now >= w[0] { now - w[0] } else { 0int });
                &&& left < (secs + 1) * 1_000_000_000
                &&& (left >= 1_000_000_000 ==> secs * 1_000_000_000 <= left)
            }
        }),
{
    lemma_retry_bounds(w, now);
    if w.len() > 0 {
        let elapsed: int = if now >= w[0] { now - w[0] } else { 0 };
        let left: int = WINDOW_NANOS - elapsed;
        if elapsed < WINDOW_NANOS {
            let q = left / 1_000_000_000;
            assert(q * 1_000_000_000 <= left < (q + 1) * 1_000_000_000) by (nonlinear_arith)
                requires
                    left > 0,
                    q == left / 1_000_000_000,
            ;
        }
    }
}

/// A refused request on a valid limiter waits for the oldest request still in
/// the user's one-minute window to leave it: with `left` the nanoseconds
/// until that request leaves the window, waiting one second more than the
/// answer always suffices, and the answer is never more whole seconds than
/// `left` (it is one second when less than a second is left). When nothing is
/// in the window (a limit of zero) the wait is a minute.
pub proof fn law_refusal_waits_for_oldest(
    pre: RateLimiter,
    post: RateLimiter,
    user_id: u128,
    limit_rpm: i32,
    now: u64,
    secs: u64,
)
    requires
        pre.wf(),
        record_outcome(pre.windows(), post.windows(), pre.window_size(), user_id, limit_rpm, now, Err(secs))
            || check_outcome(pre.windows(), post.windows(), pre.window_size(), user_id, limit_rpm, now, Err(secs)),
    ensures
        ({
            let w = in_window(pre.user_window(user_id), WINDOW_NANOS, now);
            &&& 1 <= secs <= 60
            &&& w.len() == 0 ==> secs == 60
            &&& w.len() > 0 ==> {
                let left: int = WINDOW_NANOS - (if now >= w[0] { now - w[0] } else { 0int });
                &&& left < (secs + 1) * 1_000_000_000
                &&& (left >= 1_000_000_000 ==> secs * 1_000_000_000 <= left)
            }
        }),
{
    pre.lemma_wf_window();
    let w = in_window(pre.user_window(user_id), WINDOW_NANOS, now);
    lemma_retry_waits_for_oldest(w, now);
}

proof fn lemma_retry_bounds(w: Seq<u64>, now: u64)
    ensures
        1 <= retry_after_secs(w, WINDOW_NANOS, now) <= 60,
{
    if w.len() > 0 {
        let elapsed: int = if now >= w[0] { now - w[0] } else { 0 };
        if elapsed < WINDOW_NANOS {
            assert((WINDOW_NANOS - elapsed) / 1_000_000_000 <= 60) by (nonlinear_arith)
                requires
                    0 <= elapsed < WINDOW_NANOS,
                    WINDOW_NANOS == 60_000_000_000,
            ;
        }
    }
}

} // verus!
