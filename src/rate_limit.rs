//! Per-client sliding-window admission control.

use vstd::prelude::*;

verus! {

/// A client's window: requests counted so far and when the window opened.
pub type Slot = (u32, u64);

/// Time passed from `start` to `now`, zero if the clock reads earlier.
pub open spec fn elapsed(start: u64, now: u64) -> int {
    if now >= start {
        now - start
    } else {
        0
    }
}

/// The admission decision for one request at `now`, and the client's next slot.
pub open spec fn admission(slot: Option<Slot>, now: u64, max_requests: u32, window_ms: u64) -> (
    bool,
    Slot,
) {
    match slot {
        None => (true, (1u32, now)),
        Some((count, start)) => if elapsed(start, now) >= window_ms {
            (true, (1u32, now))
        } else if count < max_requests {
            (true, ((count + 1) as u32, start))
        } else {
            (false, (count, start))
        },
    }
}

/// Decisions for a run of requests by one client at the given times.
pub open spec fn replay(slot: Option<Slot>, times: Seq<u64>, max_requests: u32, window_ms: u64) -> Seq<
    bool,
>
    decreases times.len(),
{
    if times.len() == 0 {
        Seq::empty()
    } else {
        let (ok, next) = admission(slot, times[0], max_requests, window_ms);
        seq![ok] + replay(Some(next), times.drop_first(), max_requests, window_ms)
    }
}

/// The client's slot after a run of requests at the given times.
pub open spec fn replay_slot(
    slot: Option<Slot>,
    times: Seq<u64>,
    max_requests: u32,
    window_ms: u64,
) -> Option<Slot>
    decreases times.len(),
{
    if times.len() == 0 {
        slot
    } else {
        let (_, next) = admission(slot, times[0], max_requests, window_ms);
        replay_slot(Some(next), times.drop_first(), max_requests, window_ms)
    }
}

proof fn lemma_replay_open_window(count: u32, t0: u64, times: Seq<u64>, max_requests: u32, window_ms: u64)
    requires
        1 <= count <= max_requests,
        forall|i: int| 0 <= i < times.len() ==> t0 <= #[trigger] times[i] && times[i] - t0 < window_ms,
    ensures
        replay(Some((count, t0)), times, max_requests, window_ms) =~= Seq::new(
            times.len(),
            |i: int| count + i < max_requests,
        ),
        replay_slot(Some((count, t0)), times, max_requests, window_ms) is Some,
        replay_slot(Some((count, t0)), times, max_requests, window_ms).unwrap().1 == t0,
    decreases times.len(),
{
    if times.len() > 0 {
        let next: u32 = if count < max_requests {
            (count + 1) as u32
        } else {
            count
        };
        assert(times[0] - t0 < window_ms);
        let rest = times.drop_first();
        assert forall|i: int| 0 <= i < rest.len() implies t0 <= #[trigger] rest[i] && rest[i] - t0
            < window_ms by {
            assert(rest[i] == times[i + 1]);
        }
        lemma_replay_open_window(next, t0, rest, max_requests, window_ms);
    }
}

/// For one client not yet seen, while every request falls within the window
/// opened by the first one, exactly the first `max_requests` requests are
/// allowed and the rest denied; once the window has elapsed, the next request
/// is allowed again.
pub proof fn admission_allows_exactly_max_per_window(
    times: Seq<u64>,
    later: u64,
    max_requests: u32,
    window_ms: u64,
)
    requires
        max_requests >= 1,
        times.len() >= 1,
        forall|i: int|
            0 <= i < times.len() ==> times[0] <= #[trigger] times[i] && times[i] - times[0]
                < window_ms,
        later >= times[0] + window_ms,
    ensures
        replay(None, times, max_requests, window_ms) =~= Seq::new(
            times.len(),
            |i: int| i < max_requests,
        ),
        admission(replay_slot(None, times, max_requests, window_ms), later, max_requests, window_ms).0,
{
    let t0 = times[0];
    let rest = times.drop_first();
    assert forall|i: int| 0 <= i < rest.len() implies t0 <= #[trigger] rest[i] && rest[i] - t0
        < window_ms by {
        assert(rest[i] == times[i + 1]);
    }
    lemma_replay_open_window(1, t0, rest, max_requests, window_ms);
}

/// One client's entry in the limiter's table.
pub struct ClientWindow {
    pub key: String,
    pub count: u32,
    pub window_start: u64,
}

/// Sliding-window request counter per client identity.
pub struct RateLimiter {
    entries: Vec<ClientWindow>,
    max_requests: u32,
    window_ms: u64,
    windows: Ghost<Map<Seq<char>, Slot>>,
}

impl RateLimiter {
    /// The slot of each client seen so far.
    pub closed spec fn windows(&self) -> Map<Seq<char>, Slot> {
        self.windows@
    }

    pub closed spec fn spec_max_requests(&self) -> u32 {
        self.max_requests
    }

    pub closed spec fn spec_window_ms(&self) -> u64 {
        self.window_ms
    }

    /// The table holds each client once, and agrees with `windows`.
    pub closed spec fn wf(&self) -> bool {
        &&& forall|i: int, j: int|
            0 <= i < j < self.entries@.len() ==> self.entries@[i].key@ != self.entries@[j].key@
        &&& forall|i: int|
            0 <= i < self.entries@.len() ==> #[trigger] self.windows@.contains_key(
                self.entries@[i].key@,
            ) && self.windows@[self.entries@[i].key@] == (
                self.entries@[i].count,
                self.entries@[i].window_start,
            )
        &&& forall|k: Seq<char>|
            #[trigger] self.windows@.contains_key(k) ==> exists|i: int|
                0 <= i < self.entries@.len() && self.entries@[i].key@ == k
    }

    /// A limiter admitting `max_requests` requests per client in each window of
    /// `window_ms` milliseconds, with no client seen yet.
    pub fn new(max_requests: u32, window_ms: u64) -> (r: Self)
        ensures
            r.wf(),
            r.windows() == Map::<Seq<char>, Slot>::empty(),
            r.spec_max_requests() == max_requests,
            r.spec_window_ms() == window_ms,
    {
        RateLimiter {
            entries: Vec::new(),
            max_requests,
            window_ms,
            windows: Ghost(Map::empty()),
        }
    }

    pub fn max_requests(&self) -> (r: u32)
        ensures
            r == self.spec_max_requests(),
    {
        self.max_requests
    }

    pub fn window_ms(&self) -> (r: u64)
        ensures
            r == self.spec_window_ms(),
    {
        self.window_ms
    }

    /// Decides whether client `key` may make a request at time `now_ms`, and
    /// records it: a new client or an elapsed window starts a fresh window with
    /// count one; otherwise the count grows while below the maximum, and the
    /// request is denied at the maximum.
    pub fn is_allowed(&mut self, key: &str, now_ms: u64) -> (r: bool)
        requires
            old(self).wf(),
        ensures
            final(self).wf(),
            final(self).spec_max_requests() == old(self).spec_max_requests(),
            final(self).spec_window_ms() == old(self).spec_window_ms(),
            ({
                let (ok, next) = admission(
                    if old(self).windows().contains_key(key@) {
                        Some(old(self).windows()[key@])
                    } else {
                        None
                    },
                    now_ms,
                    old(self).spec_max_requests(),
                    old(self).spec_window_ms(),
                );
                r == ok && final(self).windows() == old(self).windows().insert(key@, next)
            }),
    {
        let owned = key.to_owned();
        let n = self.entries.len();
        let mut i: usize = 0;
        while i < n
            invariant
                n == self.entries@.len(),
                i <= n,
                self.wf(),
                self.entries@ == old(self).entries@,
                self.windows@ == old(self).windows@,
                self.max_requests == old(self).max_requests,
                self.window_ms == old(self).window_ms,
                owned@ == key@,
                forall|j: int| 0 <= j < i ==> self.entries@[j].key@ != owned@,
            decreases n - i,
        {
            if self.entries[i].key == owned {
                let count = self.entries[i].count;
                let start = self.entries[i].window_start;
                let elapsed: u64 = if now_ms >= start {
                    now_ms - start
                } else {
                    0
                };
                let (ok, next): (bool, Slot) = if elapsed >= self.window_ms {
                    (true, (1, now_ms))
                } else if count < self.max_requests {
                    (true, (count + 1, start))
                } else {
                    (false, (count, start))
                };
                let ghost k = owned@;
                proof {
                    assert(self.windows@.contains_key(k));
                }
                self.entries.set(i, ClientWindow { key: owned, count: next.0, window_start: next.1 });
                self.windows = Ghost(self.windows@.insert(k, next));
                proof {
                    assert forall|k2: Seq<char>| #[trigger]
                        self.windows@.contains_key(k2) implies exists|j: int|
                        0 <= j < self.entries@.len() && self.entries@[j].key@ == k2 by {
                        if k2 != k {
                            let j = choose|j: int|
                                0 <= j < old(self).entries@.len() && old(self).entries@[j].key@
                                    == k2;
                            assert(self.entries@[j].key@ == k2);
                        } else {
                            assert(self.entries@[i as int].key@ == k2);
                        }
                    }
                }
                return ok;
            }
            i = i + 1;
        }
        let ghost k = owned@;
        proof {
            if self.windows@.contains_key(k) {
                let j = choose|j: int| 0 <= j < self.entries@.len() && self.entries@[j].key@ == k;
                assert(self.entries@[j].key@ != owned@);
            }
        }
        self.entries.push(ClientWindow { key: owned, count: 1, window_start: now_ms });
        self.windows = Ghost(self.windows@.insert(k, (1u32, now_ms)));
        proof {
            assert forall|k2: Seq<char>| #[trigger]
                self.windows@.contains_key(k2) implies exists|j: int|
                0 <= j < self.entries@.len() && self.entries@[j].key@ == k2 by {
                if k2 != k {
                    let j = choose|j: int|
                        0 <= j < old(self).entries@.len() && old(self).entries@[j].key@ == k2;
                    assert(self.entries@[j].key@ == k2);
                } else {
                    assert(self.entries@[n as int].key@ == k2);
                }
            }
        }
        true
    }
}

} // verus!
