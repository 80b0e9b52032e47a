//! A sliding-window rate limiter, keyed by client id.
//!
//! Timestamps are caller-supplied milliseconds; the limiter itself never
//! reads a clock.

use vstd::prelude::*;
use crate::strutil::{copy_str, str_eq};

verus! {

/// Whether a request at `t` still lies inside the window at `now`.
pub open spec fn time_fresh(t: u64, now: u64, window: u64) -> bool {
    (if now >= t {
        (now - t) as u64
    } else {
        0
    }) < window
}

/// The request times still inside the window.
pub open spec fn fresh_times(times: Seq<u64>, now: u64, window: u64) -> Seq<u64> {
    times.filter(|t: u64| time_fresh(t, now, window))
}

/// The cleaned entry list: each client's times filtered to the window,
/// clients with no remaining times dropped.
pub open spec fn cleaned(
    entries: Seq<(Seq<char>, Seq<u64>)>,
    now: u64,
    window: u64,
) -> Seq<(Seq<char>, Seq<u64>)>
    decreases entries.len(),
{
    if entries.len() == 0 {
        Seq::empty()
    } else {
        let ft = fresh_times(entries[0].1, now, window);
        let rest = cleaned(entries.skip(1), now, window);
        if ft.len() > 0 {
            seq![(entries[0].0, ft)] + rest
        } else {
            rest
        }
    }
}

/// Per-client request history against a cap of `max_requests` inside a
/// sliding window of `window_duration` milliseconds.
#[derive(Debug)]
pub struct RateLimiter {
    pub requests: Vec<(String, Vec<u64>)>,
    pub max_requests: u32,
    pub window_duration: u64,
}

impl RateLimiter {
    /// The entries over mathematical values.
    pub open spec fn entries_view(self) -> Seq<(Seq<char>, Seq<u64>)> {
        self.requests@.map_values(|p: (String, Vec<u64>)| (p.0@, p.1@))
    }

    /// A limiter allowing `max_requests` per client inside a window of
    /// `window_duration` milliseconds.
    pub fn new(max_requests: u32, window_duration: u64) -> (r: Self)
        ensures
            r.max_requests == max_requests,
            r.window_duration == window_duration,
            r.entries_view().len() == 0,
    {
        RateLimiter { requests: Vec::new(), max_requests, window_duration }
    }

    /// Records a request of `client_id` at `now` and says whether it is
    /// allowed: requests older than the window are dropped first, and the
    /// request is allowed (and recorded) exactly when fewer than
    /// `max_requests` remain in the window.
    pub fn check_rate_limit(&mut self, client_id: &str, now: u64) -> (r: bool)
        ensures
            final(self).max_requests == old(self).max_requests,
            final(self).window_duration == old(self).window_duration,
            ({
                let w = old(self).window_duration;
                let m = old(self).max_requests;
                if exists|j: int|
                    0 <= j < old(self).entries_view().len() && (#[trigger] old(
                        self,
                    ).entries_view()[j]).0 == client_id@ {
                    exists|j: int|
                        {
                            &&& 0 <= j < old(self).entries_view().len()
                            &&& (#[trigger] old(self).entries_view()[j]).0 == client_id@
                            &&& forall|k: int|
                                0 <= k < j ==> old(self).entries_view()[k].0 != client_id@
                            &&& r == (fresh_times(
                                old(self).entries_view()[j].1,
                                now,
                                w,
                            ).len() < m)
                            &&& final(self).entries_view() == old(self).entries_view().update(
                                j,
                                (
                                    client_id@,
                                    if fresh_times(old(self).entries_view()[j].1, now, w).len()
                                        < m {
                                        fresh_times(old(self).entries_view()[j].1, now, w).push(
                                            now,
                                        )
                                    } else {
                                        fresh_times(old(self).entries_view()[j].1, now, w)
                                    },
                                ),
                            )
                        }
                } else {
                    &&& r == (m > 0)
                    &&& final(self).entries_view() == old(self).entries_view().push(
                        (
                            client_id@,
                            if m > 0 {
                                seq![now]
                            } else {
                                Seq::<u64>::empty()
                            },
                        ),
                    )
                }
            }),
    {
        let ghost pre = self.entries_view();
        let window = self.window_duration;
        let maxr = self.max_requests;
        let n = self.requests.len();
        let mut i: usize = 0;
        while i < n
            invariant
                pre == old(self).entries_view(),
                pre == self.entries_view(),
                *self == *old(self),
                window == self.window_duration,
                maxr == self.max_requests,
                n == pre.len(),
                i <= n,
                forall|k: int| 0 <= k < i ==> (#[trigger] pre[k]).0 != client_id@,
            decreases n - i,
        {
            if str_eq(self.requests[i].0.as_str(), client_id) {
                proof {
                    assert(pre[i as int].0 == client_id@);
                }
                let entry = self.requests.remove(i);
                let key = entry.0;
                let times = entry.1;
                let ghost tv = times@;
                let mut kept: Vec<u64> = Vec::new();
                let tn = times.len();
                let mut t: usize = 0;
                proof {
                    reveal(Seq::filter);
                    assert(tv.take(0).filter(|x: u64| time_fresh(x, now, window)) =~= Seq::<
                        u64,
                    >::empty());
                }
                while t < tn
                    invariant
                        tn == tv.len(),
                        t <= tn,
                        times@ == tv,
                        kept@ == tv.take(t as int).filter(|x: u64| time_fresh(x, now, window)),
                    decreases tn - t,
                {
                    proof {
                        reveal(Seq::filter);
                        assert(tv.take(t + 1).drop_last() =~= tv.take(t as int));
                        assert(tv.take(t + 1).last() == tv[t as int]);
                    }
                    let ts = times[t];
                    let age = if now >= ts {
                        now - ts
                    } else {
                        0
                    };
                    if age < window {
                        kept.push(ts);
                    }
                    t = t + 1;
                }
                proof {
                    assert(tv.take(tn as int) =~= tv);
                }
                let allowed = kept.len() < maxr as usize;
                if allowed {
                    kept.push(now);
                }
                let ghost gk = kept@;
                self.requests.insert(i, (key, kept));
                proof {
                    assert(self.entries_view() =~= pre.update(i as int, (client_id@, gk)));
                }
                return allowed;
            }
            i = i + 1;
        }
        let allowed = maxr > 0;
        let mut times: Vec<u64> = Vec::new();
        if allowed {
            times.push(now);
        }
        let ghost gt = times@;
        self.requests.push((copy_str(client_id), times));
        proof {
            assert(self.entries_view() =~= pre.push((client_id@, gt)));
        }
        allowed
    }

    /// Drops every request older than the window, and every client with no
    /// remaining requests.
    pub fn cleanup_old_entries(&mut self, now: u64)
        ensures
            final(self).max_requests == old(self).max_requests,
            final(self).window_duration == old(self).window_duration,
            final(self).entries_view() == cleaned(
                old(self).entries_view(),
                now,
                old(self).window_duration,
            ),
    {
        let ghost pre = self.entries_view();
        let window = self.window_duration;
        let mut kept: Vec<(String, Vec<u64>)> = Vec::new();
        let mut i: usize = 0;
        let n = self.requests.len();
        proof {
            assert(pre.skip(0) =~= pre);
            assert(kept@.map_values(|p: (String, Vec<u64>)| (p.0@, p.1@)) =~= Seq::<
                (Seq<char>, Seq<u64>),
            >::empty());
        }
        while i < n
            invariant
                pre == old(self).entries_view(),
                window == old(self).window_duration,
                window == self.window_duration,
                self.max_requests == old(self).max_requests,
                n == self.requests@.len(),
                n == pre.len(),
                pre == self.entries_view(),
                i <= n,
                kept@.map_values(|p: (String, Vec<u64>)| (p.0@, p.1@)) + cleaned(
                    pre.skip(i as int),
                    now,
                    window,
                ) =~= cleaned(pre, now, window),
            decreases n - i,
        {
            proof {
                reveal(Seq::filter);
                assert(pre.skip(i as int)[0] == pre[i as int]);
                assert(pre.skip(i as int).skip(1) =~= pre.skip(i + 1));
            }
            let key = self.requests[i].0.clone();
            let ghost tv = pre[i as int].1;
            let mut fresh: Vec<u64> = Vec::new();
            let tn = self.requests[i].1.len();
            let mut t: usize = 0;
            proof {
                reveal(Seq::filter);
                assert(tv.take(0).filter(|x: u64| time_fresh(x, now, window)) =~= Seq::<
                    u64,
                >::empty());
            }
            while t < tn
                invariant
                    0 <= i < self.requests@.len(),
                    tv == self.requests@[i as int].1@,
                    tn == tv.len(),
                    t <= tn,
                    fresh@ == tv.take(t as int).filter(|x: u64| time_fresh(x, now, window)),
                decreases tn - t,
            {
                proof {
                    reveal(Seq::filter);
                    assert(tv.take(t + 1).drop_last() =~= tv.take(t as int));
                    assert(tv.take(t + 1).last() == tv[t as int]);
                }
                let ts = self.requests[i].1[t];
                let age = if now >= ts {
                    now - ts
                } else {
                    0
                };
                if age < window {
                    fresh.push(ts);
                }
                t = t + 1;
            }
            proof {
                assert(tv.take(tn as int) =~= tv);
            }
            if fresh.len() > 0 {
                let ghost gf = fresh@;
                let ghost gk = kept@.map_values(|p: (String, Vec<u64>)| (p.0@, p.1@));
                kept.push((key, fresh));
                proof {
                    assert(kept@.map_values(|p: (String, Vec<u64>)| (p.0@, p.1@)) =~= gk.push(
                        (pre[i as int].0, gf),
                    ));
                }
            }
            i = i + 1;
        }
        proof {
            assert(pre.skip(n as int) =~= Seq::<(Seq<char>, Seq<u64>)>::empty());
        }
        self.requests = kept;
    }
}

} // verus!
