//! Sliding-window request limiter: per key, at most `max_requests` hits within `window_secs`.
use vstd::prelude::*;

verus! {

#[verifier::external_type_specification]
#[verifier::external_body]
pub struct ExInstant(std::time::Instant);

/// The current monotonic instant (`Instant::now`).
#[verifier::external_body]
fn instant_now() -> (res: std::time::Instant)
{
    std::time::Instant::now()
}

/// Nanoseconds elapsed since `origin` on the monotonic clock (`origin.elapsed()`), as a `u64`.
/// Nothing is stated of the value: it depends on the clock.
#[verifier::external_body]
fn nanos_since(origin: &std::time::Instant) -> (res: u64)
{
    origin.elapsed().as_nanos() as u64
}

/// Per-key request buckets; each bucket holds the monotonic times (nanoseconds since the
/// limiter was made) of the requests it admitted that are still of interest.
pub struct RateLimitState {
    buckets: Vec<(String, Vec<u64>)>,
    max_requests: usize,
    window_secs: u64,
    origin: std::time::Instant,
}

/// The buckets as a map from key to hits; the first entry of a key is the one that counts.
pub open spec fn buckets_map(s: Seq<(String, Vec<u64>)>) -> Map<Seq<char>, Seq<u64>>
    decreases s.len(),
{
    if s.len() == 0 {
        Map::empty()
    } else {
        buckets_map(s.drop_first()).insert(s[0].0@, s[0].1@)
    }
}

/// The hits of `key`, none for a key never seen.
pub open spec fn bucket_of(m: Map<Seq<char>, Seq<u64>>, key: Seq<char>) -> Seq<u64> {
    if m.contains_key(key) { m[key] } else { Seq::empty() }
}

/// Whether a hit at `t` still lies inside the window at time `now` (all in nanoseconds; a hit
/// stamped after `now` counts as no time elapsed).
pub open spec fn in_window(t: u64, now: u64, window_nanos: int) -> bool {
    (if now >= t { now - t } else { 0 }) < window_nanos
}

/// The hits of a bucket that are still inside the window at `now`, in order.
pub open spec fn fresh_hits(hits: Seq<u64>, now: u64, window_nanos: int) -> Seq<u64>
    decreases hits.len(),
{
    if hits.len() == 0 {
        Seq::empty()
    } else {
        let rest = fresh_hits(hits.drop_last(), now, window_nanos);
        if in_window(hits.last(), now, window_nanos) { rest.push(hits.last()) } else { rest }
    }
}

proof fn lemma_fresh_len(hits: Seq<u64>, now: u64, w: int)
    ensures
        fresh_hits(hits, now, w).len() <= hits.len(),
    decreases hits.len(),
{
    if hits.len() > 0 {
        lemma_fresh_len(hits.drop_last(), now, w);
    }
}

proof fn lemma_map_first(s: Seq<(String, Vec<u64>)>, i: int, key: Seq<char>)
    requires
        0 <= i < s.len(),
        s[i].0@ == key,
        forall|j: int| 0 <= j < i ==> s[j].0@ != key,
    ensures
        buckets_map(s).contains_key(key),
        buckets_map(s)[key] == s[i].1@,
    decreases s.len(),
{
    if i > 0 {
        assert forall|j: int| 0 <= j < i - 1 implies s.drop_first()[j].0@ != key by {
            assert(s.drop_first()[j] == s[j + 1]);
        }
        lemma_map_first(s.drop_first(), i - 1, key);
        assert(s[0].0@ != key);
    }
}

proof fn lemma_map_absent(s: Seq<(String, Vec<u64>)>, key: Seq<char>)
    requires
        forall|j: int| 0 <= j < s.len() ==> s[j].0@ != key,
    ensures
        !buckets_map(s).contains_key(key),
    decreases s.len(),
{
    if s.len() > 0 {
        assert forall|j: int| 0 <= j < s.len() - 1 implies s.drop_first()[j].0@ != key by {
            assert(s.drop_first()[j] == s[j + 1]);
        }
        lemma_map_absent(s.drop_first(), key);
        assert(s[0].0@ != key);
    }
}

proof fn lemma_map_set(s: Seq<(String, Vec<u64>)>, i: int, e: (String, Vec<u64>))
    requires
        0 <= i < s.len(),
        s[i].0@ == e.0@,
        forall|j: int| 0 <= j < i ==> s[j].0@ != e.0@,
    ensures
        buckets_map(s.update(i, e)) == buckets_map(s).insert(e.0@, e.1@),
    decreases s.len(),
{
    let t = s.update(i, e);
    if i == 0 {
        assert(t.drop_first() =~= s.drop_first());
        assert(buckets_map(t) =~= buckets_map(s).insert(e.0@, e.1@));
    } else {
        assert forall|j: int| 0 <= j < i - 1 implies s.drop_first()[j].0@ != e.0@ by {
            assert(s.drop_first()[j] == s[j + 1]);
        }
        assert(t.drop_first() =~= s.drop_first().update(i - 1, e));
        lemma_map_set(s.drop_first(), i - 1, e);
        assert(s[0].0@ != e.0@);
        assert(t[0] == s[0]);
        assert(buckets_map(t) =~= buckets_map(s).insert(e.0@, e.1@));
    }
}

proof fn lemma_map_push(s: Seq<(String, Vec<u64>)>, e: (String, Vec<u64>))
    requires
        forall|j: int| 0 <= j < s.len() ==> s[j].0@ != e.0@,
    ensures
        buckets_map(s.push(e)) == buckets_map(s).insert(e.0@, e.1@),
    decreases s.len(),
{
    let t = s.push(e);
    if s.len() == 0 {
        assert(t.drop_first() =~= Seq::<(String, Vec<u64>)>::empty());
        assert(t[0] == e);
        assert(buckets_map(t.drop_first()) == Map::<Seq<char>, Seq<u64>>::empty());
        assert(buckets_map(s) == Map::<Seq<char>, Seq<u64>>::empty());
        assert(buckets_map(t) =~= buckets_map(s).insert(e.0@, e.1@));
    } else {
        assert forall|j: int| 0 <= j < s.len() - 1 implies s.drop_first()[j].0@ != e.0@ by {
            assert(s.drop_first()[j] == s[j + 1]);
        }
        assert(t.drop_first() =~= s.drop_first().push(e));
        lemma_map_push(s.drop_first(), e);
        assert(s[0].0@ != e.0@);
        assert(buckets_map(t) =~= buckets_map(s).insert(e.0@, e.1@));
    }
}

impl RateLimitState {
    /// The limiter's buckets as a map.
    pub closed spec fn buckets_view(&self) -> Map<Seq<char>, Seq<u64>> {
        buckets_map(self.buckets@)
    }

    /// The window length in nanoseconds.
    pub closed spec fn window_nanos(&self) -> int {
        self.window_secs * 1_000_000_000
    }

    /// The most hits a key may hold within one window.
    pub closed spec fn limit(&self) -> nat {
        self.max_requests as nat
    }

    /// No key holds more than `limit()` hits.
    pub open spec fn within_limits(&self) -> bool {
        forall|k: Seq<char>| self.buckets_view().contains_key(k) ==> #[trigger] self.buckets_view()[k].len() <= self.limit()
    }

    /// A limiter with no history.
    pub fn new(max_requests: usize, window_secs: u64) -> (r: Self)
        ensures
            r.limit() == max_requests,
            r.window_nanos() == window_secs * 1_000_000_000,
            r.buckets_view() == Map::<Seq<char>, Seq<u64>>::empty(),
            r.within_limits(),
    {
        RateLimitState { buckets: Vec::new(), max_requests, window_secs, origin: instant_now() }
    }

    /// Counts a request for `key` at monotonic time `now` (nanoseconds): hits that fell out of
    /// the window are dropped; the request is admitted when fewer than `max_requests` remain,
    /// and only an admitted request is recorded. Other keys are not touched.
    pub fn check_at(&mut self, key: &str, now: u64) -> (admitted: bool)
        ensures
            final(self).limit() == old(self).limit(),
            final(self).window_nanos() == old(self).window_nanos(),
            ({
                let kept = fresh_hits(bucket_of(old(self).buckets_view(), key@), now, old(self).window_nanos());
                &&& admitted == (kept.len() < old(self).limit())
                &&& final(self).buckets_view() == old(self).buckets_view().insert(
                    key@, if admitted { kept.push(now) } else { kept })
            }),
            old(self).within_limits() ==> final(self).within_limits(),
    {
        let window: u128 = self.window_secs as u128 * 1_000_000_000u128;
        let mut i: usize = 0;
        let n = self.buckets.len();
        let mut found = false;
        while i < n && !found
            invariant
                n == self.buckets@.len(),
                i <= n,
                forall|j: int| 0 <= j < i ==> self.buckets@[j].0@ != key@,
                found ==> i < n && self.buckets@[i as int].0@ == key@,
            decreases n - i + (if found { 0int } else { 1int }),
        {
            if crate::text::str_eq(self.buckets[i].0.as_str(), key) {
                found = true;
            } else {
                i += 1;
            }
        }
        // `i` is the first entry for `key`, or `n` when there is none.
        let ghost old_map = buckets_map(self.buckets@);
        let mut kept: Vec<u64> = Vec::new();
        if i < n {
            let hits = &self.buckets[i].1;
            let mut j: usize = 0;
            while j < hits.len()
                invariant
                    j <= hits@.len(),
                    window == self.window_secs as int * 1_000_000_000,
                    kept@ == fresh_hits(hits@.take(j as int), now, window as int),
                decreases hits@.len() - j,
            {
                let t = hits[j];
                let elapsed: u64 = if now >= t { now - t } else { 0 };
                assert(hits@.take(j + 1).drop_last() =~= hits@.take(j as int));
                if (elapsed as u128) < window {
                    kept.push(t);
                }
                j += 1;
            }
            assert(hits@.take(hits@.len() as int) =~= hits@);
        }
        let admitted = kept.len() < self.max_requests;
        let ghost kept_before = kept@;
        if admitted {
            kept.push(now);
        }
        let entry = (String::from_str(key), kept);
        let ghost old_buckets = self.buckets@;
        proof {
            if i < n {
                lemma_map_first(old_buckets, i as int, key@);
            } else {
                lemma_map_absent(old_buckets, key@);
            }
        }
        if i < n {
            self.buckets.set(i, entry);
            proof { lemma_map_set(old_buckets, i as int, entry); }
        } else {
            self.buckets.push(entry);
            proof { lemma_map_push(old_buckets, entry); }
        }
        proof {
            let kept0 = fresh_hits(bucket_of(old_map, key@), now, self.window_nanos());
            lemma_fresh_len(bucket_of(old_map, key@), now, self.window_nanos());
            assert(buckets_map(self.buckets@) == old_map.insert(key@, kept@));
            assert(kept_before == fresh_hits(bucket_of(old_map, key@), now, self.window_nanos()));
            if old(self).within_limits() {
                assert(old(self).buckets_view() == old_map);
                if old_map.contains_key(key@) {
                    assert(old_map[key@].len() <= self.max_requests);
                }
                assert(bucket_of(old_map, key@).len() <= self.max_requests);
                assert(kept@.len() <= self.max_requests);
                assert forall|k: Seq<char>| buckets_map(self.buckets@).contains_key(k)
                    implies #[trigger] buckets_map(self.buckets@)[k].len() <= self.max_requests by {
                    if k != key@ {
                        assert(old_map.contains_key(k));
                    }
                }
            }
        }
        admitted
    }

    /// Counts a request for `key` now, on the limiter's monotonic clock.
    pub fn check(&mut self, key: &str) -> (admitted: bool)
        ensures
            final(self).limit() == old(self).limit(),
            final(self).window_nanos() == old(self).window_nanos(),
            exists|now: u64| ({
                let kept = #[trigger] fresh_hits(bucket_of(old(self).buckets_view(), key@), now, old(self).window_nanos());
                &&& admitted == (kept.len() < old(self).limit())
                &&& final(self).buckets_view() == old(self).buckets_view().insert(
                    key@, if admitted { kept.push(now) } else { kept })
            }),
            old(self).within_limits() ==> final(self).within_limits(),
    {
        let now = nanos_since(&self.origin);
        self.check_at(key, now)
    }
}

} // verus!
