//! The rate limit on callbacks: at most so many per user and second.

use crate::clock::Clock;
use std::collections::HashMap;
use vstd::prelude::*;

verus! {

broadcast use vstd::std_specs::hash::group_hash_axioms;

/// Whether a callback at `t` is at most one second old at `now`. A time
/// after `now` counts as `now`.
pub open spec fn fresh(t: u128, now: u128) -> bool {
    now - t <= 1_000_000_000
}

/// The times of `bucket` that are at most one second old at `now`, in order.
pub open spec fn recent(bucket: Seq<u128>, now: u128) -> Seq<u128> {
    bucket.filter(|t: u128| fresh(t, now))
}

/// The times in the bucket of `user_id`: none for a user not seen so far.
pub open spec fn bucket_of(buckets: Map<i64, Seq<u128>>, user_id: i64) -> Seq<u128> {
    if buckets.contains_key(user_id) {
        buckets[user_id]
    } else {
        Seq::empty()
    }
}

/// What one callback does to the buckets and what the limiter answers: the
/// time is added to the user's bucket, the bucket keeps the times of the last
/// second, all other buckets stay, and the callback is allowed while the
/// bucket holds at most `per_sec` times.
pub open spec fn allow_outcome(
    before: Map<i64, Seq<u128>>,
    after: Map<i64, Seq<u128>>,
    allowed: bool,
    user_id: i64,
    per_sec: u32,
    now: u128,
) -> bool {
    let bucket = recent(bucket_of(before, user_id).push(now), now);
    &&& after == before.insert(user_id, bucket)
    &&& allowed == (bucket.len() <= per_sec)
}

/// Only fresh times stay in a bucket, and all of them do: a time is in the
/// bucket after a callback at `now` exactly when it was there before, or is
/// `now` itself, and is at most one second old.
pub proof fn law_bucket_holds_the_last_second(bucket: Seq<u128>, now: u128, t: u128)
    ensures
        recent(bucket.push(now), now).contains(t) <==> (bucket.contains(t) || t == now) && fresh(
            t,
            now,
        ),
{
    let all = bucket.push(now);
    let pred = |t: u128| fresh(t, now);
    if recent(all, now).contains(t) {
        all.lemma_filter_contains_rev(pred, t);
        let i = choose|i: int| 0 <= i < all.len() && all[i] == t;
        if i < bucket.len() {
            assert(bucket[i] == t);
        }
    }
    if (bucket.contains(t) || t == now) && fresh(t, now) {
        if bucket.contains(t) {
            let i = choose|i: int| 0 <= i < bucket.len() && bucket[i] == t;
            assert(all[i] == t);
            all.lemma_filter_contains(pred, i);
        } else {
            assert(all[all.len() - 1] == t);
            all.lemma_filter_contains(pred, all.len() - 1);
        }
    }
}

/// Within a second every callback counts: where all times of a bucket are
/// at most one second old at `now`, a callback at `now` is added and nothing
/// is dropped, so it is allowed exactly while the bucket held fewer than
/// `per_sec` times.
pub proof fn law_burst_fills_the_bucket(bucket: Seq<u128>, now: u128)
    requires
        forall|i: int| 0 <= i < bucket.len() ==> fresh(#[trigger] bucket[i], now),
    ensures
        recent(bucket.push(now), now) == bucket.push(now),
{
    lemma_all_stay(bucket.push(now), now);
}

/// A bucket of fresh times loses nothing.
proof fn lemma_all_stay(bucket: Seq<u128>, now: u128)
    requires
        forall|i: int| 0 <= i < bucket.len() ==> fresh(#[trigger] bucket[i], now),
    ensures
        recent(bucket, now) == bucket,
    decreases bucket.len(),
{
    reveal(Seq::filter);
    if bucket.len() > 0 {
        lemma_all_stay(bucket.drop_last(), now);
        assert(bucket.drop_last().push(bucket.last()) == bucket);
    }
}

/// The times of the recent callbacks of each user.
///
/// Times are nanoseconds on the limiter's own monotonic clock, which starts
/// when the limiter is made.
#[derive(Debug)]
pub struct CallbackRateLimit {
    clock: Clock,
    hits: HashMap<i64, Vec<u128>>,
}

impl View for CallbackRateLimit {
    type V = Map<i64, Seq<u128>>;

    /// For each user seen so far, the times that its bucket holds.
    closed spec fn view(&self) -> Map<i64, Seq<u128>> {
        Map::new(|k: i64| self.hits@.contains_key(k), |k: i64| self.hits@[k]@)
    }
}

impl Default for CallbackRateLimit {
    /// A limiter that has seen no callback.
    fn default() -> (limiter: Self)
        ensures
            limiter@ == Map::<i64, Seq<u128>>::empty(),
    {
        let limiter = CallbackRateLimit { clock: Clock::start(), hits: HashMap::new() };
        assert(limiter@ =~= Map::<i64, Seq<u128>>::empty());
        limiter
    }
}

/// The times of `bucket` that are at most one second old at `now`, in order.
fn keep_recent(bucket: &Vec<u128>, now: u128) -> (kept: Vec<u128>)
    ensures
        kept@ == recent(bucket@, now),
{
    let mut kept: Vec<u128> = Vec::new();
    let mut i: usize = 0;
    proof {
        reveal(Seq::filter);
    }
    while i < bucket.len()
        invariant
            i <= bucket.len(),
            kept@ == recent(bucket@.take(i as int), now),
        decreases bucket.len() - i,
    {
        let t = bucket[i];
        proof {
            reveal(Seq::filter);
            assert(bucket@.take(i + 1).drop_last() == bucket@.take(i as int));
            assert(bucket@.take(i + 1).last() == t);
        }
        if now <= t || now - t <= 1_000_000_000 {
            kept.push(t);
        }
        i += 1;
    }
    assert(bucket@.take(bucket@.len() as int) == bucket@);
    kept
}

impl CallbackRateLimit {
    /// The time on the limiter's clock.
    fn now(&self) -> u128 {
        self.clock.now()
    }

    /// How many times the bucket of `user_id` holds.
    pub fn pending(&self, user_id: i64) -> (n: usize)
        ensures
            n == bucket_of(self@, user_id).len(),
    {
        match self.hits.get(&user_id) {
            Some(bucket) => bucket.len(),
            None => 0,
        }
    }

    /// Records a callback of `user_id` at time `now` and says whether it is
    /// allowed: the time is added to the user's bucket, times older than one
    /// second are dropped, and the callback is allowed while at most
    /// `per_sec` remain.
    pub fn allow_at(&mut self, user_id: i64, per_sec: u32, now: u128) -> (allowed: bool)
        ensures
            allow_outcome(old(self)@, final(self)@, allowed, user_id, per_sec, now),
    {
        let mut bucket = match self.hits.remove(&user_id) {
            Some(bucket) => bucket,
            None => Vec::new(),
        };
        assert(bucket@ == bucket_of(old(self)@, user_id));
        bucket.push(now);
        let kept = keep_recent(&bucket, now);
        let n = kept.len();
        self.hits.insert(user_id, kept);
        assert(self@ =~= old(self)@.insert(
            user_id,
            recent(bucket_of(old(self)@, user_id).push(now), now),
        ));
        n <= per_sec as usize
    }

    /// Records a callback of `user_id` at the present time of the limiter's
    /// clock and says whether it is allowed. Whatever the clock shows, the
    /// call does what `allow_at` does for that time.
    pub fn allow(&mut self, user_id: i64, per_sec: u32) -> (allowed: bool)
        ensures
            exists|now: u128|
                allow_outcome(old(self)@, final(self)@, allowed, user_id, per_sec, now),
    {
        let now = self.now();
        self.allow_at(user_id, per_sec, now)
    }
}

} // verus!
