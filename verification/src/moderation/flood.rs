//! The flood tracker: a sliding window of message times for each sender.

use crate::clock::Clock;
use std::collections::{HashMap, VecDeque};
use vstd::prelude::*;

verus! {

broadcast use vstd::std_specs::hash::group_hash_axioms;

/// The length in nanoseconds of a window of `window_sec` seconds. The number
/// of seconds is read as an unsigned 64-bit number, so a negative one stands
/// for a window of more than 2^63 seconds.
pub open spec fn span_nanos(window_sec: i32) -> int {
    if window_sec >= 0 {
        window_sec * 1_000_000_000
    } else {
        (window_sec + 0x1_0000_0000_0000_0000) * 1_000_000_000
    }
}

/// Whether a message sent at `t` has left a window of `span` nanoseconds
/// that ends at `now`. A time after `now` counts as `now`.
pub open spec fn expired(t: u128, now: u128, span: int) -> bool {
    now - t > span
}

/// `w` without its longest prefix of expired times.
pub open spec fn pruned(w: Seq<u128>, now: u128, span: int) -> Seq<u128>
    decreases w.len(),
{
    if w.len() > 0 && expired(w[0], now, span) {
        pruned(w.drop_first(), now, span)
    } else {
        w
    }
}

/// The window of a sender after a message at `now`: the time is appended,
/// then expired times are dropped from the front.
pub open spec fn slid(w: Seq<u128>, now: u128, window_sec: i32) -> Seq<u128> {
    pruned(w.push(now), now, span_nanos(window_sec))
}

/// Whether the times of `w` never decrease.
pub open spec fn ascending(w: Seq<u128>) -> bool {
    forall|i: int, j: int| 0 <= i <= j < w.len() ==> w[i] <= w[j]
}

/// Pruning cuts a prefix: what it drops is expired, and what it keeps is
/// empty or starts with a time that is not.
pub proof fn lemma_pruned_is_suffix(w: Seq<u128>, now: u128, span: int)
    ensures
        pruned(w, now, span).len() <= w.len(),
        pruned(w, now, span) == w.skip(w.len() - pruned(w, now, span).len()),
        forall|i: int|
            0 <= i < w.len() - pruned(w, now, span).len() ==> expired(#[trigger] w[i], now, span),
        pruned(w, now, span).len() > 0 ==> !expired(pruned(w, now, span)[0], now, span),
    decreases w.len(),
{
    if w.len() > 0 && expired(w[0], now, span) {
        let rest = w.drop_first();
        lemma_pruned_is_suffix(rest, now, span);
        let kept = pruned(rest, now, span);
        let cut = rest.len() - kept.len();
        assert(rest.skip(cut) == w.skip(cut + 1));
        assert forall|i: int| 0 <= i < w.len() - kept.len() implies expired(
            #[trigger] w[i],
            now,
            span,
        ) by {
            if i > 0 {
                assert(w[i] == rest[i - 1]);
            }
        }
    } else {
        assert(w.skip(0) == w);
    }
}

/// The sliding window. Where the times of a window arrived in order and
/// `now` is no earlier than the last of them, the window after a message at
/// `now` holds exactly the times that are not older than the span, in order
/// of arrival: it is a suffix of the old window with `now` appended, every
/// time it holds is within the span, and every time it dropped is not. It is
/// again in order and ends with `now`.
pub proof fn law_window_holds_the_recent_times(w: Seq<u128>, now: u128, window_sec: i32)
    requires
        ascending(w),
        follows(w, now),
    ensures
        ({
            let all = w.push(now);
            let kept = slid(w, now, window_sec);
            let span = span_nanos(window_sec);
            &&& 1 <= kept.len() <= all.len()
            &&& kept == all.skip(all.len() - kept.len())
            &&& forall|i: int| 0 <= i < kept.len() ==> !expired(#[trigger] kept[i], now, span)
            &&& forall|i: int| 0 <= i < all.len() - kept.len() ==> expired(#[trigger] all[i], now, span)
            &&& ascending(kept)
            &&& kept.last() == now
        }),
{
    let all = w.push(now);
    let span = span_nanos(window_sec);
    let kept = slid(w, now, window_sec);
    lemma_pruned_is_suffix(all, now, span);
    let cut = all.len() - kept.len();
    assert(ascending(all));
    assert(!expired(all[all.len() - 1], now, span));
    assert(kept.len() >= 1);
    assert forall|i: int| 0 <= i < kept.len() implies !expired(#[trigger] kept[i], now, span) by {
        assert(kept[i] == all[cut + i]);
        assert(kept[0] == all[cut]);
        assert(all[cut] <= all[cut + i]);
    }
}

/// While a burst lasts, nothing leaves the window. Where the times of a
/// window arrived in order, `now` is no earlier than the last of them and the
/// oldest is not older than the span, a message at `now` is simply counted:
/// the tracker reports a flood exactly when the window then holds more than
/// the allowed number.
pub proof fn law_burst_is_counted(w: Seq<u128>, now: u128, window_sec: i32)
    requires
        ascending(w),
        follows(w, now),
        w.len() > 0 ==> !expired(w[0], now, span_nanos(window_sec)),
    ensures
        slid(w, now, window_sec) == w.push(now),
{
    let all = w.push(now);
    assert(!expired(all[0], now, span_nanos(window_sec)));
}

/// A time that is older than the span leaves the window: where the oldest
/// time of a window has expired at `now`, a message at `now` leaves the
/// window that it would leave had that time never been recorded.
pub proof fn law_expired_time_leaves(w: Seq<u128>, now: u128, window_sec: i32)
    requires
        w.len() > 0,
        expired(w[0], now, span_nanos(window_sec)),
    ensures
        slid(w, now, window_sec) == slid(w.drop_first(), now, window_sec),
        slid(w, now, window_sec).len() <= w.len(),
{
    let span = span_nanos(window_sec);
    assert(w.push(now).drop_first() == w.drop_first().push(now));
    lemma_pruned_is_suffix(w.drop_first().push(now), now, span);
}

/// A pause resets the count. Where the times of a window arrived in order
/// and the last of them is older than the span at `now`, the window after a
/// message at `now` holds that message alone.
pub proof fn law_pause_resets_the_window(w: Seq<u128>, now: u128, window_sec: i32)
    requires
        ascending(w),
        w.len() > 0,
        expired(w.last(), now, span_nanos(window_sec)),
    ensures
        slid(w, now, window_sec) == seq![now],
{
    let all = w.push(now);
    let span = span_nanos(window_sec);
    let kept = slid(w, now, window_sec);
    lemma_pruned_is_suffix(all, now, span);
    let cut = all.len() - kept.len();
    assert(!expired(all[all.len() - 1], now, span));
    if cut < w.len() {
        assert(kept[0] == all[cut]);
        assert(all[cut] == w[cut]);
        assert(w[cut] <= w[w.len() - 1]);
    }
    assert(kept == seq![now]);
}

/// The place of a sender in the table: one number for each pair.
pub closed spec fn slot(chat_id: i64, user_id: i64) -> i128 {
    (chat_id * 0x1_0000_0000_0000_0000 + (user_id + 0x8000_0000_0000_0000)) as i128
}

/// Different senders have different places.
proof fn slot_is_injective(c1: i64, u1: i64, c2: i64, u2: i64)
    requires
        slot(c1, u1) == slot(c2, u2),
    ensures
        c1 == c2,
        u1 == u2,
{
}

/// The times of recent messages of each sender, in order of arrival.
///
/// Times are nanoseconds on the tracker's own monotonic clock, which starts
/// when the tracker is made.
#[derive(Debug)]
pub struct FloodTracker {
    clock: Clock,
    events: HashMap<i128, VecDeque<u128>>,
}

impl View for FloodTracker {
    type V = Map<(i64, i64), Seq<u128>>;

    /// For each sender (chat, user) seen so far, the times that its window holds.
    closed spec fn view(&self) -> Map<(i64, i64), Seq<u128>> {
        Map::new(
            |k: (i64, i64)| self.events@.contains_key(slot(k.0, k.1)),
            |k: (i64, i64)| self.events@[slot(k.0, k.1)]@,
        )
    }
}

/// The window of `(chat_id, user_id)` in `table`: empty for a sender not seen so far.
pub open spec fn window_of(table: Map<(i64, i64), Seq<u128>>, chat_id: i64, user_id: i64) -> Seq<
    u128,
> {
    if table.contains_key((chat_id, user_id)) {
        table[(chat_id, user_id)]
    } else {
        Seq::empty()
    }
}

/// Whether every window of `table` holds its times in order of arrival.
pub open spec fn in_order(table: Map<(i64, i64), Seq<u128>>) -> bool {
    forall|k: (i64, i64)| table.contains_key(k) ==> ascending(#[trigger] table[k])
}

/// Whether `now` is no earlier than the last time of `w`.
pub open spec fn follows(w: Seq<u128>, now: u128) -> bool {
    w.len() > 0 ==> w.last() <= now
}

/// What one message does to the table and what the tracker answers: the
/// sender's window slides to `now`, all other windows stay, and the answer is
/// whether the window then holds more than `max_msgs` times.
pub open spec fn hit_outcome(
    before: Map<(i64, i64), Seq<u128>>,
    after: Map<(i64, i64), Seq<u128>>,
    flooded: bool,
    chat_id: i64,
    user_id: i64,
    now: u128,
    window_sec: i32,
    max_msgs: i32,
) -> bool {
    let window = slid(window_of(before, chat_id, user_id), now, window_sec);
    &&& after == before.insert((chat_id, user_id), window)
    &&& flooded == (window.len() > max_msgs)
}

impl Clone for FloodTracker {
    /// A tracker with the same clock and the same windows.
    fn clone(&self) -> (copy: Self)
        ensures
            copy@ == self@,
    {
        FloodTracker { clock: self.clock.clone(), events: self.events.clone() }
    }
}

impl FloodTracker {
    /// A tracker that has seen no message.
    pub fn new() -> (tracker: Self)
        ensures
            tracker@ == Map::<(i64, i64), Seq<u128>>::empty(),
    {
        let tracker = FloodTracker { clock: Clock::start(), events: HashMap::new() };
        assert(tracker@ =~= Map::<(i64, i64), Seq<u128>>::empty());
        tracker
    }

    /// The time on the tracker's clock.
    pub(crate) fn now(&self) -> u128 {
        self.clock.now()
    }

    /// How many times the window of `(chat_id, user_id)` holds.
    pub fn retained(&self, chat_id: i64, user_id: i64) -> (n: usize)
        ensures
            n == window_of(self@, chat_id, user_id).len(),
    {
        let key = Self::slot_of(chat_id, user_id);
        match self.events.get(&key) {
            Some(q) => q.len(),
            None => 0,
        }
    }

    fn slot_of(chat_id: i64, user_id: i64) -> (key: i128)
        ensures
            key == slot(chat_id, user_id),
    {
        (chat_id as i128) * 0x1_0000_0000_0000_0000 + ((user_id as i128) + 0x8000_0000_0000_0000)
    }

    fn span_of(window_sec: i32) -> (span: u128)
        ensures
            span == span_nanos(window_sec),
    {
        if window_sec >= 0 {
            (window_sec as u128) * 1_000_000_000
        } else {
            ((window_sec as i128 + 0x1_0000_0000_0000_0000) as u128) * 1_000_000_000
        }
    }

    /// Records a message of `(chat_id, user_id)` at time `now` and says
    /// whether the sender is flooding: the time is appended to the sender's
    /// window, times older than `window_sec` seconds are dropped from its
    /// front, and the answer is whether more than `max_msgs` remain.
    ///
    /// Where the windows held their times in order and `now` is no earlier
    /// than the sender's last message, they still do afterwards.
    pub fn hit_at(
        &mut self,
        chat_id: i64,
        user_id: i64,
        now: u128,
        window_sec: i32,
        max_msgs: i32,
    ) -> (flooded: bool)
        ensures
            hit_outcome(
                old(self)@,
                final(self)@,
                flooded,
                chat_id,
                user_id,
                now,
                window_sec,
                max_msgs,
            ),
            in_order(old(self)@) && follows(window_of(old(self)@, chat_id, user_id), now)
                ==> in_order(final(self)@),
    {
        let key = Self::slot_of(chat_id, user_id);
        let span = Self::span_of(window_sec);
        let mut q = match self.events.remove(&key) {
            Some(q) => q,
            None => VecDeque::new(),
        };
        let ghost before = window_of(old(self)@, chat_id, user_id);
        assert(q@ == before);
        q.push_back(now);
        while q.len() > 0 && now > q[0] && now - q[0] > span
            invariant
                pruned(q@, now, span as int) == pruned(before.push(now), now, span as int),
            decreases q.len(),
        {
            q.pop_front();
        }
        let n = q.len();
        self.events.insert(key, q);
        proof {
            let window = slid(before, now, window_sec);
            assert(q@ == window);
            assert forall|k: (i64, i64)| k != (chat_id, user_id) implies slot(k.0, k.1) != key by {
                if slot(k.0, k.1) == key {
                    slot_is_injective(k.0, k.1, chat_id, user_id);
                }
            }
            assert(self@ =~= old(self)@.insert((chat_id, user_id), window));
            if in_order(old(self)@) && follows(before, now) {
                law_window_holds_the_recent_times(before, now, window_sec);
            }
        }
        max_msgs < 0 || n > max_msgs as usize
    }

    /// Records a message of `(chat_id, user_id)` at the present time of the
    /// tracker's clock and says whether the sender is flooding. Whatever the
    /// clock shows, the call does what `hit_at` does for that time.
    pub fn hit(&mut self, chat_id: i64, user_id: i64, window_sec: i32, max_msgs: i32) -> (flooded:
        bool)
        ensures
            exists|now: u128|
                hit_outcome(
                    old(self)@,
                    final(self)@,
                    flooded,
                    chat_id,
                    user_id,
                    now,
                    window_sec,
                    max_msgs,
                ),
    {
        let now = self.now();
        self.hit_at(chat_id, user_id, now, window_sec, max_msgs)
    }
}

} // verus!
