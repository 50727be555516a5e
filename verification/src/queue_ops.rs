use vstd::prelude::*;
use crate::models::{YTVideoInfo, RepeatMode};
use crate::queue::{
    QueueView, count_id, lemma_find_id_is, lemma_find_id_first, is_first_with_id, has_id,
};

verus! {

// What each queue operation does, stated position by position in terms of
// its inputs, independently of how the transitions are written.

/// The ids of a sequence of tracks, in order.
pub open spec fn ids_of(s: Seq<YTVideoInfo>) -> Seq<Seq<char>> {
    s.map_values(|t: YTVideoInfo| t.id@)
}

/// `add_to_queue`: a track whose id is queued changes nothing; any other
/// track is appended at the end and nothing else moves.
pub proof fn law_add_to_queue(v: QueueView, t: YTVideoInfo)
    ensures
        (exists|i: int| #![trigger v.queue[i]] 0 <= i < v.queue.len() && v.queue[i].id@ == t.id@)
            ==> v.added(t) == v,
        (forall|i: int| #![trigger v.queue[i]] 0 <= i < v.queue.len() ==> v.queue[i].id@ != t.id@) ==> {
            let r = v.added(t);
            &&& r.queue.len() == v.queue.len() + 1
            &&& forall|i: int| 0 <= i < v.queue.len() ==> #[trigger] r.queue[i] == v.queue[i]
            &&& r.queue[v.queue.len() as int] == t
            &&& r.original == v.original
            &&& r.current == v.current
            &&& r.shuffle == v.shuffle
            &&& r.repeat == v.repeat
        },
{
    if exists|i: int| #![trigger v.queue[i]] 0 <= i < v.queue.len() && v.queue[i].id@ == t.id@ {
        let i = choose|i: int| #![trigger v.queue[i]] 0 <= i < v.queue.len() && v.queue[i].id@ == t.id@;
        assert(has_id(v.queue, t.id@));
    }
}

/// `add_to_queue_batch`: the old queue followed by the given tracks, in
/// their order, whatever the current index.
pub proof fn law_add_to_queue_batch(v: QueueView, ts: Seq<YTVideoInfo>)
    ensures
        v.added_batch(ts).queue.len() == v.queue.len() + ts.len(),
        forall|i: int| 0 <= i < v.queue.len() ==> #[trigger] v.added_batch(ts).queue[i] == v.queue[i],
        forall|j: int| 0 <= j < ts.len() ==> #[trigger] v.added_batch(ts).queue[v.queue.len() + j] == ts[j],
        v.added_batch(ts).original == v.original,
        v.added_batch(ts).current == v.current,
        v.added_batch(ts).shuffle == v.shuffle,
        v.added_batch(ts).repeat == v.repeat,
{
}

/// `insert_next`: a track whose id is queued changes nothing; any other
/// track goes right after the current one (at the front when the index is
/// below 0, at the end when it is the last or beyond), and the tracks from
/// there on move one place back.
pub proof fn law_insert_next(v: QueueView, t: YTVideoInfo)
    requires
        forall|i: int| #![trigger v.queue[i]] 0 <= i < v.queue.len() ==> v.queue[i].id@ != t.id@,
    ensures
        ({
            let k = if v.current + 1 > 0 { v.current + 1 } else { 0 };
            let r = v.inserted_next(t);
            &&& r.queue.len() == v.queue.len() + 1
            &&& k >= v.queue.len() ==> r.queue[v.queue.len() as int] == t
                && forall|i: int| 0 <= i < v.queue.len() ==> #[trigger] r.queue[i] == v.queue[i]
            &&& k < v.queue.len() ==> r.queue[k] == t
                && (forall|i: int| 0 <= i < k ==> #[trigger] r.queue[i] == v.queue[i])
                && (forall|i: int| k < i <= v.queue.len() ==> #[trigger] r.queue[i] == v.queue[i - 1])
            &&& r.original == v.original
            &&& r.current == v.current
            &&& r.shuffle == v.shuffle
            &&& r.repeat == v.repeat
        }),
{
}

/// `remove_from_queue(i)`: the track at `i` leaves and the later ones move
/// up; the index moves down when a track before the current one leaves,
/// and when the current track was the last one.
pub proof fn law_remove_from_queue(v: QueueView, i: int)
    requires
        0 <= i < v.queue.len(),
    ensures
        v.removed(i).queue.len() == v.queue.len() - 1,
        forall|j: int| 0 <= j < i ==> #[trigger] v.removed(i).queue[j] == v.queue[j],
        forall|j: int| i <= j < v.queue.len() - 1 ==> #[trigger] v.removed(i).queue[j] == v.queue[j + 1],
        i < v.current ==> v.removed(i).current == v.current - 1,
        i > v.current ==> v.removed(i).current == v.current,
        i == v.current && i == v.queue.len() - 1 ==> v.removed(i).current == v.current - 1,
        i == v.current && i < v.queue.len() - 1 ==> v.removed(i).current == v.current,
        v.removed(i).original == v.original,
        v.removed(i).shuffle == v.shuffle,
        v.removed(i).repeat == v.repeat,
{
}

/// `clear_queue`: no tracks and no current index (-1); the settings stay.
pub proof fn law_clear_queue(v: QueueView)
    ensures
        v.cleared().queue.len() == 0,
        v.cleared().current == -1,
        v.cleared().original == v.original,
        v.cleared().shuffle == v.shuffle,
        v.cleared().repeat == v.repeat,
{
}

/// `play_track_at` and `set_current_index` only move the index.
pub proof fn law_with_current(v: QueueView, i: int)
    ensures
        v.with_current(i).current == i,
        v.with_current(i).queue == v.queue,
        v.with_current(i).original == v.original,
        v.with_current(i).shuffle == v.shuffle,
        v.with_current(i).repeat == v.repeat,
{
}

/// Only the index changes when moving on or back.
pub open spec fn only_index_moved(a: QueueView, b: QueueView, c: int) -> bool {
    &&& b.current == c
    &&& b.queue == a.queue
    &&& b.original == a.original
    &&& b.shuffle == a.shuffle
    &&& b.repeat == a.repeat
}

/// `play_next`: an empty queue gives nothing. Repeat one plays the current
/// track again (nothing when the index lies outside the queue) and moves
/// nothing. Repeat all moves one on and wraps from the last track to the
/// first. Repeat off moves one on and stops after the last track.
pub proof fn law_play_next(v: QueueView)
    ensures
        v.queue.len() == 0 ==> v.next_step() == (v, None::<YTVideoInfo>),
        v.queue.len() > 0 && v.repeat == RepeatMode::One ==> {
            &&& v.next_step().0 == v
            &&& 0 <= v.current < v.queue.len() ==> v.next_step().1 == Some(v.queue[v.current])
            &&& !(0 <= v.current < v.queue.len()) ==> v.next_step().1 is None
        },
        v.queue.len() > 0 && v.repeat == RepeatMode::All && -1 <= v.current < v.queue.len() ==> {
            let c = if v.current + 1 < v.queue.len() { v.current + 1 } else { 0 };
            &&& only_index_moved(v, v.next_step().0, c)
            &&& v.next_step().1 == Some(v.queue[c])
        },
        v.queue.len() > 0 && v.repeat == RepeatMode::All && v.current >= -1 ==> {
            let c = (v.current + 1) % (v.queue.len() as int);
            &&& only_index_moved(v, v.next_step().0, c)
            &&& v.next_step().1 == Some(v.queue[c])
        },
        v.queue.len() > 0 && v.repeat == RepeatMode::All && v.current < -1 ==> {
            let c = -((-(v.current + 1)) % (v.queue.len() as int));
            &&& only_index_moved(v, v.next_step().0, c)
            &&& c == 0 ==> v.next_step().1 == Some(v.queue[0])
            &&& c != 0 ==> v.next_step().1 is None
        },
        v.queue.len() > 0 && v.repeat == RepeatMode::Off && 0 <= v.current + 1 < v.queue.len() ==> {
            &&& only_index_moved(v, v.next_step().0, v.current + 1)
            &&& v.next_step().1 == Some(v.queue[v.current + 1])
        },
        v.queue.len() > 0 && v.repeat == RepeatMode::Off && !(0 <= v.current + 1 < v.queue.len())
            ==> v.next_step() == (v, None::<YTVideoInfo>),
{
    let len = v.queue.len() as int;
    if len > 0 && v.repeat == RepeatMode::All && v.current >= -1 {
        let n = v.current + 1;
        if n < len {
            vstd::arithmetic::div_mod::lemma_small_mod(n as nat, len as nat);
        } else if n == len {
            vstd::arithmetic::div_mod::lemma_mod_self_0(len);
        } else {
            vstd::arithmetic::div_mod::lemma_mod_self_0(len);
        }
    }
    if len > 0 && v.repeat == RepeatMode::All && v.current < -1 {
        let a = -(v.current + 1);
        assert(0 <= a % len < len);
    }
}

/// `play_previous`: an empty queue gives nothing. Repeat one plays the
/// current track again and moves nothing. Repeat all moves one back and
/// wraps from the first track (or no track yet) to the last. Repeat off
/// moves one back; at the first track (or none yet) it gives the first
/// track and does not move.
pub proof fn law_play_previous(v: QueueView)
    ensures
        v.queue.len() == 0 ==> v.previous_step() == (v, None::<YTVideoInfo>),
        v.queue.len() > 0 && v.repeat == RepeatMode::One ==> {
            &&& v.previous_step().0 == v
            &&& 0 <= v.current < v.queue.len() ==> v.previous_step().1 == Some(v.queue[v.current])
            &&& !(0 <= v.current < v.queue.len()) ==> v.previous_step().1 is None
        },
        v.queue.len() > 0 && v.repeat == RepeatMode::All && v.current <= 0 ==> {
            &&& only_index_moved(v, v.previous_step().0, v.queue.len() - 1)
            &&& v.previous_step().1 == Some(v.queue[v.queue.len() - 1])
        },
        v.queue.len() > 0 && v.repeat != RepeatMode::One && 0 < v.current <= v.queue.len() ==> {
            &&& only_index_moved(v, v.previous_step().0, v.current - 1)
            &&& v.previous_step().1 == Some(v.queue[v.current - 1])
        },
        v.queue.len() > 0 && v.repeat != RepeatMode::One && v.current > v.queue.len() ==> {
            &&& only_index_moved(v, v.previous_step().0, v.current - 1)
            &&& v.previous_step().1 is None
        },
        v.queue.len() > 0 && v.repeat == RepeatMode::Off && v.current <= 0 ==>
            v.previous_step() == (v, Some(v.queue[0])),
{
}

/// `has_next`: a non-empty queue has a next track under repeat one and
/// repeat all, and under repeat off while the current track is not the last.
/// `has_previous`: a non-empty queue whose index is not below 0.
pub proof fn law_has_next_previous(v: QueueView)
    ensures
        v.has_next() == (v.queue.len() > 0 && (v.repeat == RepeatMode::Off ==> v.current + 1 < v.queue.len())),
        v.has_previous() == (v.queue.len() > 0 && v.current >= 0),
{
}

/// `cycle_repeat_mode`: Off to All, All to One, One to Off; nothing else changes.
pub proof fn law_cycle_repeat_mode(v: QueueView)
    ensures
        v.repeat == RepeatMode::Off ==> v.repeat_cycled().repeat == RepeatMode::All,
        v.repeat == RepeatMode::All ==> v.repeat_cycled().repeat == RepeatMode::One,
        v.repeat == RepeatMode::One ==> v.repeat_cycled().repeat == RepeatMode::Off,
        v.repeat_cycled().queue == v.queue,
        v.repeat_cycled().original == v.original,
        v.repeat_cycled().current == v.current,
        v.repeat_cycled().shuffle == v.shuffle,
{
}

/// Switching shuffle on with the order `s` while a track is current: the
/// queue is `s` with positions 0 and `p` exchanged, `p` being the first
/// position in `s` of the current track's id; the index goes to 0; the old
/// order is kept.
pub proof fn law_shuffle_on_with_current(v: QueueView, s: Seq<YTVideoInfo>, p: int)
    requires
        0 <= v.current < v.queue.len(),
        0 <= p < s.len(),
        s[p].id@ == v.queue[v.current].id@,
        forall|j: int| 0 <= j < p ==> #[trigger] s[j].id@ != v.queue[v.current].id@,
    ensures
        v.shuffle_enabled(s).queue.len() == s.len(),
        v.shuffle_enabled(s).queue[0] == s[p],
        v.shuffle_enabled(s).queue[p] == s[0],
        forall|i: int| 0 <= i < s.len() && i != 0 && i != p ==> #[trigger] v.shuffle_enabled(s).queue[i] == s[i],
        v.shuffle_enabled(s).current == 0,
        v.shuffle_enabled(s).original == v.queue,
        v.shuffle_enabled(s).shuffle,
        v.shuffle_enabled(s).repeat == v.repeat,
{
    lemma_find_id_is(s, v.queue[v.current].id@, p);
}

/// Switching shuffle on with the order `s` when no track is current, or
/// when `s` lacks the current track's id: the queue is `s` as given and
/// the index stays.
pub proof fn law_shuffle_on_otherwise(v: QueueView, s: Seq<YTVideoInfo>)
    requires
        !(0 <= v.current < v.queue.len())
            || forall|j: int| 0 <= j < s.len() ==> #[trigger] s[j].id@ != v.queue[v.current].id@,
    ensures
        v.shuffle_enabled(s).queue == s,
        v.shuffle_enabled(s).current == v.current,
        v.shuffle_enabled(s).original == v.queue,
        v.shuffle_enabled(s).shuffle,
        v.shuffle_enabled(s).repeat == v.repeat,
{
    if 0 <= v.current < v.queue.len() {
        assert(!has_id(s, v.queue[v.current].id@));
    }
}

/// Switching shuffle off with a track current (at any index): the kept
/// order comes back and the index points at the first track in it with
/// the current track's id.
pub proof fn law_shuffle_off_with_current(v: QueueView, p: int)
    requires
        v.original.len() > 0,
        0 <= v.current < v.queue.len(),
        0 <= p < v.original.len(),
        v.original[p].id@ == v.queue[v.current].id@,
        forall|j: int| 0 <= j < p ==> #[trigger] v.original[j].id@ != v.queue[v.current].id@,
    ensures
        v.shuffle_disabled().queue == v.original,
        v.shuffle_disabled().current == p,
        v.shuffle_disabled().queue[p].id@ == v.queue[v.current].id@,
        !v.shuffle_disabled().shuffle,
        v.shuffle_disabled().original == v.original,
        v.shuffle_disabled().repeat == v.repeat,
{
    lemma_find_id_is(v.original, v.queue[v.current].id@, p);
}

/// Switching shuffle off otherwise: with a kept order, it comes back and
/// the index stays (no track current, or its id is not in the kept order);
/// without one, only the setting changes.
pub proof fn law_shuffle_off_otherwise(v: QueueView)
    requires
        !(0 <= v.current < v.queue.len())
            || forall|j: int| 0 <= j < v.original.len() ==> #[trigger] v.original[j].id@ != v.queue[v.current].id@,
    ensures
        v.original.len() > 0 ==> v.shuffle_disabled().queue == v.original,
        v.original.len() == 0 ==> v.shuffle_disabled().queue == v.queue,
        v.shuffle_disabled().current == v.current,
        !v.shuffle_disabled().shuffle,
        v.shuffle_disabled().original == v.original,
        v.shuffle_disabled().repeat == v.repeat,
{
    if 0 <= v.current < v.queue.len() {
        assert(!has_id(v.original, v.queue[v.current].id@));
    }
}

/// Switching shuffle off with no kept order changes only the setting.
pub proof fn law_shuffle_off_without_kept_order(v: QueueView)
    requires
        v.original.len() == 0,
    ensures
        v.shuffle_disabled().queue == v.queue,
        v.shuffle_disabled().current == v.current,
        !v.shuffle_disabled().shuffle,
{
}

/// How often `id` occurs in `s` is its count in the multiset of the ids.
pub proof fn lemma_count_id_multiset(s: Seq<YTVideoInfo>, id: Seq<char>)
    ensures
        count_id(s, id) == ids_of(s).to_multiset().count(id),
    decreases s.len(),
{
    broadcast use vstd::seq_lib::group_to_multiset_ensures;
    if s.len() == 0 {
        assert(ids_of(s) =~= Seq::<Seq<char>>::empty());
        assert(ids_of(s).to_multiset() =~= vstd::multiset::Multiset::<Seq<char>>::empty());
    } else {
        let d = s.drop_last();
        lemma_count_id_multiset(d, id);
        assert(ids_of(s) =~= ids_of(d).push(s.last().id@));
    }
}

/// `reorder_queue` accepts exactly the orders of the same length whose ids
/// form the same multiset as the queued ids.
pub proof fn law_reorder_accepted(v: QueueView, new_queue: Seq<YTVideoInfo>)
    ensures
        v.reorder_accepted(new_queue) <==> (new_queue.len() == v.queue.len()
            && ids_of(new_queue).to_multiset() == ids_of(v.queue).to_multiset()),
{
    if v.reorder_accepted(new_queue) {
        assert forall|id: Seq<char>| #[trigger] ids_of(new_queue).to_multiset().count(id)
            == ids_of(v.queue).to_multiset().count(id) by {
            lemma_count_id_multiset(new_queue, id);
            lemma_count_id_multiset(v.queue, id);
            assert(count_id(v.queue, id) == count_id(new_queue, id));
        }
        assert(ids_of(new_queue).to_multiset() =~= ids_of(v.queue).to_multiset());
    }
    if new_queue.len() == v.queue.len() && ids_of(new_queue).to_multiset() == ids_of(v.queue).to_multiset() {
        assert forall|id: Seq<char>| #[trigger] count_id(v.queue, id) == count_id(new_queue, id) by {
            lemma_count_id_multiset(new_queue, id);
            lemma_count_id_multiset(v.queue, id);
        }
    }
}

/// An accepted order replaces the queue; the index goes to the first track
/// of the new order with the current track's id.
pub proof fn law_reorder_with_current(v: QueueView, new_queue: Seq<YTVideoInfo>, p: int)
    requires
        0 <= v.current < v.queue.len(),
        0 <= p < new_queue.len(),
        new_queue[p].id@ == v.queue[v.current].id@,
        forall|j: int| 0 <= j < p ==> #[trigger] new_queue[j].id@ != v.queue[v.current].id@,
    ensures
        v.reordered(new_queue).queue == new_queue,
        v.reordered(new_queue).current == p,
        v.reordered(new_queue).original == v.original,
        v.reordered(new_queue).shuffle == v.shuffle,
        v.reordered(new_queue).repeat == v.repeat,
{
    lemma_find_id_is(new_queue, v.queue[v.current].id@, p);
}

/// With no track current, an accepted order replaces the queue and the
/// index stays.
pub proof fn law_reorder_without_current(v: QueueView, new_queue: Seq<YTVideoInfo>)
    requires
        !(0 <= v.current < v.queue.len()),
    ensures
        v.reordered(new_queue).queue == new_queue,
        v.reordered(new_queue).current == v.current,
        v.reordered(new_queue).original == v.original,
        v.reordered(new_queue).shuffle == v.shuffle,
        v.reordered(new_queue).repeat == v.repeat,
{
}

} // verus!
