use vstd::prelude::*;
use crate::models::{YTVideoInfo, RepeatMode};
use crate::queue::{
    QueueView, has_id, distinct_ids, trunc_rem, find_id, swap_seq, count_id, same_ids,
    lemma_find_id_first, lemma_find_id_distinct, lemma_multiset_has_id, lemma_count_present,
    lemma_count_absent,
};

verus! {

/// Adding a track, or inserting it to play next, never repeats an id:
/// a queue without repeated ids keeps that property.
pub proof fn lemma_add_keeps_ids_distinct(v: QueueView, t: YTVideoInfo)
    requires
        distinct_ids(v.queue),
    ensures
        distinct_ids(v.added(t).queue),
        distinct_ids(v.inserted_next(t).queue),
{
    if !has_id(v.queue, t.id@) {
        let a = v.queue.push(t);
        assert forall|i: int, j: int|
            0 <= i < a.len() && 0 <= j < a.len() && i != j implies #[trigger] a[i].id@ != #[trigger] a[j].id@ by {
            if i == a.len() - 1 {
                assert(v.queue[j].id@ != t.id@);
            } else if j == a.len() - 1 {
                assert(v.queue[i].id@ != t.id@);
            }
        }
        if v.next_slot() < v.queue.len() {
            let k = v.next_slot();
            let b = v.queue.insert(k, t);
            assert forall|i: int, j: int|
                0 <= i < b.len() && 0 <= j < b.len() && i != j implies #[trigger] b[i].id@ != #[trigger] b[j].id@ by {
                let oi = if i < k { i } else { i - 1 };
                let oj = if j < k { j } else { j - 1 };
                if i == k {
                    assert(b[j] == v.queue[oj]);
                    assert(v.queue[oj].id@ != t.id@);
                } else if j == k {
                    assert(b[i] == v.queue[oi]);
                    assert(v.queue[oi].id@ != t.id@);
                } else {
                    assert(b[i] == v.queue[oi]);
                    assert(b[j] == v.queue[oj]);
                }
            }
        }
    }
}

/// Adding the same track twice has the effect of adding it once.
pub proof fn lemma_add_idempotent(v: QueueView, t: YTVideoInfo)
    ensures
        v.added(t).added(t) == v.added(t),
{
    if !has_id(v.queue, t.id@) {
        let a = v.added(t);
        assert(a.queue[a.queue.len() - 1] == t);
        assert(has_id(a.queue, t.id@));
    }
}

/// Two adds of tracks with the same new id, one after the other (as the
/// shared queue's lock runs them), append exactly the first track.
pub proof fn lemma_two_adds_same_id(v: QueueView, t1: YTVideoInfo, t2: YTVideoInfo)
    requires
        !has_id(v.queue, t1.id@),
        t1.id@ == t2.id@,
    ensures
        v.added(t1).added(t2) == (QueueView { queue: v.queue.push(t1), ..v }),
{
    let a = v.added(t1);
    assert(a.queue[a.queue.len() - 1] == t1);
    assert(has_id(a.queue, t2.id@));
}

/// Removing a track other than the current one keeps the same track current.
pub proof fn lemma_remove_other_keeps_current_track(v: QueueView, i: int)
    requires
        v.has_current(),
        0 <= i < v.queue.len(),
        i != v.current,
    ensures
        v.removed(i).has_current(),
        v.removed(i).queue[v.removed(i).current] == v.queue[v.current],
{
}

/// Removing the current track makes the following one current; when the
/// current track was the last, the one before it becomes current.
pub proof fn lemma_remove_current(v: QueueView)
    requires
        v.has_current(),
    ensures
        v.current < v.queue.len() - 1 ==> v.removed(v.current).current == v.current
            && v.removed(v.current).queue[v.current] == v.queue[v.current + 1],
        v.current == v.queue.len() - 1 ==> v.removed(v.current).current == v.current - 1,
{
}

/// Removal keeps the current index within the queue, or at -1.
pub proof fn lemma_remove_keeps_index_in_range(v: QueueView, i: int)
    requires
        -1 <= v.current < v.queue.len(),
        0 <= i < v.queue.len(),
    ensures
        -1 <= v.removed(i).current < v.removed(i).queue.len(),
{
}

/// After the queue is cleared there is nothing to go to either way.
pub proof fn lemma_cleared_has_nothing(v: QueueView)
    ensures
        !v.cleared().has_next(),
        !v.cleared().has_previous(),
        v.cleared().next_step().1 is None,
        v.cleared().previous_step().1 is None,
        v.cleared().queue.len() == 0,
        v.cleared().current == -1,
{
}

/// `has_next` answers whether `play_next` will return a track, for every
/// current index from -1 on (in repeat-one mode: when a track is current).
pub proof fn lemma_has_next_matches_next_step(v: QueueView)
    requires
        v.current >= -1,
        v.repeat == RepeatMode::One ==> v.has_current(),
    ensures
        v.has_next() == (v.next_step().1 is Some),
{
}

/// With repeat all, going forward and then back returns to the same track.
pub proof fn lemma_next_then_previous_repeat_all(v: QueueView)
    requires
        v.has_current(),
        v.repeat == RepeatMode::All,
    ensures
        v.next_step().0.previous_step().0 == v,
        v.next_step().0.previous_step().1 == Some(v.queue[v.current]),
{
    let len = v.queue.len() as int;
    let n = v.current + 1;
    if n < len {
        vstd::arithmetic::div_mod::lemma_small_mod(n as nat, len as nat);
        assert(trunc_rem(n, len) == n);
    } else {
        vstd::arithmetic::div_mod::lemma_mod_self_0(len);
        assert(trunc_rem(n, len) == 0);
    }
}

/// With repeat off, going forward (when there is a next track) and then
/// back returns to the same track.
pub proof fn lemma_next_then_previous_repeat_off(v: QueueView)
    requires
        v.has_current(),
        v.current + 1 < v.queue.len(),
        v.repeat == RepeatMode::Off,
    ensures
        v.next_step().0.previous_step().0 == v,
        v.next_step().0.previous_step().1 == Some(v.queue[v.current]),
{
}

/// Cycling the repeat mode three times leaves the queue as it was.
pub proof fn lemma_repeat_cycle_returns(v: QueueView)
    ensures
        v.repeat_cycled().repeat_cycled().repeat_cycled() == v,
{
    crate::models::lemma_cycle_three_times(v.repeat);
}

/// Replacing one element of a sequence replaces it in the multiset.
pub proof fn lemma_update_multiset(s: Seq<YTVideoInfo>, i: int, x: YTVideoInfo)
    requires
        0 <= i < s.len(),
    ensures
        s.update(i, x).to_multiset() =~= s.to_multiset().remove(s[i]).insert(x),
{
    broadcast use vstd::seq_lib::group_to_multiset_ensures;
    let u = s.update(i, x);
    assert(u.remove(i) =~= s.remove(i));
    assert(u.to_multiset().remove(x) =~= s.to_multiset().remove(s[i]));
    assert(u.contains(x)) by { assert(u[i] == x); }
    assert(u.to_multiset().count(x) > 0);
    assert forall|y: YTVideoInfo| #[trigger] u.to_multiset().count(y)
        == s.to_multiset().remove(s[i]).insert(x).count(y) by {
        assert(u.to_multiset().remove(x).count(y) == s.to_multiset().remove(s[i]).count(y));
    }
}

/// Exchanging two elements keeps the multiset.
pub proof fn lemma_swap_multiset(s: Seq<YTVideoInfo>, i: int, j: int)
    requires
        0 <= i < s.len(),
        0 <= j < s.len(),
    ensures
        swap_seq(s, i, j).to_multiset() =~= s.to_multiset(),
{
    broadcast use vstd::seq_lib::group_to_multiset_ensures;
    let s1 = s.update(i, s[j]);
    lemma_update_multiset(s, i, s[j]);
    lemma_update_multiset(s1, j, s[i]);
    if i == j {
        assert(swap_seq(s, i, j) =~= s);
    } else {
        assert(s1[j] == s[j]);
        assert(s.to_multiset().count(s[i]) > 0) by { assert(s.contains(s[i])); }
        assert(s1.to_multiset().count(s[j]) > 0) by { assert(s1.contains(s[j])); assert(s1[i] == s[j]); }
        assert forall|y: YTVideoInfo| #[trigger] swap_seq(s, i, j).to_multiset().count(y)
            == s.to_multiset().count(y) by {}
    }
}

/// Switching shuffle on, with any order that holds the same tracks:
/// the queue still holds the same tracks, the old order is kept, and the
/// current track is moved to the front and stays current.
pub proof fn lemma_shuffle_enabled_keeps_tracks(v: QueueView, s: Seq<YTVideoInfo>)
    requires
        s.to_multiset() == v.queue.to_multiset(),
    ensures
        v.shuffle_enabled(s).queue.to_multiset() == v.queue.to_multiset(),
        v.shuffle_enabled(s).original == v.queue,
        v.shuffle_enabled(s).shuffle,
        v.has_current() ==> v.shuffle_enabled(s).current == 0
            && v.shuffle_enabled(s).queue[0].id@ == v.queue[v.current].id@,
{
    broadcast use vstd::seq_lib::group_to_multiset_ensures;
    vstd::seq_lib::to_multiset_len(s);
    vstd::seq_lib::to_multiset_len(v.queue);
    assert(s.len() == v.queue.len());
    if v.has_current() {
        let id = v.queue[v.current].id@;
        lemma_multiset_has_id(v.queue, s, v.current);
        lemma_find_id_first(s, id);
        let p = find_id(s, id)->0;
        lemma_swap_multiset(s, 0, p);
    }
}

/// Switching shuffle on and then off again restores the queue, the current
/// index and the shuffle setting (for queues without repeated ids; with
/// repeats, the index can move to the first track that shares the id).
pub proof fn lemma_shuffle_round_trip(v: QueueView, s: Seq<YTVideoInfo>)
    requires
        !v.shuffle,
        s.to_multiset() == v.queue.to_multiset(),
        distinct_ids(v.queue),
    ensures
        v.shuffle_enabled(s).shuffle_disabled().queue == v.queue,
        v.shuffle_enabled(s).shuffle_disabled().current == v.current,
        v.shuffle_enabled(s).shuffle_disabled().shuffle == v.shuffle,
        v.shuffle_enabled(s).shuffle_disabled().repeat == v.repeat,
{
    broadcast use vstd::seq_lib::group_to_multiset_ensures;
    vstd::seq_lib::to_multiset_len(s);
    vstd::seq_lib::to_multiset_len(v.queue);
    assert(s.len() == v.queue.len());
    lemma_shuffle_enabled_keeps_tracks(v, s);
    let e = v.shuffle_enabled(s);
    if v.queue.len() == 0 {
        assert(s =~= v.queue);
    } else if v.has_current() {
        assert(e.has_current());
        assert(e.queue[e.current].id@ == v.queue[v.current].id@);
        lemma_find_id_distinct(v.queue, v.current);
        assert(e.original == v.queue);
    } else {
        assert(e.queue == s);
        assert(e.current == v.current);
        assert(!e.has_current());
    }
}

/// A new order that holds the same ids keeps the same track current.
pub proof fn lemma_reorder_keeps_current_track(v: QueueView, new_queue: Seq<YTVideoInfo>)
    requires
        v.has_current(),
        v.reorder_accepted(new_queue),
    ensures
        v.reordered(new_queue).has_current(),
        v.reordered(new_queue).queue == new_queue,
        v.reordered(new_queue).queue[v.reordered(new_queue).current].id@ == v.queue[v.current].id@,
{
    let id = v.queue[v.current].id@;
    assert(has_id(v.queue, id));
    lemma_count_present(v.queue, id);
    assert(count_id(new_queue, id) == count_id(v.queue, id));
    if !has_id(new_queue, id) {
        lemma_count_absent(new_queue, id);
    }
    lemma_find_id_first(new_queue, id);
}

} // verus!
