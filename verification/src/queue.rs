use vstd::prelude::*;
use crate::models::{YTVideoInfo, RepeatMode, next_repeat_mode};
use crate::shuffle::shuffle_tracks;
use crate::text::{push_decimal_i64, push_decimal_u64, decimal_int, decimal_nat};

verus! {

// ---------------------------------------------------------------------
// The mathematical model of a queue
// ---------------------------------------------------------------------

/// What a `QueueManager` holds, as mathematical values.
pub struct QueueView {
    /// The tracks in playing order.
    pub queue: Seq<YTVideoInfo>,
    /// The order the queue had when shuffle was last switched on.
    pub original: Seq<YTVideoInfo>,
    /// Index of the current track; -1 when nothing has been played yet.
    /// It may lie outside the queue (see `set_current_index`).
    pub current: int,
    pub shuffle: bool,
    pub repeat: RepeatMode,
}

/// Some track of `s` has the id `id`.
pub open spec fn has_id(s: Seq<YTVideoInfo>, id: Seq<char>) -> bool {
    exists|i: int| 0 <= i < s.len() && #[trigger] s[i].id@ == id
}

/// `i` is the first position of `s` whose track has the id `id`.
pub open spec fn is_first_with_id(s: Seq<YTVideoInfo>, id: Seq<char>, i: int) -> bool {
    &&& 0 <= i < s.len()
    &&& s[i].id@ == id
    &&& forall|j: int| 0 <= j < i ==> #[trigger] s[j].id@ != id
}

/// The first position of a track with id `id` in `s`, if there is one.
pub open spec fn find_id(s: Seq<YTVideoInfo>, id: Seq<char>) -> Option<int> {
    if has_id(s, id) {
        Some(choose|i: int| is_first_with_id(s, id, i))
    } else {
        None
    }
}

/// How many tracks of `s` have the id `id`.
pub open spec fn count_id(s: Seq<YTVideoInfo>, id: Seq<char>) -> nat
    decreases s.len(),
{
    if s.len() == 0 {
        0
    } else {
        count_id(s.drop_last(), id) + if s.last().id@ == id { 1nat } else { 0nat }
    }
}

/// `a` and `b` hold the same ids, each as often as the other.
pub open spec fn same_ids(a: Seq<YTVideoInfo>, b: Seq<YTVideoInfo>) -> bool {
    forall|id: Seq<char>| #[trigger] count_id(a, id) == count_id(b, id)
}

/// No two tracks of `s` share an id.
pub open spec fn distinct_ids(s: Seq<YTVideoInfo>) -> bool {
    forall|i: int, j: int|
        0 <= i < s.len() && 0 <= j < s.len() && i != j ==> #[trigger] s[i].id@ != #[trigger] s[j].id@
}

/// The track at position `i`, if `i` lies inside `s`.
pub open spec fn track_at(s: Seq<YTVideoInfo>, i: int) -> Option<YTVideoInfo> {
    if 0 <= i < s.len() {
        Some(s[i])
    } else {
        None
    }
}

/// `s` with the elements at `i` and `j` exchanged.
pub open spec fn swap_seq(s: Seq<YTVideoInfo>, i: int, j: int) -> Seq<YTVideoInfo> {
    s.update(i, s[j]).update(j, s[i])
}

/// Remainder of Rust's `%` on integers: it takes the sign of `a`.
pub open spec fn trunc_rem(a: int, m: int) -> int {
    if a >= 0 {
        a % m
    } else {
        -((-a) % m)
    }
}

pub open spec fn fits_i32(x: int) -> bool {
    i32::MIN <= x <= i32::MAX
}

impl QueueView {
    /// The lengths fit the `i32` index the queue counts with.
    pub open spec fn wf(self) -> bool {
        &&& self.queue.len() <= i32::MAX
        &&& self.original.len() <= i32::MAX
        &&& fits_i32(self.current)
    }

    /// The current index points at a track of the queue.
    pub open spec fn has_current(self) -> bool {
        0 <= self.current < self.queue.len()
    }

    pub open spec fn current_track(self) -> Option<YTVideoInfo> {
        track_at(self.queue, self.current)
    }

    /// Appending a track; one whose id is queued already is not added again.
    pub open spec fn added(self, t: YTVideoInfo) -> QueueView {
        if has_id(self.queue, t.id@) {
            self
        } else {
            QueueView { queue: self.queue.push(t), ..self }
        }
    }

    /// Appending tracks as they come, duplicates included.
    pub open spec fn added_batch(self, ts: Seq<YTVideoInfo>) -> QueueView {
        QueueView { queue: self.queue + ts, ..self }
    }

    /// Where `insert_next` puts a track: right after the current one,
    /// at the front when nothing is current yet.
    pub open spec fn next_slot(self) -> int {
        if self.current + 1 > 0 {
            self.current + 1
        } else {
            0
        }
    }

    /// Putting a track right after the current one; a queued id is not added again.
    pub open spec fn inserted_next(self, t: YTVideoInfo) -> QueueView {
        if has_id(self.queue, t.id@) {
            self
        } else if self.next_slot() >= self.queue.len() {
            QueueView { queue: self.queue.push(t), ..self }
        } else {
            QueueView { queue: self.queue.insert(self.next_slot(), t), ..self }
        }
    }

    /// The current index after the track at `i` is taken out.
    pub open spec fn current_after_removal(self, i: int) -> int {
        if self.current == i {
            if i == self.queue.len() - 1 {
                self.current - 1
            } else {
                self.current
            }
        } else if i < self.current {
            self.current - 1
        } else {
            self.current
        }
    }

    /// Taking out the track at `i` (which lies inside the queue).
    pub open spec fn removed(self, i: int) -> QueueView {
        QueueView { queue: self.queue.remove(i), current: self.current_after_removal(i), ..self }
    }

    pub open spec fn cleared(self) -> QueueView {
        QueueView { queue: Seq::empty(), current: -1, ..self }
    }

    pub open spec fn with_current(self, i: int) -> QueueView {
        QueueView { current: i, ..self }
    }

    /// Moving on: the new state and the track to play, if any.
    pub open spec fn next_step(self) -> (QueueView, Option<YTVideoInfo>) {
        if self.queue.len() == 0 {
            (self, None)
        } else {
            match self.repeat {
                RepeatMode::One => (self, self.current_track()),
                RepeatMode::All => {
                    let c = trunc_rem(self.current + 1, self.queue.len() as int);
                    (self.with_current(c), track_at(self.queue, c))
                },
                RepeatMode::Off => {
                    let n = self.current + 1;
                    if 0 <= n < self.queue.len() {
                        (self.with_current(n), Some(self.queue[n]))
                    } else {
                        (self, None)
                    }
                },
            }
        }
    }

    /// Going back: the new state and the track to play, if any.
    pub open spec fn previous_step(self) -> (QueueView, Option<YTVideoInfo>) {
        if self.queue.len() == 0 {
            (self, None)
        } else {
            match self.repeat {
                RepeatMode::One => (self, self.current_track()),
                RepeatMode::All => {
                    let c = if self.current <= 0 {
                        self.queue.len() - 1
                    } else {
                        self.current - 1
                    };
                    (self.with_current(c), track_at(self.queue, c))
                },
                RepeatMode::Off => {
                    if self.current > 0 {
                        (self.with_current(self.current - 1), track_at(self.queue, self.current - 1))
                    } else {
                        (self, Some(self.queue[0]))
                    }
                },
            }
        }
    }

    pub open spec fn has_next(self) -> bool {
        self.queue.len() > 0 && match self.repeat {
            RepeatMode::Off => self.current + 1 < self.queue.len(),
            _ => true,
        }
    }

    pub open spec fn has_previous(self) -> bool {
        self.queue.len() > 0 && self.current >= 0
    }

    /// Switching shuffle on, given the order that chance produced:
    /// the old order is kept, the current track goes to the front.
    pub open spec fn shuffle_enabled(self, shuffled: Seq<YTVideoInfo>) -> QueueView {
        let base = QueueView { queue: shuffled, original: self.queue, shuffle: true, ..self };
        if self.has_current() {
            match find_id(shuffled, self.queue[self.current].id@) {
                Some(p) => QueueView { queue: swap_seq(shuffled, 0, p), current: 0, ..base },
                None => base,
            }
        } else {
            base
        }
    }

    /// Switching shuffle off: the kept order comes back, and the current
    /// index follows the current track into it.
    pub open spec fn shuffle_disabled(self) -> QueueView {
        if self.original.len() == 0 {
            QueueView { shuffle: false, ..self }
        } else {
            let base = QueueView { queue: self.original, shuffle: false, ..self };
            if self.has_current() {
                match find_id(self.original, self.queue[self.current].id@) {
                    Some(p) => QueueView { current: p, ..base },
                    None => base,
                }
            } else {
                base
            }
        }
    }

    pub open spec fn repeat_cycled(self) -> QueueView {
        QueueView { repeat: next_repeat_mode(self.repeat), ..self }
    }

    /// A new order is taken when it holds exactly the queued ids.
    pub open spec fn reorder_accepted(self, new_queue: Seq<YTVideoInfo>) -> bool {
        new_queue.len() == self.queue.len() && same_ids(self.queue, new_queue)
    }

    /// Taking the new order; the current index follows the current track.
    pub open spec fn reordered(self, new_queue: Seq<YTVideoInfo>) -> QueueView {
        let base = QueueView { queue: new_queue, ..self };
        if self.has_current() {
            match find_id(new_queue, self.queue[self.current].id@) {
                Some(p) => QueueView { current: p, ..base },
                None => base,
            }
        } else {
            base
        }
    }

    /// The one-line summary shown to the user.
    pub open spec fn info_text(self) -> Seq<char> {
        if self.queue.len() == 0 {
            "Queue is empty"@
        } else {
            "Track "@ + decimal_int(self.current + 1) + "/"@ + decimal_nat(self.queue.len())
                + (if self.shuffle { " • Shuffled"@ } else { ""@ })
                + match self.repeat {
                    RepeatMode::Off => ""@,
                    RepeatMode::All => " • Repeat All"@,
                    RepeatMode::One => " • Repeat One"@,
                }
        }
    }
}

// ---------------------------------------------------------------------
// Facts about ids
// ---------------------------------------------------------------------

pub proof fn lemma_first_unique(s: Seq<YTVideoInfo>, id: Seq<char>, i: int, j: int)
    requires
        is_first_with_id(s, id, i),
        is_first_with_id(s, id, j),
    ensures
        i == j,
{
    if i < j {
        assert(s[i].id@ != id);
    } else if j < i {
        assert(s[j].id@ != id);
    }
}

/// When an id occurs, `find_id` gives its first position.
pub proof fn lemma_find_id_first(s: Seq<YTVideoInfo>, id: Seq<char>)
    requires
        has_id(s, id),
    ensures
        find_id(s, id) is Some,
        is_first_with_id(s, id, find_id(s, id)->0),
    decreases s.len(),
{
    let k = choose|k: int| 0 <= k < s.len() && #[trigger] s[k].id@ == id;
    let d = s.drop_last();
    if has_id(d, id) {
        lemma_find_id_first(d, id);
        let p = find_id(d, id)->0;
        assert forall|j: int| 0 <= j < p implies #[trigger] s[j].id@ != id by {
            assert(d[j] == s[j]);
        }
        assert(s[p] == d[p]);
        assert(is_first_with_id(s, id, p));
    } else {
        if k < s.len() - 1 {
            assert(d[k].id@ == id);
        }
        assert forall|j: int| 0 <= j < s.len() - 1 implies #[trigger] s[j].id@ != id by {
            assert(d[j] == s[j]);
        }
        assert(is_first_with_id(s, id, s.len() - 1));
    }
}

/// A position holding the id and preceded by none is what `find_id` gives.
pub proof fn lemma_find_id_is(s: Seq<YTVideoInfo>, id: Seq<char>, p: int)
    requires
        is_first_with_id(s, id, p),
    ensures
        find_id(s, id) == Some(p),
{
    assert(has_id(s, id));
    lemma_find_id_first(s, id);
    lemma_first_unique(s, id, p, find_id(s, id)->0);
}

/// In a queue without repeated ids, a track's id leads back to its position.
pub proof fn lemma_find_id_distinct(s: Seq<YTVideoInfo>, i: int)
    requires
        distinct_ids(s),
        0 <= i < s.len(),
    ensures
        find_id(s, s[i].id@) == Some(i),
{
    assert forall|j: int| 0 <= j < i implies #[trigger] s[j].id@ != s[i].id@ by {}
    lemma_find_id_is(s, s[i].id@, i);
}

pub proof fn lemma_count_absent(s: Seq<YTVideoInfo>, id: Seq<char>)
    requires
        !has_id(s, id),
    ensures
        count_id(s, id) == 0,
    decreases s.len(),
{
    if s.len() > 0 {
        let d = s.drop_last();
        if has_id(d, id) {
            let k = choose|k: int| 0 <= k < d.len() && #[trigger] d[k].id@ == id;
            assert(s[k].id@ == id);
        }
        lemma_count_absent(d, id);
        assert(s[s.len() - 1].id@ != id);
    }
}

pub proof fn lemma_count_present(s: Seq<YTVideoInfo>, id: Seq<char>)
    requires
        has_id(s, id),
    ensures
        count_id(s, id) > 0,
    decreases s.len(),
{
    let k = choose|k: int| 0 <= k < s.len() && #[trigger] s[k].id@ == id;
    let d = s.drop_last();
    if k < s.len() - 1 {
        assert(d[k].id@ == id);
        lemma_count_present(d, id);
    }
}

/// A track of a sequence is counted in its multiset.
pub proof fn lemma_multiset_has_id(a: Seq<YTVideoInfo>, b: Seq<YTVideoInfo>, i: int)
    requires
        a.to_multiset() == b.to_multiset(),
        0 <= i < a.len(),
    ensures
        has_id(b, a[i].id@),
{
    broadcast use vstd::seq_lib::group_to_multiset_ensures;
    assert(a.contains(a[i]));
    assert(a.to_multiset().count(a[i]) > 0);
    assert(b.contains(a[i]));
    let k = choose|k: int| 0 <= k < b.len() && b[k] == a[i];
    assert(b[k].id@ == a[i].id@);
}

// ---------------------------------------------------------------------
// Executable helpers
// ---------------------------------------------------------------------

fn clone_tracks(v: &Vec<YTVideoInfo>) -> (res: Vec<YTVideoInfo>)
    ensures
        res@ == v@,
{
    let res = v.clone();
    assert(res@ =~= v@);
    res
}

fn contains_id(tracks: &Vec<YTVideoInfo>, id: &String) -> (res: bool)
    ensures
        res == has_id(tracks@, id@),
{
    let mut i: usize = 0;
    while i < tracks.len()
        invariant
            i <= tracks.len(),
            forall|j: int| 0 <= j < i ==> #[trigger] tracks@[j].id@ != id@,
        decreases tracks.len() - i,
    {
        if tracks[i].id == *id {
            return true;
        }
        i = i + 1;
    }
    false
}

fn position_of_id(tracks: &Vec<YTVideoInfo>, id: &String) -> (res: Option<usize>)
    ensures
        match res {
            Some(p) => find_id(tracks@, id@) == Some(p as int) && is_first_with_id(tracks@, id@, p as int),
            None => find_id(tracks@, id@) is None,
        },
{
    let mut i: usize = 0;
    while i < tracks.len()
        invariant
            i <= tracks.len(),
            forall|j: int| 0 <= j < i ==> #[trigger] tracks@[j].id@ != id@,
        decreases tracks.len() - i,
    {
        if tracks[i].id == *id {
            proof { lemma_find_id_is(tracks@, id@, i as int); }
            return Some(i);
        }
        i = i + 1;
    }
    None
}

fn count_with_id(tracks: &Vec<YTVideoInfo>, id: &String) -> (res: usize)
    ensures
        res == count_id(tracks@, id@),
{
    let mut c: usize = 0;
    let mut i: usize = 0;
    while i < tracks.len()
        invariant
            i <= tracks.len(),
            c <= i,
            c == count_id(tracks@.subrange(0, i as int), id@),
        decreases tracks.len() - i,
    {
        assert(tracks@.subrange(0, i + 1).drop_last() =~= tracks@.subrange(0, i as int));
        if tracks[i].id == *id {
            c = c + 1;
        }
        i = i + 1;
    }
    assert(tracks@.subrange(0, i as int) =~= tracks@);
    c
}

fn have_same_ids(a: &Vec<YTVideoInfo>, b: &Vec<YTVideoInfo>) -> (res: bool)
    ensures
        res == same_ids(a@, b@),
{
    let mut i: usize = 0;
    while i < a.len()
        invariant
            i <= a.len(),
            forall|k: int| 0 <= k < i ==> count_id(a@, #[trigger] a@[k].id@) == count_id(b@, a@[k].id@),
        decreases a.len() - i,
    {
        if count_with_id(a, &a[i].id) != count_with_id(b, &a[i].id) {
            return false;
        }
        i = i + 1;
    }
    let mut j: usize = 0;
    while j < b.len()
        invariant
            j <= b.len(),
            forall|k: int| 0 <= k < a.len() ==> count_id(a@, #[trigger] a@[k].id@) == count_id(b@, a@[k].id@),
            forall|k: int| 0 <= k < j ==> count_id(a@, #[trigger] b@[k].id@) == count_id(b@, b@[k].id@),
        decreases b.len() - j,
    {
        if count_with_id(a, &b[j].id) != count_with_id(b, &b[j].id) {
            return false;
        }
        j = j + 1;
    }
    assert forall|id: Seq<char>| #[trigger] count_id(a@, id) == count_id(b@, id) by {
        if has_id(a@, id) {
            let k = choose|k: int| 0 <= k < a@.len() && #[trigger] a@[k].id@ == id;
            assert(count_id(a@, a@[k].id@) == count_id(b@, a@[k].id@));
        } else if has_id(b@, id) {
            let k = choose|k: int| 0 <= k < b@.len() && #[trigger] b@[k].id@ == id;
            assert(count_id(a@, b@[k].id@) == count_id(b@, b@[k].id@));
        } else {
            lemma_count_absent(a@, id);
            lemma_count_absent(b@, id);
        }
    }
    true
}

/// Exchanges the tracks at `i` and `j`.
fn swap_tracks(v: &mut Vec<YTVideoInfo>, i: usize, j: usize)
    requires
        i < old(v)@.len(),
        j < old(v)@.len(),
    ensures
        final(v)@ == swap_seq(old(v)@, i as int, j as int),
{
    let a = v[i].clone();
    let b = v[j].clone();
    v.set(i, b);
    v.set(j, a);
}

// ---------------------------------------------------------------------
// The queue
// ---------------------------------------------------------------------

/// The play queue: the tracks, the current position in them, and the
/// shuffle and repeat settings.
pub struct QueueManager {
    queue: Vec<YTVideoInfo>,
    original_queue: Vec<YTVideoInfo>,
    current_index: i32,
    shuffle_mode: bool,
    repeat_mode: RepeatMode,
}

impl View for QueueManager {
    type V = QueueView;

    closed spec fn view(&self) -> QueueView {
        QueueView {
            queue: self.queue@,
            original: self.original_queue@,
            current: self.current_index as int,
            shuffle: self.shuffle_mode,
            repeat: self.repeat_mode,
        }
    }
}

impl QueueManager {
    /// An empty queue with nothing current, shuffle off and repeat off.
    pub fn new() -> (res: Self)
        ensures
            res@.queue.len() == 0,
            res@.original.len() == 0,
            res@.current == -1,
            !res@.shuffle,
            res@.repeat == RepeatMode::Off,
            res@.wf(),
    {
        QueueManager {
            queue: Vec::new(),
            original_queue: Vec::new(),
            current_index: -1,
            shuffle_mode: false,
            repeat_mode: RepeatMode::Off,
        }
    }

    fn track_at_index(&self, i: i32) -> (res: Option<YTVideoInfo>)
        ensures
            res == track_at(self@.queue, i as int),
    {
        if i >= 0 && (i as usize) < self.queue.len() {
            Some(self.queue[i as usize].clone())
        } else {
            None
        }
    }

    /// Appends `track` unless a track with its id is queued already.
    pub fn add_to_queue(&mut self, track: YTVideoInfo)
        requires
            old(self)@.wf(),
            !has_id(old(self)@.queue, track.id@) ==> old(self)@.queue.len() < i32::MAX,
        ensures
            final(self)@ == old(self)@.added(track),
            final(self)@.wf(),
    {
        if contains_id(&self.queue, &track.id) {
            return;
        }
        self.queue.push(track);
    }

    /// Appends all `tracks`, without looking for duplicates.
    pub fn add_to_queue_batch(&mut self, tracks: Vec<YTVideoInfo>)
        requires
            old(self)@.wf(),
            old(self)@.queue.len() + tracks@.len() <= i32::MAX,
        ensures
            final(self)@ == old(self)@.added_batch(tracks@),
            final(self)@.wf(),
    {
        let mut tracks = tracks;
        self.queue.append(&mut tracks);
    }

    /// Puts `track` right after the current track, unless its id is queued already.
    pub fn insert_next(&mut self, track: YTVideoInfo)
        requires
            old(self)@.wf(),
            !has_id(old(self)@.queue, track.id@) ==> old(self)@.queue.len() < i32::MAX
                && old(self)@.current < i32::MAX,
        ensures
            final(self)@ == old(self)@.inserted_next(track),
            final(self)@.wf(),
    {
        if contains_id(&self.queue, &track.id) {
            return;
        }
        let next = self.current_index + 1;
        let insert_index: usize = if next > 0 { next as usize } else { 0 };
        if insert_index >= self.queue.len() {
            self.queue.push(track);
        } else {
            self.queue.insert(insert_index, track);
        }
    }

    /// Takes out the track at `index`; the current index keeps pointing at
    /// the current track, or at the one that slides into its place.
    pub fn remove_from_queue(&mut self, index: usize) -> (res: Result<(), String>)
        requires
            old(self)@.wf(),
        ensures
            res is Ok <==> index < old(self)@.queue.len(),
            res is Ok ==> final(self)@ == old(self)@.removed(index as int),
            res matches Err(e) ==> final(self)@ == old(self)@ && e@ == "Invalid queue index"@,
            final(self)@.wf(),
    {
        if index >= self.queue.len() {
            return Err(String::from_str("Invalid queue index"));
        }
        let idx = index as i32;
        if self.current_index == idx {
            if index == self.queue.len() - 1 {
                self.current_index = self.current_index - 1;
            }
        } else if idx < self.current_index {
            self.current_index = self.current_index - 1;
        }
        self.queue.remove(index);
        Ok(())
    }

    /// Empties the queue and forgets the current track.
    pub fn clear_queue(&mut self)
        requires
            old(self)@.wf(),
        ensures
            final(self)@ == old(self)@.cleared(),
            final(self)@.wf(),
    {
        self.queue.clear();
        self.current_index = -1;
    }

    /// Makes the track at `index` current and returns it.
    pub fn play_track_at(&mut self, index: usize) -> (res: Option<YTVideoInfo>)
        requires
            old(self)@.wf(),
        ensures
            index >= old(self)@.queue.len() ==> res is None && final(self)@ == old(self)@,
            index < old(self)@.queue.len() ==> res == Some(old(self)@.queue[index as int])
                && final(self)@ == old(self)@.with_current(index as int),
            final(self)@.wf(),
    {
        if index >= self.queue.len() {
            return None;
        }
        self.current_index = index as i32;
        Some(self.queue[index].clone())
    }

    /// Moves to the next track as the repeat mode says, and returns it.
    pub fn play_next(&mut self) -> (res: Option<YTVideoInfo>)
        requires
            old(self)@.wf(),
            old(self)@.queue.len() > 0 && old(self)@.repeat != RepeatMode::One
                ==> old(self)@.current < i32::MAX,
        ensures
            (final(self)@, res) == old(self)@.next_step(),
            final(self)@.wf(),
    {
        if self.queue.len() == 0 {
            return None;
        }
        match self.repeat_mode {
            RepeatMode::One => self.track_at_index(self.current_index),
            RepeatMode::All => {
                let n = self.current_index + 1;
                let len = self.queue.len() as i32;
                let c: i32 = if n >= 0 {
                    ((n as u32) % (len as u32)) as i32
                } else {
                    -((((-n) as u32) % (len as u32)) as i32)
                };
                self.current_index = c;
                self.track_at_index(c)
            },
            RepeatMode::Off => {
                let n = self.current_index + 1;
                if n >= 0 && (n as usize) < self.queue.len() {
                    self.current_index = n;
                    self.track_at_index(n)
                } else {
                    None
                }
            },
        }
    }

    /// Moves to the previous track as the repeat mode says, and returns it.
    pub fn play_previous(&mut self) -> (res: Option<YTVideoInfo>)
        requires
            old(self)@.wf(),
        ensures
            (final(self)@, res) == old(self)@.previous_step(),
            final(self)@.wf(),
    {
        if self.queue.len() == 0 {
            return None;
        }
        match self.repeat_mode {
            RepeatMode::One => self.track_at_index(self.current_index),
            RepeatMode::All => {
                let c: i32 = if self.current_index <= 0 {
                    self.queue.len() as i32 - 1
                } else {
                    self.current_index - 1
                };
                self.current_index = c;
                self.track_at_index(c)
            },
            RepeatMode::Off => {
                if self.current_index > 0 {
                    self.current_index = self.current_index - 1;
                    self.track_at_index(self.current_index)
                } else {
                    Some(self.queue[0].clone())
                }
            },
        }
    }

    /// Whether `play_next` has somewhere to go.
    pub fn has_next(&self) -> (res: bool)
        requires
            self@.wf(),
            self@.queue.len() > 0 && self@.repeat == RepeatMode::Off ==> self@.current < i32::MAX,
        ensures
            res == self@.has_next(),
    {
        if self.queue.len() == 0 {
            return false;
        }
        match self.repeat_mode {
            RepeatMode::One | RepeatMode::All => true,
            RepeatMode::Off => self.current_index + 1 < self.queue.len() as i32,
        }
    }

    /// Whether a track has been played from a non-empty queue.
    pub fn has_previous(&self) -> (res: bool)
        ensures
            res == self@.has_previous(),
    {
        self.queue.len() != 0 && self.current_index >= 0
    }

    /// Switches shuffle on with the given order of the queue: the old order
    /// is kept to come back to, and the current track is moved to the front.
    pub fn apply_shuffle(&mut self, shuffled: Vec<YTVideoInfo>)
        requires
            old(self)@.wf(),
            shuffled@.len() <= i32::MAX,
        ensures
            final(self)@ == old(self)@.shuffle_enabled(shuffled@),
            final(self)@.wf(),
    {
        let current_track = self.track_at_index(self.current_index);
        self.shuffle_mode = true;
        self.original_queue = clone_tracks(&self.queue);
        self.queue = shuffled;
        if let Some(track) = current_track {
            if let Some(pos) = position_of_id(&self.queue, &track.id) {
                swap_tracks(&mut self.queue, 0, pos);
                self.current_index = 0;
            }
        }
    }

    /// Switches shuffle off: the order kept when it was switched on comes
    /// back (if one was kept), and the current index follows the current track.
    pub fn restore_order(&mut self)
        requires
            old(self)@.wf(),
        ensures
            final(self)@ == old(self)@.shuffle_disabled(),
            final(self)@.wf(),
    {
        self.shuffle_mode = false;
        if self.original_queue.len() != 0 {
            let current_track = self.track_at_index(self.current_index);
            self.queue = clone_tracks(&self.original_queue);
            if let Some(track) = current_track {
                if let Some(pos) = position_of_id(&self.queue, &track.id) {
                    self.current_index = pos as i32;
                }
            }
        }
    }

    /// Switches shuffle on (putting the queue in a random order) or off
    /// (restoring the order it had), and returns the new setting.
    pub fn toggle_shuffle(&mut self) -> (res: bool)
        requires
            old(self)@.wf(),
        ensures
            res == final(self)@.shuffle,
            res == !old(self)@.shuffle,
            old(self)@.shuffle ==> final(self)@ == old(self)@.shuffle_disabled(),
            !old(self)@.shuffle ==> exists|s: Seq<YTVideoInfo>|
                s.to_multiset() == old(self)@.queue.to_multiset()
                && #[trigger] old(self)@.shuffle_enabled(s) == final(self)@,
            final(self)@.wf(),
    {
        if self.shuffle_mode {
            self.restore_order();
        } else {
            let mut shuffled = clone_tracks(&self.queue);
            shuffle_tracks(&mut shuffled);
            let ghost s = shuffled@;
            self.apply_shuffle(shuffled);
            assert(old(self)@.shuffle_enabled(s) == self@);
        }
        self.shuffle_mode
    }

    /// Moves the repeat mode on (Off, All, One, Off, ...) and returns it.
    pub fn cycle_repeat_mode(&mut self) -> (res: RepeatMode)
        ensures
            final(self)@ == old(self)@.repeat_cycled(),
            res == final(self)@.repeat,
    {
        self.repeat_mode = self.repeat_mode.cycle();
        self.repeat_mode
    }

    /// Number of queued tracks.
    pub fn len(&self) -> (res: usize)
        ensures
            res == self@.queue.len(),
    {
        self.queue.len()
    }

    /// Whether a track with this id is queued.
    pub fn has_track(&self, id: &String) -> (res: bool)
        ensures
            res == has_id(self@.queue, id@),
    {
        contains_id(&self.queue, id)
    }

    pub fn get_shuffle_mode(&self) -> (res: bool)
        ensures
            res == self@.shuffle,
    {
        self.shuffle_mode
    }

    pub fn get_repeat_mode(&self) -> (res: RepeatMode)
        ensures
            res == self@.repeat,
    {
        self.repeat_mode
    }

    pub fn get_queue(&self) -> (res: Vec<YTVideoInfo>)
        ensures
            res@ == self@.queue,
    {
        clone_tracks(&self.queue)
    }

    pub fn get_current_index(&self) -> (res: i32)
        ensures
            res as int == self@.current,
    {
        self.current_index
    }

    /// A line such as "Track 2/5 • Shuffled • Repeat All".
    pub fn get_queue_info(&self) -> (res: String)
        requires
            self@.queue.len() > 0 ==> self@.current < i32::MAX,
            self@.wf(),
        ensures
            res@ == self@.info_text(),
    {
        if self.queue.len() == 0 {
            return String::from_str("Queue is empty");
        }
        let mut s = String::from_str("Track ");
        let shown = self.current_index + 1;
        push_decimal_i64(&mut s, shown as i64);
        s.append("/");
        push_decimal_u64(&mut s, self.queue.len() as u64);
        if self.shuffle_mode {
            s.append(" • Shuffled");
        } else {
            s.append("");
        }
        match self.repeat_mode {
            RepeatMode::Off => s.append(""),
            RepeatMode::All => s.append(" • Repeat All"),
            RepeatMode::One => s.append(" • Repeat One"),
        }
        s
    }

    /// Sets the current index to any value; nothing is checked.
    pub fn set_current_index(&mut self, index: i32)
        ensures
            final(self)@ == old(self)@.with_current(index as int),
    {
        self.current_index = index;
    }

    /// Takes `new_queue` as the new order if it holds exactly the queued
    /// tracks' ids; the current index follows the current track.
    pub fn reorder_queue(&mut self, new_queue: Vec<YTVideoInfo>) -> (res: Result<(), String>)
        requires
            old(self)@.wf(),
        ensures
            res is Ok <==> old(self)@.reorder_accepted(new_queue@),
            res is Ok ==> final(self)@ == old(self)@.reordered(new_queue@),
            res matches Err(e) ==> final(self)@ == old(self)@ && (
                if new_queue@.len() != old(self)@.queue.len() {
                    e@ == "New queue length doesn't match current queue"@
                } else {
                    e@ == "New queue items do not match current queue"@
                }),
            final(self)@.wf(),
    {
        if new_queue.len() != self.queue.len() {
            return Err(String::from_str("New queue length doesn't match current queue"));
        }
        if !have_same_ids(&self.queue, &new_queue) {
            return Err(String::from_str("New queue items do not match current queue"));
        }
        let current_track = self.track_at_index(self.current_index);
        self.queue = new_queue;
        if let Some(track) = current_track {
            if let Some(pos) = position_of_id(&self.queue, &track.id) {
                self.current_index = pos as i32;
            }
        }
        Ok(())
    }
}
} // verus!
