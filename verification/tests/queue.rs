use ytplayer::models::{RepeatMode, YTVideoInfo};
use ytplayer::queue::QueueManager;

fn track(id: &str) -> YTVideoInfo {
    YTVideoInfo { id: id.to_string(), title: format!("Title {}", id), duration: 180 }
}

fn ids(q: &QueueManager) -> Vec<String> {
    q.get_queue().iter().map(|t| t.id.clone()).collect()
}

fn queue_of(list: &[&str]) -> QueueManager {
    let mut q = QueueManager::new();
    for id in list {
        q.add_to_queue(track(id));
    }
    q
}

#[test]
fn new_queue_is_empty() {
    let q = QueueManager::new();
    assert!(q.get_queue().is_empty());
    assert_eq!(q.get_current_index(), -1);
    assert!(!q.get_shuffle_mode());
    assert_eq!(q.get_repeat_mode(), RepeatMode::Off);
    assert_eq!(q.get_queue_info(), "Queue is empty");
    assert!(!q.has_next());
    assert!(!q.has_previous());
}

#[test]
fn add_to_queue_skips_known_ids() {
    let mut q = queue_of(&["a", "b"]);
    q.add_to_queue(track("a"));
    assert_eq!(ids(&q), vec!["a", "b"]);
    q.add_to_queue(track("c"));
    assert_eq!(ids(&q), vec!["a", "b", "c"]);
}

#[test]
fn add_to_queue_twice_is_adding_once() {
    let mut once = QueueManager::new();
    once.add_to_queue(track("x"));
    let mut twice = QueueManager::new();
    twice.add_to_queue(track("x"));
    twice.add_to_queue(track("x"));
    assert_eq!(ids(&once), ids(&twice));
}

#[test]
fn add_to_queue_batch_keeps_duplicates() {
    let mut q = queue_of(&["a"]);
    q.add_to_queue_batch(vec![track("a"), track("b"), track("b")]);
    assert_eq!(ids(&q), vec!["a", "a", "b", "b"]);
}

#[test]
fn insert_next_goes_after_current() {
    let mut q = queue_of(&["a", "b", "c"]);
    q.play_track_at(0);
    q.insert_next(track("d"));
    assert_eq!(ids(&q), vec!["a", "d", "b", "c"]);
    assert_eq!(q.get_current_index(), 0);
}

#[test]
fn insert_next_without_current_goes_first() {
    let mut q = queue_of(&["a", "b"]);
    q.insert_next(track("z"));
    assert_eq!(ids(&q), vec!["z", "a", "b"]);
}

#[test]
fn insert_next_after_last_appends() {
    let mut q = queue_of(&["a", "b"]);
    q.play_track_at(1);
    q.insert_next(track("z"));
    assert_eq!(ids(&q), vec!["a", "b", "z"]);
}

#[test]
fn insert_next_skips_known_ids() {
    let mut q = queue_of(&["a", "b"]);
    q.play_track_at(0);
    q.insert_next(track("b"));
    assert_eq!(ids(&q), vec!["a", "b"]);
}

#[test]
fn remove_from_queue_rejects_bad_index() {
    let mut q = queue_of(&["a", "b"]);
    assert_eq!(q.remove_from_queue(2), Err("Invalid queue index".to_string()));
    assert_eq!(ids(&q), vec!["a", "b"]);
}

#[test]
fn remove_before_current_keeps_current_track() {
    let mut q = queue_of(&["a", "b", "c"]);
    q.play_track_at(2);
    assert_eq!(q.remove_from_queue(0), Ok(()));
    assert_eq!(ids(&q), vec!["b", "c"]);
    assert_eq!(q.get_current_index(), 1);
    assert_eq!(q.get_queue()[1].id, "c");
}

#[test]
fn remove_after_current_keeps_index() {
    let mut q = queue_of(&["a", "b", "c"]);
    q.play_track_at(0);
    assert_eq!(q.remove_from_queue(2), Ok(()));
    assert_eq!(q.get_current_index(), 0);
    assert_eq!(ids(&q), vec!["a", "b"]);
}

#[test]
fn remove_current_makes_next_current() {
    let mut q = queue_of(&["a", "b", "c"]);
    q.play_track_at(1);
    assert_eq!(q.remove_from_queue(1), Ok(()));
    assert_eq!(q.get_current_index(), 1);
    assert_eq!(q.get_queue()[1].id, "c");
}

#[test]
fn remove_current_last_steps_back() {
    let mut q = queue_of(&["a", "b", "c"]);
    q.play_track_at(2);
    assert_eq!(q.remove_from_queue(2), Ok(()));
    assert_eq!(q.get_current_index(), 1);
    let mut single = queue_of(&["a"]);
    single.play_track_at(0);
    assert_eq!(single.remove_from_queue(0), Ok(()));
    assert_eq!(single.get_current_index(), -1);
}

#[test]
fn clear_queue_leaves_nothing_to_play() {
    let mut q = queue_of(&["a", "b"]);
    q.play_track_at(1);
    q.clear_queue();
    assert!(q.get_queue().is_empty());
    assert_eq!(q.get_current_index(), -1);
    assert!(!q.has_next());
    assert!(!q.has_previous());
    assert!(q.play_next().is_none());
    assert!(q.play_previous().is_none());
}

#[test]
fn play_track_at_sets_current() {
    let mut q = queue_of(&["a", "b"]);
    assert_eq!(q.play_track_at(1).map(|t| t.id), Some("b".to_string()));
    assert_eq!(q.get_current_index(), 1);
    assert!(q.play_track_at(2).is_none());
    assert_eq!(q.get_current_index(), 1);
}

#[test]
fn play_next_repeat_off_stops_at_end() {
    let mut q = queue_of(&["a", "b"]);
    assert_eq!(q.play_next().map(|t| t.id), Some("a".to_string()));
    assert_eq!(q.play_next().map(|t| t.id), Some("b".to_string()));
    assert!(!q.has_next());
    assert!(q.play_next().is_none());
    assert_eq!(q.get_current_index(), 1);
}

#[test]
fn play_next_repeat_all_wraps() {
    let mut q = queue_of(&["a", "b"]);
    q.cycle_repeat_mode();
    q.play_track_at(1);
    assert_eq!(q.play_next().map(|t| t.id), Some("a".to_string()));
    assert_eq!(q.get_current_index(), 0);
}

#[test]
fn play_next_repeat_all_below_minus_one_keeps_sign() {
    let mut q = queue_of(&["a", "b", "c"]);
    q.cycle_repeat_mode();
    q.set_current_index(-5);
    assert!(q.has_next());
    assert!(q.play_next().is_none());
    assert_eq!(q.get_current_index(), -1);
}

#[test]
fn play_next_repeat_one_repeats_current() {
    let mut q = queue_of(&["a", "b"]);
    q.cycle_repeat_mode();
    q.cycle_repeat_mode();
    assert_eq!(q.get_repeat_mode(), RepeatMode::One);
    assert!(q.play_next().is_none());
    q.play_track_at(1);
    assert_eq!(q.play_next().map(|t| t.id), Some("b".to_string()));
    assert_eq!(q.play_previous().map(|t| t.id), Some("b".to_string()));
    assert_eq!(q.get_current_index(), 1);
}

#[test]
fn play_previous_repeat_all_wraps_to_end() {
    let mut q = queue_of(&["a", "b", "c"]);
    q.cycle_repeat_mode();
    q.play_track_at(0);
    assert_eq!(q.play_previous().map(|t| t.id), Some("c".to_string()));
    assert_eq!(q.get_current_index(), 2);
    let mut fresh = queue_of(&["a", "b", "c"]);
    fresh.cycle_repeat_mode();
    assert_eq!(fresh.play_previous().map(|t| t.id), Some("c".to_string()));
}

#[test]
fn play_previous_repeat_off_stays_at_start() {
    let mut q = queue_of(&["a", "b"]);
    q.play_track_at(1);
    assert_eq!(q.play_previous().map(|t| t.id), Some("a".to_string()));
    assert_eq!(q.get_current_index(), 0);
    assert_eq!(q.play_previous().map(|t| t.id), Some("a".to_string()));
    assert_eq!(q.get_current_index(), 0);
}

#[test]
fn next_then_previous_returns_to_track() {
    for mode_steps in 0..2 {
        for start in 0..3usize {
            let mut q = queue_of(&["a", "b", "c"]);
            for _ in 0..mode_steps {
                q.cycle_repeat_mode();
            }
            q.play_track_at(start);
            if q.get_repeat_mode() == RepeatMode::Off && start == 2 {
                continue;
            }
            q.play_next();
            let back = q.play_previous().map(|t| t.id);
            assert_eq!(q.get_current_index(), start as i32);
            assert_eq!(back, Some(["a", "b", "c"][start].to_string()));
        }
    }
}

#[test]
fn has_next_matches_play_next() {
    for mode_steps in 0..2 {
        for start in -1..3i32 {
            let mut q = queue_of(&["a", "b", "c"]);
            for _ in 0..mode_steps {
                q.cycle_repeat_mode();
            }
            q.set_current_index(start);
            let said = q.has_next();
            assert_eq!(said, q.play_next().is_some());
        }
    }
}

#[test]
fn has_previous_needs_a_played_track() {
    let mut q = queue_of(&["a"]);
    assert!(!q.has_previous());
    q.play_track_at(0);
    assert!(q.has_previous());
}

#[test]
fn cycle_repeat_mode_goes_round() {
    let mut q = QueueManager::new();
    assert_eq!(q.cycle_repeat_mode(), RepeatMode::All);
    assert_eq!(q.cycle_repeat_mode(), RepeatMode::One);
    assert_eq!(q.cycle_repeat_mode(), RepeatMode::Off);
    assert_eq!(RepeatMode::All.as_str(), "all");
    assert_eq!(RepeatMode::One.cycle(), RepeatMode::Off);
}

#[test]
fn queue_info_text() {
    let mut q = queue_of(&["a", "b", "c"]);
    assert_eq!(q.get_queue_info(), "Track 0/3");
    q.play_track_at(1);
    q.cycle_repeat_mode();
    assert_eq!(q.get_queue_info(), "Track 2/3 • Repeat All");
    q.cycle_repeat_mode();
    q.toggle_shuffle();
    assert_eq!(q.get_queue_info(), "Track 1/3 • Shuffled • Repeat One");
    q.set_current_index(-12);
    assert_eq!(q.get_queue_info(), "Track -11/3 • Shuffled • Repeat One");
}

#[test]
fn reorder_rejects_other_length() {
    let mut q = queue_of(&["a", "b"]);
    assert_eq!(
        q.reorder_queue(vec![track("a")]),
        Err("New queue length doesn't match current queue".to_string())
    );
    assert_eq!(ids(&q), vec!["a", "b"]);
}

#[test]
fn reorder_rejects_other_tracks() {
    let mut q = queue_of(&["a", "b"]);
    assert_eq!(
        q.reorder_queue(vec![track("a"), track("a")]),
        Err("New queue items do not match current queue".to_string())
    );
    assert_eq!(ids(&q), vec!["a", "b"]);
}

#[test]
fn reorder_follows_current_track() {
    let mut q = queue_of(&["a", "b", "c"]);
    q.play_track_at(0);
    assert_eq!(q.reorder_queue(vec![track("c"), track("b"), track("a")]), Ok(()));
    assert_eq!(ids(&q), vec!["c", "b", "a"]);
    assert_eq!(q.get_current_index(), 2);
}

#[test]
fn reorder_counts_repeated_ids() {
    let mut q = QueueManager::new();
    q.add_to_queue_batch(vec![track("a"), track("a"), track("b")]);
    assert_eq!(q.reorder_queue(vec![track("b"), track("a"), track("a")]), Ok(()));
    assert_eq!(ids(&q), vec!["b", "a", "a"]);
    assert!(q.reorder_queue(vec![track("b"), track("b"), track("a")]).is_err());
}

#[test]
fn apply_shuffle_moves_current_to_front() {
    let mut q = queue_of(&["a", "b", "c"]);
    q.play_track_at(1);
    q.apply_shuffle(vec![track("c"), track("a"), track("b")]);
    assert!(q.get_shuffle_mode());
    assert_eq!(ids(&q), vec!["b", "a", "c"]);
    assert_eq!(q.get_current_index(), 0);
    q.restore_order();
    assert!(!q.get_shuffle_mode());
    assert_eq!(ids(&q), vec!["a", "b", "c"]);
    assert_eq!(q.get_current_index(), 1);
}

#[test]
fn toggle_shuffle_keeps_tracks_and_current() {
    let names: Vec<String> = (0..30).map(|i| format!("t{}", i)).collect();
    let mut q = QueueManager::new();
    for n in &names {
        q.add_to_queue(track(n));
    }
    q.play_track_at(7);
    assert!(q.toggle_shuffle());
    assert_eq!(q.get_current_index(), 0);
    assert_eq!(q.get_queue()[0].id, "t7");
    let mut shuffled = ids(&q);
    shuffled.sort();
    let mut sorted = names.clone();
    sorted.sort();
    assert_eq!(shuffled, sorted);
    assert!(!q.toggle_shuffle());
    assert_eq!(ids(&q), names);
    assert_eq!(q.get_current_index(), 7);
}

#[test]
fn toggle_shuffle_changes_order() {
    let names: Vec<String> = (0..30).map(|i| format!("s{}", i)).collect();
    let mut q = QueueManager::new();
    for n in &names {
        q.add_to_queue(track(n));
    }
    q.toggle_shuffle();
    assert_ne!(ids(&q), names);
    assert_eq!(q.get_current_index(), -1);
}

#[test]
fn toggle_shuffle_off_without_saved_order() {
    let mut q = QueueManager::new();
    assert!(q.toggle_shuffle());
    q.add_to_queue(track("a"));
    assert!(!q.toggle_shuffle());
    assert_eq!(ids(&q), vec!["a"]);
}

#[test]
fn set_current_index_is_unchecked() {
    let mut q = queue_of(&["a"]);
    q.set_current_index(40);
    assert_eq!(q.get_current_index(), 40);
    assert!(q.play_next().is_none());
}

#[test]
fn two_adds_of_one_new_id_keep_the_first() {
    let mut q = queue_of(&["a"]);
    let first = YTVideoInfo { id: "x".to_string(), title: "first".to_string(), duration: 1 };
    let second = YTVideoInfo { id: "x".to_string(), title: "second".to_string(), duration: 2 };
    q.add_to_queue(first.clone());
    q.add_to_queue(second);
    let queue = q.get_queue();
    assert_eq!(queue.len(), 2);
    assert_eq!(queue[1].title, first.title);
    assert_eq!(queue[1].duration, 1);
}
