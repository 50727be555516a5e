use ytplayer::audio::PlaybackFlags;
use ytplayer::player::{
    after_event, initial_player, FileOutcome, LoadedKind, PlayerEvent, StreamOutcome,
};

#[test]
fn stop_then_seek_and_toggle_do_nothing() {
    let s = after_event(initial_player(), PlayerEvent::PlayFile(FileOutcome::Started));
    let stopped = after_event(s, PlayerEvent::Stop);
    assert_eq!(stopped.loaded, LoadedKind::Nothing);
    assert!(!stopped.has_sink);
    assert_eq!(after_event(stopped, PlayerEvent::Seek { started: true }), stopped);
    assert_eq!(
        after_event(stopped, PlayerEvent::TogglePlayPause { near_end: true, restarted: true }),
        stopped
    );
}

#[test]
fn ended_track_restarts_from_beginning() {
    let s = after_event(initial_player(), PlayerEvent::PlayFile(FileOutcome::FallbackStarted));
    assert_eq!(s.loaded, LoadedKind::Memory);
    let seeked = after_event(s, PlayerEvent::Seek { started: true });
    assert!(!seeked.from_beginning);
    let ended = after_event(seeked, PlayerEvent::Tick { sink_empty: true });
    assert_eq!(ended.loaded, LoadedKind::Memory);
    assert!(!ended.has_sink);
    assert_eq!(ended.flags, PlaybackFlags { is_playing: false, is_loading: false });
    let again = after_event(ended, PlayerEvent::TogglePlayPause { near_end: false, restarted: true });
    assert!(again.has_sink && again.clock_running && again.from_beginning);
    assert!(again.flags.is_playing);
}

#[test]
fn stream_cannot_seek() {
    let s = after_event(initial_player(), PlayerEvent::Play(StreamOutcome::Started));
    assert_eq!(s.loaded, LoadedKind::Nothing);
    assert_eq!(after_event(s, PlayerEvent::Seek { started: true }), s);
}

#[test]
fn stream_failures_leave_flags() {
    let failed = after_event(initial_player(), PlayerEvent::Play(StreamOutcome::Failed));
    assert_eq!(failed.flags, PlaybackFlags { is_playing: false, is_loading: true });
    let req = after_event(initial_player(), PlayerEvent::Play(StreamOutcome::RequestFailed));
    assert_eq!(req.flags, PlaybackFlags { is_playing: false, is_loading: false });
    let dec = after_event(initial_player(), PlayerEvent::Play(StreamOutcome::DecodeFailed));
    assert_eq!(dec.flags, PlaybackFlags { is_playing: false, is_loading: false });
    let nosink = after_event(initial_player(), PlayerEvent::PlayFile(FileOutcome::FallbackNoSink));
    assert_eq!(nosink.loaded, LoadedKind::Memory);
    assert!(!nosink.has_sink);
}

#[test]
fn pause_and_resume() {
    let s = after_event(initial_player(), PlayerEvent::Play(StreamOutcome::Started));
    let paused = after_event(s, PlayerEvent::TogglePlayPause { near_end: false, restarted: false });
    assert!(!paused.flags.is_playing && !paused.clock_running && paused.has_sink);
    let resumed = after_event(paused, PlayerEvent::TogglePlayPause { near_end: false, restarted: false });
    assert!(resumed.flags.is_playing && resumed.clock_running);
    let paused2 = after_event(resumed, PlayerEvent::Pause);
    assert!(!paused2.flags.is_playing);
    assert_eq!(after_event(initial_player(), PlayerEvent::Pause), initial_player());
}
