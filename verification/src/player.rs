use vstd::prelude::*;
use crate::audio::{
    flags_after, flags_after_spec, toggle_action, toggle_decision, track_finished, PlaybackEvent,
    PlaybackFlags, ToggleAction,
};

verus! {

/// Which kind of downloaded track the playback thread holds.
#[derive(Clone, Copy, Debug, PartialEq, Eq, Structural)]
pub enum LoadedKind {
    /// Nothing to restart or seek in: no track, or a stream.
    Nothing,
    File,
    Memory,
}

/// The playback thread as the commands see it.
#[derive(Clone, Copy, Debug, PartialEq, Eq, Structural)]
pub struct PlayerModel {
    pub loaded: LoadedKind,
    /// A sink exists (playing or paused).
    pub has_sink: bool,
    /// The playback clock runs.
    pub clock_running: bool,
    /// The clock was last started at the beginning of the track (by a play
    /// or a restart), not at a sought position.
    pub from_beginning: bool,
    pub flags: PlaybackFlags,
}

/// How a request to stream a track turned out.
#[derive(Clone, Copy, Debug, PartialEq, Eq, Structural)]
pub enum StreamOutcome {
    /// No audio URL came back, or no sink could be made.
    Failed,
    /// The HTTP request for the audio failed.
    RequestFailed,
    /// The stream could not be decoded.
    DecodeFailed,
    Started,
}

/// How a request to play a downloaded file turned out.
#[derive(Clone, Copy, Debug, PartialEq, Eq, Structural)]
pub enum FileOutcome {
    /// The file opened for decoding, but no sink could be made.
    Failed,
    /// The file plays through the streaming decoder.
    Started,
    /// The decoder failed, and so did the ffmpeg fallback.
    FallbackFailed,
    /// The ffmpeg fallback decoded the file, but no sink could be made.
    FallbackNoSink,
    /// The file plays from the samples ffmpeg decoded.
    FallbackStarted,
}

/// A command handled by the playback thread, or a tick of its loop,
/// with what the outside work reported.
#[derive(Clone, Copy, Debug, PartialEq, Eq, Structural)]
pub enum PlayerEvent {
    Play(StreamOutcome),
    PlayFile(FileOutcome),
    /// `started`: the sought position plays.
    Seek { started: bool },
    /// `near_end`: the clock is in the last half second of a track of known
    /// length; `restarted`: a restart found a source and a sink.
    TogglePlayPause { near_end: bool, restarted: bool },
    Pause,
    Stop,
    /// A pass of the loop; `sink_empty`: the sink has played all it had.
    Tick { sink_empty: bool },
}

impl PlayerModel {
    /// Nothing loaded, no sink, clock stopped, neither playing nor loading.
    pub open spec fn idle() -> PlayerModel {
        PlayerModel {
            loaded: LoadedKind::Nothing,
            has_sink: false,
            clock_running: false,
            from_beginning: true,
            flags: PlaybackFlags { is_playing: false, is_loading: false },
        }
    }

    /// A new sink plays from the start of the track.
    pub open spec fn started(self, loaded: LoadedKind) -> PlayerModel {
        PlayerModel {
            loaded,
            has_sink: true,
            clock_running: true,
            from_beginning: true,
            flags: flags_after_spec(self.flags, PlaybackEvent::Started),
        }
    }

    pub open spec fn with_flags(self, e: PlaybackEvent) -> PlayerModel {
        PlayerModel { flags: flags_after_spec(self.flags, e), ..self }
    }

    /// The state after an event.
    pub open spec fn after(self, e: PlayerEvent) -> PlayerModel {
        match e {
            PlayerEvent::Play(o) => {
                // The old sink stops and nothing downloaded stays loaded.
                let cleared = PlayerModel {
                    loaded: LoadedKind::Nothing,
                    has_sink: false,
                    ..self
                }.with_flags(PlaybackEvent::LoadRequested);
                match o {
                    StreamOutcome::Failed => cleared,
                    StreamOutcome::RequestFailed => cleared.with_flags(PlaybackEvent::StreamRequestFailed),
                    StreamOutcome::DecodeFailed => cleared.with_flags(PlaybackEvent::StreamDecodeFailed),
                    StreamOutcome::Started => cleared.started(LoadedKind::Nothing),
                }
            },
            PlayerEvent::PlayFile(o) => {
                let cleared = PlayerModel {
                    loaded: LoadedKind::Nothing,
                    has_sink: false,
                    ..self
                }.with_flags(PlaybackEvent::LoadRequested);
                match o {
                    FileOutcome::Failed | FileOutcome::FallbackFailed => cleared,
                    FileOutcome::Started => cleared.started(LoadedKind::File),
                    FileOutcome::FallbackNoSink => PlayerModel { loaded: LoadedKind::Memory, ..cleared },
                    FileOutcome::FallbackStarted => cleared.started(LoadedKind::Memory),
                }
            },
            PlayerEvent::Seek { started } => {
                if self.loaded == LoadedKind::Nothing {
                    self
                } else if started {
                    PlayerModel {
                        has_sink: true,
                        clock_running: true,
                        from_beginning: false,
                        ..self
                    }.with_flags(PlaybackEvent::Continued)
                } else {
                    PlayerModel { has_sink: false, ..self }
                }
            },
            PlayerEvent::TogglePlayPause { near_end, restarted } => {
                match toggle_decision(
                    self.flags.is_playing,
                    near_end,
                    self.loaded != LoadedKind::Nothing,
                    self.has_sink,
                ) {
                    ToggleAction::Pause =>
                        PlayerModel { clock_running: false, ..self }.with_flags(PlaybackEvent::Paused),
                    ToggleAction::Restart =>
                        if self.loaded != LoadedKind::Nothing && restarted {
                            PlayerModel {
                                has_sink: true,
                                clock_running: true,
                                from_beginning: true,
                                ..self
                            }.with_flags(PlaybackEvent::Continued)
                        } else {
                            PlayerModel { has_sink: false, ..self }
                        },
                    ToggleAction::Resume =>
                        PlayerModel { clock_running: true, ..self }.with_flags(PlaybackEvent::Continued),
                    ToggleAction::Ignore => self,
                }
            },
            PlayerEvent::Pause => {
                if self.has_sink {
                    PlayerModel { clock_running: false, ..self }.with_flags(PlaybackEvent::Paused)
                } else {
                    self
                }
            },
            PlayerEvent::Stop => PlayerModel {
                loaded: LoadedKind::Nothing,
                has_sink: false,
                clock_running: false,
                ..self
            }.with_flags(PlaybackEvent::Stopped),
            PlayerEvent::Tick { sink_empty } => {
                if self.has_sink && sink_empty && self.clock_running {
                    PlayerModel { has_sink: false, clock_running: false, ..self }.with_flags(PlaybackEvent::Ended)
                } else {
                    self
                }
            },
        }
    }
}

/// The playback thread before any command.
pub fn initial_player() -> (res: PlayerModel)
    ensures
        res == PlayerModel::idle(),
{
    PlayerModel {
        loaded: LoadedKind::Nothing,
        has_sink: false,
        clock_running: false,
        from_beginning: true,
        flags: PlaybackFlags { is_playing: false, is_loading: false },
    }
}

fn start(s: PlayerModel, loaded: LoadedKind) -> (res: PlayerModel)
    ensures
        res == s.started(loaded),
{
    PlayerModel {
        loaded,
        has_sink: true,
        clock_running: true,
        from_beginning: true,
        flags: flags_after(s.flags, PlaybackEvent::Started),
    }
}

fn with_flags(s: PlayerModel, e: PlaybackEvent) -> (res: PlayerModel)
    ensures
        res == s.with_flags(e),
{
    PlayerModel { flags: flags_after(s.flags, e), ..s }
}

/// The playback thread's state after an event.
pub fn after_event(s: PlayerModel, e: PlayerEvent) -> (res: PlayerModel)
    ensures
        res == s.after(e),
{
    match e {
        PlayerEvent::Play(o) => {
            let cleared = with_flags(
                PlayerModel { loaded: LoadedKind::Nothing, has_sink: false, ..s },
                PlaybackEvent::LoadRequested,
            );
            match o {
                StreamOutcome::Failed => cleared,
                StreamOutcome::RequestFailed => with_flags(cleared, PlaybackEvent::StreamRequestFailed),
                StreamOutcome::DecodeFailed => with_flags(cleared, PlaybackEvent::StreamDecodeFailed),
                StreamOutcome::Started => start(cleared, LoadedKind::Nothing),
            }
        },
        PlayerEvent::PlayFile(o) => {
            let cleared = with_flags(
                PlayerModel { loaded: LoadedKind::Nothing, has_sink: false, ..s },
                PlaybackEvent::LoadRequested,
            );
            match o {
                FileOutcome::Failed | FileOutcome::FallbackFailed => cleared,
                FileOutcome::Started => start(cleared, LoadedKind::File),
                FileOutcome::FallbackNoSink => PlayerModel { loaded: LoadedKind::Memory, ..cleared },
                FileOutcome::FallbackStarted => start(cleared, LoadedKind::Memory),
            }
        },
        PlayerEvent::Seek { started } => {
            if s.loaded == LoadedKind::Nothing {
                s
            } else if started {
                with_flags(
                    PlayerModel { has_sink: true, clock_running: true, from_beginning: false, ..s },
                    PlaybackEvent::Continued,
                )
            } else {
                PlayerModel { has_sink: false, ..s }
            }
        },
        PlayerEvent::TogglePlayPause { near_end, restarted } => {
            let has_track = s.loaded != LoadedKind::Nothing;
            match toggle_action(s.flags.is_playing, near_end, has_track, s.has_sink) {
                ToggleAction::Pause => with_flags(PlayerModel { clock_running: false, ..s }, PlaybackEvent::Paused),
                ToggleAction::Restart => {
                    if has_track && restarted {
                        with_flags(
                            PlayerModel { has_sink: true, clock_running: true, from_beginning: true, ..s },
                            PlaybackEvent::Continued,
                        )
                    } else {
                        PlayerModel { has_sink: false, ..s }
                    }
                },
                ToggleAction::Resume => with_flags(PlayerModel { clock_running: true, ..s }, PlaybackEvent::Continued),
                ToggleAction::Ignore => s,
            }
        },
        PlayerEvent::Pause => {
            if s.has_sink {
                with_flags(PlayerModel { clock_running: false, ..s }, PlaybackEvent::Paused)
            } else {
                s
            }
        },
        PlayerEvent::Stop => with_flags(
            PlayerModel { loaded: LoadedKind::Nothing, has_sink: false, clock_running: false, ..s },
            PlaybackEvent::Stopped,
        ),
        PlayerEvent::Tick { sink_empty } => {
            if track_finished(s.has_sink, sink_empty, s.clock_running) {
                with_flags(PlayerModel { has_sink: false, clock_running: false, ..s }, PlaybackEvent::Ended)
            } else {
                s
            }
        },
    }
}

/// After a stop, a seek is ignored and play/pause starts nothing: the
/// player stays as the stop left it.
pub proof fn lemma_stopped_player_stays(s: PlayerModel, started: bool, near_end: bool, restarted: bool)
    ensures
        s.after(PlayerEvent::Stop).after(PlayerEvent::Seek { started }) == s.after(PlayerEvent::Stop),
        s.after(PlayerEvent::Stop).after(PlayerEvent::TogglePlayPause { near_end, restarted })
            == s.after(PlayerEvent::Stop),
        !s.after(PlayerEvent::Stop).flags.is_playing,
        !s.after(PlayerEvent::Stop).has_sink,
{
}

/// When a downloaded track plays to its end it stays loaded, and play/pause
/// then plays it again from the beginning (when a source and sink can be made).
pub proof fn lemma_ended_track_restarts(s: PlayerModel, near_end: bool)
    requires
        s.loaded != LoadedKind::Nothing,
        s.has_sink,
        s.clock_running,
    ensures
        s.after(PlayerEvent::Tick { sink_empty: true }).loaded == s.loaded,
        !s.after(PlayerEvent::Tick { sink_empty: true }).flags.is_playing,
        !s.after(PlayerEvent::Tick { sink_empty: true }).has_sink,
        ({
            let r = s.after(PlayerEvent::Tick { sink_empty: true })
                .after(PlayerEvent::TogglePlayPause { near_end, restarted: true });
            &&& r.loaded == s.loaded
            &&& r.has_sink
            &&& r.clock_running
            &&& r.from_beginning
            &&& r.flags.is_playing
        }),
{
}

/// A seek is ignored unless a downloaded track is loaded; a stream never seeks.
pub proof fn lemma_stream_cannot_seek(s: PlayerModel, started: bool)
    ensures
        s.after(PlayerEvent::Play(StreamOutcome::Started)).after(PlayerEvent::Seek { started })
            == s.after(PlayerEvent::Play(StreamOutcome::Started)),
{
}

// What each event does to the player, field by field, in terms of the
// event's inputs.

/// Two states differ at most in the clock and the flags.
pub open spec fn same_track_and_sink(a: PlayerModel, b: PlayerModel) -> bool {
    a.loaded == b.loaded && a.has_sink == b.has_sink
}

/// Playing a stream: the old sink stops and nothing downloaded stays
/// loaded. Started: a new sink plays from the beginning. The request
/// failing leaves the player neither playing nor loading; so does a stream
/// that cannot be decoded. Any other failure (no URL, no sink) leaves it
/// loading, not playing, with the clock as it was.
pub proof fn law_play_stream(s: PlayerModel, o: StreamOutcome)
    ensures
        s.after(PlayerEvent::Play(o)).loaded == LoadedKind::Nothing,
        o == StreamOutcome::Started ==> {
            let r = s.after(PlayerEvent::Play(o));
            &&& r.has_sink && r.clock_running && r.from_beginning
            &&& r.flags.is_playing && !r.flags.is_loading
        },
        o != StreamOutcome::Started ==> {
            let r = s.after(PlayerEvent::Play(o));
            &&& !r.has_sink
            &&& r.clock_running == s.clock_running
            &&& r.from_beginning == s.from_beginning
            &&& !r.flags.is_playing
            &&& r.flags.is_loading == (o == StreamOutcome::Failed)
        },
{
}

/// Playing a downloaded file. Started: the file is loaded and plays from
/// the beginning. The ffmpeg fallback started: the decoded samples are
/// loaded and play from the beginning. The fallback decoded but no sink:
/// the samples are loaded, nothing plays, still loading. Any other failure:
/// nothing loaded, nothing plays, still loading. The clock is untouched
/// unless something plays.
pub proof fn law_play_file(s: PlayerModel, o: FileOutcome)
    ensures
        o == FileOutcome::Started ==> s.after(PlayerEvent::PlayFile(o)).loaded == LoadedKind::File,
        o == FileOutcome::FallbackStarted || o == FileOutcome::FallbackNoSink
            ==> s.after(PlayerEvent::PlayFile(o)).loaded == LoadedKind::Memory,
        o == FileOutcome::Failed || o == FileOutcome::FallbackFailed
            ==> s.after(PlayerEvent::PlayFile(o)).loaded == LoadedKind::Nothing,
        o == FileOutcome::Started || o == FileOutcome::FallbackStarted ==> {
            let r = s.after(PlayerEvent::PlayFile(o));
            &&& r.has_sink && r.clock_running && r.from_beginning
            &&& r.flags.is_playing && !r.flags.is_loading
        },
        !(o == FileOutcome::Started || o == FileOutcome::FallbackStarted) ==> {
            let r = s.after(PlayerEvent::PlayFile(o));
            &&& !r.has_sink
            &&& r.clock_running == s.clock_running
            &&& r.from_beginning == s.from_beginning
            &&& !r.flags.is_playing && r.flags.is_loading
        },
{
}

/// Seeking: ignored when nothing downloaded is loaded. Otherwise the old
/// sink stops; when the position plays, the player plays from a sought
/// position; the loaded track stays either way.
pub proof fn law_seek(s: PlayerModel, started: bool)
    ensures
        s.loaded == LoadedKind::Nothing ==> s.after(PlayerEvent::Seek { started }) == s,
        s.loaded != LoadedKind::Nothing && started ==> {
            let r = s.after(PlayerEvent::Seek { started });
            &&& r.loaded == s.loaded
            &&& r.has_sink && r.clock_running && !r.from_beginning
            &&& r.flags.is_playing && r.flags.is_loading == s.flags.is_loading
        },
        s.loaded != LoadedKind::Nothing && !started ==> {
            let r = s.after(PlayerEvent::Seek { started });
            &&& r.loaded == s.loaded && !r.has_sink
            &&& r.clock_running == s.clock_running && r.flags == s.flags
        },
{
}

/// A downloaded file that started playing can be sought in: a seek that
/// starts leaves it loaded and playing from the sought position.
pub proof fn law_file_then_seek(s: PlayerModel)
    ensures
        ({
            let r = s.after(PlayerEvent::PlayFile(FileOutcome::Started)).after(PlayerEvent::Seek { started: true });
            &&& r.loaded == LoadedKind::File
            &&& r.has_sink && r.clock_running && !r.from_beginning
            &&& r.flags.is_playing
        }),
{
}

/// The play/pause button. While playing with a sink: pause (clock stops,
/// not playing). While not playing, at the end of the track or with a
/// downloaded track and no sink: restart from the beginning when that
/// works, else just drop the sink. While not playing otherwise, with a
/// sink: resume. Otherwise nothing changes. The loaded track always stays.
pub proof fn law_toggle(s: PlayerModel, near_end: bool, restarted: bool)
    ensures
        s.after(PlayerEvent::TogglePlayPause { near_end, restarted }).loaded == s.loaded,
        s.flags.is_playing && s.has_sink ==> {
            let r = s.after(PlayerEvent::TogglePlayPause { near_end, restarted });
            &&& r.has_sink && !r.clock_running && !r.flags.is_playing
            &&& r.from_beginning == s.from_beginning
        },
        s.flags.is_playing && !s.has_sink ==> s.after(PlayerEvent::TogglePlayPause { near_end, restarted }) == s,
        !s.flags.is_playing && (near_end || (s.loaded != LoadedKind::Nothing && !s.has_sink)) ==> {
            let r = s.after(PlayerEvent::TogglePlayPause { near_end, restarted });
            &&& s.loaded != LoadedKind::Nothing && restarted ==>
                r.has_sink && r.clock_running && r.from_beginning && r.flags.is_playing
            &&& !(s.loaded != LoadedKind::Nothing && restarted) ==>
                !r.has_sink && r.clock_running == s.clock_running && r.flags == s.flags
        },
        !s.flags.is_playing && !(near_end || (s.loaded != LoadedKind::Nothing && !s.has_sink)) && s.has_sink ==> {
            let r = s.after(PlayerEvent::TogglePlayPause { near_end, restarted });
            &&& r.has_sink && r.clock_running && r.flags.is_playing
            &&& r.from_beginning == s.from_beginning
        },
        !s.flags.is_playing && !(near_end || (s.loaded != LoadedKind::Nothing && !s.has_sink)) && !s.has_sink
            ==> s.after(PlayerEvent::TogglePlayPause { near_end, restarted }) == s,
{
}

/// Pause: with a sink, the clock stops and nothing plays; without, nothing changes.
pub proof fn law_pause(s: PlayerModel)
    ensures
        s.has_sink ==> {
            let r = s.after(PlayerEvent::Pause);
            &&& same_track_and_sink(r, s) && !r.clock_running && !r.flags.is_playing
            &&& r.flags.is_loading == s.flags.is_loading
        },
        !s.has_sink ==> s.after(PlayerEvent::Pause) == s,
{
}

/// Stop: nothing loaded, no sink, the clock stopped, nothing playing.
pub proof fn law_stop(s: PlayerModel)
    ensures
        s.after(PlayerEvent::Stop).loaded == LoadedKind::Nothing,
        !s.after(PlayerEvent::Stop).has_sink,
        !s.after(PlayerEvent::Stop).clock_running,
        !s.after(PlayerEvent::Stop).flags.is_playing,
        s.after(PlayerEvent::Stop).flags.is_loading == s.flags.is_loading,
{
}

/// A pass of the loop: when the sink has run dry while the clock ran, the
/// track has ended: no sink, clock stopped, not playing, the loaded track
/// kept. Otherwise nothing changes.
pub proof fn law_tick(s: PlayerModel, sink_empty: bool)
    ensures
        s.has_sink && sink_empty && s.clock_running ==> {
            let r = s.after(PlayerEvent::Tick { sink_empty });
            &&& r.loaded == s.loaded && !r.has_sink && !r.clock_running && !r.flags.is_playing
            &&& r.flags.is_loading == s.flags.is_loading
        },
        !(s.has_sink && sink_empty && s.clock_running) ==> s.after(PlayerEvent::Tick { sink_empty }) == s,
{
}

} // verus!
