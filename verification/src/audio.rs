use vstd::prelude::*;
use crate::text::{push_decimal_u64, decimal_nat};

verus! {

/// Sample rate of the PCM that the fallback decoder produces.
pub const SAMPLE_RATE: u32 = 44100;

/// Channel count of the PCM that the fallback decoder produces.
pub const CHANNELS: u16 = 2;

// ---------------------------------------------------------------------
// Decoded samples waiting to be played
// ---------------------------------------------------------------------

/// The samples of the last decoded packet and how many of them have been
/// handed out.
pub struct SampleCursor {
    current_buf: Vec<i16>,
    buf_index: usize,
}

/// A `SampleCursor` as mathematical values.
pub struct SampleCursorView {
    pub samples: Seq<i16>,
    pub index: int,
}

impl View for SampleCursor {
    type V = SampleCursorView;

    closed spec fn view(&self) -> SampleCursorView {
        SampleCursorView { samples: self.current_buf@, index: self.buf_index as int }
    }
}

impl SampleCursorView {
    /// Every sample of the current packet has been handed out.
    pub open spec fn exhausted(self) -> bool {
        self.index >= self.samples.len()
    }
}

impl SampleCursor {
    /// A cursor with nothing decoded yet.
    pub fn new() -> (res: Self)
        ensures
            res@.samples.len() == 0,
            res@.index == 0,
    {
        SampleCursor { current_buf: Vec::new(), buf_index: 0 }
    }

    /// Whether a new packet has to be decoded before the next sample.
    pub fn needs_refill(&self) -> (res: bool)
        ensures
            res == self@.exhausted(),
    {
        self.buf_index >= self.current_buf.len()
    }

    /// Takes the samples of a freshly decoded packet.
    pub fn refill(&mut self, samples: Vec<i16>)
        ensures
            final(self)@.samples == samples@,
            final(self)@.index == 0,
    {
        self.current_buf = samples;
        self.buf_index = 0;
    }

    /// Drops what is left of the current packet (after a seek).
    pub fn clear(&mut self)
        ensures
            final(self)@.samples.len() == 0,
            final(self)@.index == 0,
    {
        self.current_buf.clear();
        self.buf_index = 0;
    }

    /// Hands out the next sample of the current packet, if one is left.
    pub fn next_sample(&mut self) -> (res: Option<i16>)
        ensures
            old(self)@.exhausted() ==> res is None && final(self)@ == old(self)@,
            !old(self)@.exhausted() ==> res == Some(old(self)@.samples[old(self)@.index])
                && final(self)@.samples == old(self)@.samples
                && final(self)@.index == old(self)@.index + 1,
    {
        if self.buf_index >= self.current_buf.len() {
            return None;
        }
        let sample = self.current_buf[self.buf_index];
        self.buf_index = self.buf_index + 1;
        Some(sample)
    }

    /// How many samples of the current packet are left, or `None` when
    /// none are.
    pub fn current_frame_len(&self) -> (res: Option<usize>)
        ensures
            self@.exhausted() ==> res is None,
            !self@.exhausted() ==> res is Some,
            res matches Some(k) ==> k > 0 && k as int == self@.samples.len() - self@.index,
    {
        if self.buf_index < self.current_buf.len() {
            Some(self.current_buf.len() - self.buf_index)
        } else {
            None
        }
    }
}

/// Channel count and sample rate of a stream, with stereo at 44.1 kHz
/// standing in for what the codec does not say.
pub fn stream_format(channels: Option<u16>, sample_rate: Option<u32>) -> (res: (u16, u32))
    ensures
        res.0 == match channels { Some(c) => c, None => 2u16 },
        res.1 == match sample_rate { Some(r) => r, None => 44100u32 },
{
    let c = match channels {
        Some(c) => c,
        None => 2u16,
    };
    let r = match sample_rate {
        Some(r) => r,
        None => 44100u32,
    };
    (c, r)
}

// ---------------------------------------------------------------------
// PCM and seeking in memory
// ---------------------------------------------------------------------

/// The signed 16-bit value of a little-endian byte pair.
pub open spec fn le_i16(lo: u8, hi: u8) -> int {
    if hi >= 128 {
        hi * 256 + lo - 65536
    } else {
        hi * 256 + lo
    }
}

/// Reads signed 16-bit little-endian PCM; a trailing odd byte is ignored.
pub fn pcm_s16le_to_samples(bytes: &[u8]) -> (res: Vec<i16>)
    ensures
        res@.len() == bytes@.len() / 2,
        forall|i: int| 0 <= i < res@.len() ==>
            #[trigger] res@[i] as int == le_i16(bytes@[2 * i], bytes@[2 * i + 1]),
{
    let len = bytes.len();
    let n = len / 2;
    let mut samples: Vec<i16> = Vec::with_capacity(n);
    let mut i: usize = 0;
    while i < n
        invariant
            len == bytes@.len(),
            n == len / 2,
            i <= n,
            samples@.len() == i,
            forall|k: int| 0 <= k < i ==>
                #[trigger] samples@[k] as int == le_i16(bytes@[2 * k], bytes@[2 * k + 1]),
        decreases n - i,
    {
        assert(2 * i + 1 < len);
        let lo = bytes[2 * i];
        let hi = bytes[2 * i + 1];
        let v: i32 = (hi as i32) * 256 + (lo as i32);
        let s: i32 = if hi >= 128 { v - 65536 } else { v };
        samples.push(s as i16);
        i = i + 1;
    }
    samples
}

/// The samples from `sample_index` to the end; nothing when the index lies
/// past the end.
pub fn samples_from(samples: &[i16], sample_index: usize) -> (res: Vec<i16>)
    ensures
        sample_index <= samples@.len() ==> res@ == samples@.subrange(sample_index as int, samples@.len() as int),
        sample_index > samples@.len() ==> res@.len() == 0,
{
    let start = if sample_index < samples.len() { sample_index } else { samples.len() };
    let mut out: Vec<i16> = Vec::new();
    let mut i = start;
    while i < samples.len()
        invariant
            start <= i <= samples@.len(),
            out@ == samples@.subrange(start as int, i as int),
        decreases samples@.len() - i,
    {
        out.push(samples[i]);
        i = i + 1;
        assert(out@ =~= samples@.subrange(start as int, i as int));
    }
    out
}

// ---------------------------------------------------------------------
// Decisions of the playback thread
// ---------------------------------------------------------------------

/// What the play/pause button does.
#[derive(Clone, Copy, Debug, PartialEq, Eq, Structural)]
pub enum ToggleAction {
    /// Pause the running sink.
    Pause,
    /// Stop what is left and play the track again from its start.
    Restart,
    /// Resume the paused sink.
    Resume,
    /// Nothing to act on.
    Ignore,
}

/// The play/pause decision. `near_end` says that the position has reached
/// the last half second of a track of known length; `has_track` that a
/// downloaded track (a file or decoded samples) is loaded; `has_sink` that
/// a sink is playing or paused.
/// The play/pause decision as a function (see `toggle_action`).
pub open spec fn toggle_decision(is_playing: bool, near_end: bool, has_track: bool, has_sink: bool) -> ToggleAction {
    if is_playing {
        if has_sink { ToggleAction::Pause } else { ToggleAction::Ignore }
    } else if near_end || (has_track && !has_sink) {
        ToggleAction::Restart
    } else if has_sink {
        ToggleAction::Resume
    } else {
        ToggleAction::Ignore
    }
}

pub fn toggle_action(is_playing: bool, near_end: bool, has_track: bool, has_sink: bool) -> (res: ToggleAction)
    ensures
        res == toggle_decision(is_playing, near_end, has_track, has_sink),
        is_playing && has_sink ==> res == ToggleAction::Pause,
        is_playing && !has_sink ==> res == ToggleAction::Ignore,
        !is_playing && (near_end || (has_track && !has_sink)) ==> res == ToggleAction::Restart,
        !is_playing && !(near_end || (has_track && !has_sink)) && has_sink ==> res == ToggleAction::Resume,
        !is_playing && !(near_end || (has_track && !has_sink)) && !has_sink ==> res == ToggleAction::Ignore,
{
    let track_ended = near_end || (has_track && !has_sink);
    if is_playing {
        if has_sink {
            ToggleAction::Pause
        } else {
            ToggleAction::Ignore
        }
    } else if track_ended {
        ToggleAction::Restart
    } else if has_sink {
        ToggleAction::Resume
    } else {
        ToggleAction::Ignore
    }
}

/// Where a seek reads from.
#[derive(Clone, Copy, Debug, PartialEq, Eq, Structural)]
pub enum SeekSource {
    /// A streamed track cannot seek.
    Unavailable,
    /// Reopen the downloaded file at the position.
    File,
    /// Cut the decoded samples at the position.
    Memory,
}

/// A downloaded file is preferred over samples kept in memory.
pub fn seek_source(has_file: bool, has_samples: bool) -> (res: SeekSource)
    ensures
        has_file ==> res == SeekSource::File,
        !has_file && has_samples ==> res == SeekSource::Memory,
        !has_file && !has_samples ==> res == SeekSource::Unavailable,
{
    if has_file {
        SeekSource::File
    } else if has_samples {
        SeekSource::Memory
    } else {
        SeekSource::Unavailable
    }
}

/// What the playback thread has loaded for the current track, and so can
/// restart or seek in: nothing (a stream, or no track), the downloaded file,
/// or the decoded samples of the ffmpeg fallback. At most one of them is
/// kept at a time.
pub enum LoadedTrack {
    Nothing,
    File(String),
    Memory(Vec<i16>),
}

impl LoadedTrack {
    /// A downloaded track is loaded: it can be restarted and sought in.
    pub open spec fn is_downloaded(&self) -> bool {
        !(*self is Nothing)
    }

    pub fn has_track(&self) -> (res: bool)
        ensures
            res == self.is_downloaded(),
    {
        match self {
            LoadedTrack::Nothing => false,
            _ => true,
        }
    }

    /// Where a seek reads from: the file before anything else.
    pub fn seek_source(&self) -> (res: SeekSource)
        ensures
            *self is File ==> res == SeekSource::File,
            *self is Memory ==> res == SeekSource::Memory,
            *self is Nothing ==> res == SeekSource::Unavailable,
    {
        match self {
            LoadedTrack::Nothing => seek_source(false, false),
            LoadedTrack::File(_) => seek_source(true, false),
            LoadedTrack::Memory(_) => seek_source(false, true),
        }
    }
}

/// A track has played to its end: the sink has run dry while the clock was
/// still running.
pub fn track_finished(has_sink: bool, sink_empty: bool, timer_running: bool) -> (res: bool)
    ensures
        res == (has_sink && sink_empty && timer_running),
{
    has_sink && sink_empty && timer_running
}

/// The two flags the window shows while a track loads and plays.
#[derive(Clone, Copy, Debug, PartialEq, Eq, Structural)]
pub struct PlaybackFlags {
    pub is_playing: bool,
    pub is_loading: bool,
}

/// What happened to playback.
#[derive(Clone, Copy, Debug, PartialEq, Eq, Structural)]
pub enum PlaybackEvent {
    /// A track was asked for (streamed or from a file).
    LoadRequested,
    /// A stream, a file or decoded samples started to play.
    Started,
    /// The request for the audio stream failed.
    StreamRequestFailed,
    /// The stream could not be decoded.
    StreamDecodeFailed,
    /// Playback was paused (by the button or explicitly).
    Paused,
    /// Playback went on: resumed, restarted, or sought to a position.
    Continued,
    /// Playback was stopped.
    Stopped,
    /// The track played to its end.
    Ended,
}

/// The flags after an event.
pub open spec fn flags_after_spec(f: PlaybackFlags, e: PlaybackEvent) -> PlaybackFlags {
    match e {
        PlaybackEvent::LoadRequested => PlaybackFlags { is_playing: false, is_loading: true },
        PlaybackEvent::Started => PlaybackFlags { is_playing: true, is_loading: false },
        PlaybackEvent::StreamRequestFailed => PlaybackFlags { is_loading: false, ..f },
        PlaybackEvent::StreamDecodeFailed => PlaybackFlags { is_playing: false, is_loading: false },
        PlaybackEvent::Continued => PlaybackFlags { is_playing: true, ..f },
        PlaybackEvent::Paused | PlaybackEvent::Stopped | PlaybackEvent::Ended =>
            PlaybackFlags { is_playing: false, ..f },
    }
}

pub fn flags_after(f: PlaybackFlags, e: PlaybackEvent) -> (res: PlaybackFlags)
    ensures
        res == flags_after_spec(f, e),
{
    match e {
        PlaybackEvent::LoadRequested => PlaybackFlags { is_playing: false, is_loading: true },
        PlaybackEvent::Started => PlaybackFlags { is_playing: true, is_loading: false },
        PlaybackEvent::StreamRequestFailed => PlaybackFlags { is_playing: f.is_playing, is_loading: false },
        PlaybackEvent::StreamDecodeFailed => PlaybackFlags { is_playing: false, is_loading: false },
        PlaybackEvent::Continued => PlaybackFlags { is_playing: true, is_loading: f.is_loading },
        PlaybackEvent::Paused | PlaybackEvent::Stopped | PlaybackEvent::Ended =>
            PlaybackFlags { is_playing: false, is_loading: f.is_loading },
    }
}

/// Once a track has started, nothing but a new request puts the player back
/// into loading.
pub proof fn lemma_only_requests_load(f: PlaybackFlags, e: PlaybackEvent)
    requires
        !f.is_loading,
        e != PlaybackEvent::LoadRequested,
    ensures
        !flags_after_spec(f, e).is_loading,
{
}

/// The flags after each event: a request loads and stops playing; a start
/// plays and ends loading; a failed request ends loading; a stream that
/// cannot be decoded neither plays nor loads; going on plays; a pause, a
/// stop and the end of a track stop playing; loading is kept wherever it is
/// not named.
pub proof fn law_flags_after(f: PlaybackFlags)
    ensures
        flags_after_spec(f, PlaybackEvent::LoadRequested) == (PlaybackFlags { is_playing: false, is_loading: true }),
        flags_after_spec(f, PlaybackEvent::Started) == (PlaybackFlags { is_playing: true, is_loading: false }),
        flags_after_spec(f, PlaybackEvent::StreamRequestFailed) == (PlaybackFlags { is_playing: f.is_playing, is_loading: false }),
        flags_after_spec(f, PlaybackEvent::StreamDecodeFailed) == (PlaybackFlags { is_playing: false, is_loading: false }),
        flags_after_spec(f, PlaybackEvent::Continued) == (PlaybackFlags { is_playing: true, is_loading: f.is_loading }),
        flags_after_spec(f, PlaybackEvent::Paused) == (PlaybackFlags { is_playing: false, is_loading: f.is_loading }),
        flags_after_spec(f, PlaybackEvent::Stopped) == (PlaybackFlags { is_playing: false, is_loading: f.is_loading }),
        flags_after_spec(f, PlaybackEvent::Ended) == (PlaybackFlags { is_playing: false, is_loading: f.is_loading }),
{
}

/// What the decoder does with a packet it has read.
#[derive(Clone, Copy, Debug, PartialEq, Eq, Structural)]
pub enum PacketStep {
    /// Reading or decoding failed: the stream has ended.
    EndOfStream,
    /// The packet is of another track, or decoded to nothing: read the next.
    Skip,
    /// Decode the packet / take its samples.
    Take,
}

/// A packet just read: `packet_track` is its track, `None` when reading failed.
pub fn read_step(packet_track: Option<u32>, track_id: u32) -> (res: PacketStep)
    ensures
        packet_track is None ==> res == PacketStep::EndOfStream,
        packet_track matches Some(t) ==> (t == track_id ==> res == PacketStep::Take)
            && (t != track_id ==> res == PacketStep::Skip),
{
    match packet_track {
        None => PacketStep::EndOfStream,
        Some(t) => if t == track_id { PacketStep::Take } else { PacketStep::Skip },
    }
}

/// A packet just decoded: `capacity` is the number of frames the decoded
/// buffer holds, `None` when decoding failed.
pub fn decoded_step(capacity: Option<usize>) -> (res: PacketStep)
    ensures
        capacity is None ==> res == PacketStep::EndOfStream,
        capacity matches Some(c) ==> (c == 0 ==> res == PacketStep::Skip)
            && (c > 0 ==> res == PacketStep::Take),
{
    match capacity {
        None => PacketStep::EndOfStream,
        Some(c) => if c == 0 { PacketStep::Skip } else { PacketStep::Take },
    }
}

// ---------------------------------------------------------------------
// Command lines of the helper tools
// ---------------------------------------------------------------------

pub open spec fn strings_view(v: Seq<String>) -> Seq<Seq<char>> {
    v.map_values(|s: String| s@)
}

/// The page of a YouTube video.
pub open spec fn watch_url(video_id: Seq<char>) -> Seq<char> {
    "https://www.youtube.com/watch?v="@ + video_id
}

pub fn youtube_watch_url(video_id: &str) -> (res: String)
    ensures
        res@ == watch_url(video_id@),
{
    let mut url = String::from_str("https://www.youtube.com/watch?v=");
    url.append(video_id);
    url
}

/// Extra yt-dlp arguments against YouTube's blocking; playback starts
/// with none.
pub fn build_youtube_bypass_args() -> (res: Vec<String>)
    ensures
        res@.len() == 0,
{
    Vec::new()
}

/// The yt-dlp arguments that print the direct URL of the best audio
/// stream (m4a, else mp3, else any) of a video.
pub open spec fn ytdlp_args(video_id: Seq<char>) -> Seq<Seq<char>> {
    seq![
        "-f"@,
        "bestaudio[ext=m4a]/bestaudio[ext=mp3]/bestaudio"@,
        "-g"@,
        "--no-warnings"@,
        watch_url(video_id),
    ]
}

pub fn ytdlp_audio_url_args(video_id: &str) -> (res: Vec<String>)
    ensures
        strings_view(res@) == ytdlp_args(video_id@),
{
    let mut args: Vec<String> = Vec::new();
    args.push(String::from_str("-f"));
    args.push(String::from_str("bestaudio[ext=m4a]/bestaudio[ext=mp3]/bestaudio"));
    args.push(String::from_str("-g"));
    args.push(String::from_str("--no-warnings"));
    let mut bypass = build_youtube_bypass_args();
    args.append(&mut bypass);
    args.push(youtube_watch_url(video_id));
    assert(strings_view(args@) =~= ytdlp_args(video_id@));
    args
}

/// The ffmpeg arguments that decode a file to raw signed 16-bit
/// little-endian PCM on standard output, at `SAMPLE_RATE` and `CHANNELS`.
pub open spec fn ffmpeg_args(path: Seq<char>) -> Seq<Seq<char>> {
    seq![
        "-i"@,
        path,
        "-f"@,
        "s16le"@,
        "-acodec"@,
        "pcm_s16le"@,
        "-ar"@,
        decimal_nat(SAMPLE_RATE as nat),
        "-ac"@,
        decimal_nat(CHANNELS as nat),
        "-loglevel"@,
        "error"@,
        "pipe:1"@,
    ]
}

pub fn ffmpeg_pcm_args(path: &str) -> (res: Vec<String>)
    ensures
        strings_view(res@) == ffmpeg_args(path@),
{
    let mut args: Vec<String> = Vec::new();
    args.push(String::from_str("-i"));
    args.push(String::from_str(path));
    args.push(String::from_str("-f"));
    args.push(String::from_str("s16le"));
    args.push(String::from_str("-acodec"));
    args.push(String::from_str("pcm_s16le"));
    args.push(String::from_str("-ar"));
    let mut rate = String::new();
    push_decimal_u64(&mut rate, SAMPLE_RATE as u64);
    args.push(rate);
    args.push(String::from_str("-ac"));
    let mut channels = String::new();
    push_decimal_u64(&mut channels, CHANNELS as u64);
    args.push(channels);
    args.push(String::from_str("-loglevel"));
    args.push(String::from_str("error"));
    args.push(String::from_str("pipe:1"));
    assert(strings_view(args@) =~= ffmpeg_args(path@));
    args
}

} // verus!
