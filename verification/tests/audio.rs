use ytplayer::audio::{
    build_youtube_bypass_args, ffmpeg_pcm_args, pcm_s16le_to_samples, samples_from, seek_source,
    stream_format, toggle_action, youtube_watch_url, ytdlp_audio_url_args, SampleCursor,
    SeekSource, ToggleAction, CHANNELS, SAMPLE_RATE,
};
use ytplayer::text::{push_decimal_i64, push_decimal_u64};

#[test]
fn pcm_bytes_become_samples() {
    let bytes = [0x01u8, 0x00, 0xff, 0xff, 0x00, 0x80, 0xff, 0x7f, 0x34, 0x12, 0x05];
    assert_eq!(pcm_s16le_to_samples(&bytes), vec![1i16, -1, -32768, 32767, 0x1234]);
    assert!(pcm_s16le_to_samples(&[7u8]).is_empty());
}

#[test]
fn samples_from_cuts_at_index() {
    let s = [1i16, 2, 3, 4];
    assert_eq!(samples_from(&s, 2), vec![3i16, 4]);
    assert_eq!(samples_from(&s, 0), vec![1i16, 2, 3, 4]);
    assert!(samples_from(&s, 4).is_empty());
    assert!(samples_from(&s, 99).is_empty());
}

#[test]
fn sample_cursor_hands_out_packet() {
    let mut c = SampleCursor::new();
    assert!(c.needs_refill());
    assert_eq!(c.next_sample(), None);
    assert_eq!(c.current_frame_len(), None);
    c.refill(vec![5, 6]);
    assert!(!c.needs_refill());
    assert_eq!(c.current_frame_len(), Some(2));
    assert_eq!(c.next_sample(), Some(5));
    assert_eq!(c.current_frame_len(), Some(1));
    assert_eq!(c.next_sample(), Some(6));
    assert!(c.needs_refill());
    assert_eq!(c.next_sample(), None);
    c.refill(vec![9]);
    c.clear();
    assert!(c.needs_refill());
}

#[test]
fn stream_format_defaults() {
    assert_eq!(stream_format(None, None), (2, 44100));
    assert_eq!(stream_format(Some(1), Some(48000)), (1, 48000));
}

#[test]
fn toggle_action_cases() {
    assert_eq!(toggle_action(true, false, true, true), ToggleAction::Pause);
    assert_eq!(toggle_action(true, true, true, false), ToggleAction::Ignore);
    assert_eq!(toggle_action(false, true, false, true), ToggleAction::Restart);
    assert_eq!(toggle_action(false, false, true, false), ToggleAction::Restart);
    assert_eq!(toggle_action(false, false, true, true), ToggleAction::Resume);
    assert_eq!(toggle_action(false, false, false, false), ToggleAction::Ignore);
}

#[test]
fn seek_source_cases() {
    assert_eq!(seek_source(true, true), SeekSource::File);
    assert_eq!(seek_source(false, true), SeekSource::Memory);
    assert_eq!(seek_source(false, false), SeekSource::Unavailable);
}

#[test]
fn ytdlp_arguments() {
    assert!(build_youtube_bypass_args().is_empty());
    assert_eq!(youtube_watch_url("abc"), "https://www.youtube.com/watch?v=abc");
    assert_eq!(
        ytdlp_audio_url_args("dQw4w9WgXcQ"),
        vec![
            "-f",
            "bestaudio[ext=m4a]/bestaudio[ext=mp3]/bestaudio",
            "-g",
            "--no-warnings",
            "https://www.youtube.com/watch?v=dQw4w9WgXcQ",
        ]
    );
}

#[test]
fn ffmpeg_arguments() {
    assert_eq!(SAMPLE_RATE, 44100);
    assert_eq!(CHANNELS, 2);
    assert_eq!(
        ffmpeg_pcm_args("/tmp/song.flac"),
        vec![
            "-i", "/tmp/song.flac", "-f", "s16le", "-acodec", "pcm_s16le", "-ar", "44100", "-ac",
            "2", "-loglevel", "error", "pipe:1",
        ]
    );
}

#[test]
fn decimal_text() {
    let mut s = String::from("n=");
    push_decimal_u64(&mut s, 0);
    assert_eq!(s, "n=0");
    let mut s = String::new();
    push_decimal_u64(&mut s, u64::MAX);
    assert_eq!(s, u64::MAX.to_string());
    let mut s = String::new();
    push_decimal_i64(&mut s, -4);
    assert_eq!(s, "-4");
    let mut s = String::new();
    push_decimal_i64(&mut s, i64::MIN);
    assert_eq!(s, i64::MIN.to_string());
    let mut s = String::new();
    push_decimal_i64(&mut s, 44100);
    assert_eq!(s, "44100");
}

use ytplayer::audio::{
    decoded_step, flags_after, read_step, track_finished, LoadedTrack, PacketStep, PlaybackEvent,
    PlaybackFlags,
};

#[test]
fn frame_len_counts_what_is_left() {
    let mut c = SampleCursor::new();
    c.refill(vec![1, 2, 3]);
    c.next_sample();
    assert_eq!(c.current_frame_len(), Some(2));
    c.next_sample();
    c.next_sample();
    assert_eq!(c.current_frame_len(), None);
}

#[test]
fn loaded_track_decides_seek_and_restart() {
    assert_eq!(LoadedTrack::Nothing.seek_source(), SeekSource::Unavailable);
    assert!(!LoadedTrack::Nothing.has_track());
    assert_eq!(LoadedTrack::File("/a.flac".to_string()).seek_source(), SeekSource::File);
    assert!(LoadedTrack::File("/a.flac".to_string()).has_track());
    assert_eq!(LoadedTrack::Memory(vec![1, 2]).seek_source(), SeekSource::Memory);
    assert!(LoadedTrack::Memory(vec![]).has_track());
}

#[test]
fn track_finished_needs_all_three() {
    assert!(track_finished(true, true, true));
    assert!(!track_finished(false, true, true));
    assert!(!track_finished(true, false, true));
    assert!(!track_finished(true, true, false));
}

#[test]
fn playback_flags_follow_events() {
    let idle = PlaybackFlags { is_playing: false, is_loading: false };
    let loading = flags_after(idle, PlaybackEvent::LoadRequested);
    assert_eq!(loading, PlaybackFlags { is_playing: false, is_loading: true });
    let playing = flags_after(loading, PlaybackEvent::Started);
    assert_eq!(playing, PlaybackFlags { is_playing: true, is_loading: false });
    assert_eq!(flags_after(playing, PlaybackEvent::Paused), idle);
    assert_eq!(flags_after(idle, PlaybackEvent::Continued), PlaybackFlags { is_playing: true, is_loading: false });
    assert_eq!(flags_after(playing, PlaybackEvent::Ended), idle);
    assert_eq!(flags_after(playing, PlaybackEvent::Stopped), idle);
    assert_eq!(
        flags_after(PlaybackFlags { is_playing: true, is_loading: true }, PlaybackEvent::StreamRequestFailed),
        PlaybackFlags { is_playing: true, is_loading: false }
    );
    assert_eq!(flags_after(loading, PlaybackEvent::StreamDecodeFailed), idle);
}

#[test]
fn packet_steps() {
    assert_eq!(read_step(None, 3), PacketStep::EndOfStream);
    assert_eq!(read_step(Some(3), 3), PacketStep::Take);
    assert_eq!(read_step(Some(4), 3), PacketStep::Skip);
    assert_eq!(decoded_step(None), PacketStep::EndOfStream);
    assert_eq!(decoded_step(Some(0)), PacketStep::Skip);
    assert_eq!(decoded_step(Some(1152)), PacketStep::Take);
}
