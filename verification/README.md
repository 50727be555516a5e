# ytplayer

The core of a desktop player for YouTube audio, with proved contracts.

- `src/queue.rs`: the play queue (`QueueManager`) with its mathematical
  model (`QueueView`); every operation states its effect as a transition
  of the model.
- `src/queue_laws.rs`: properties across operations: no repeated ids from
  adding, removal keeps the current track, forward-then-back, shuffle on
  and off restores the order, reordering follows the current track.
- `src/audio.rs`: the pure parts of playback: the sample cursor of the
  decoder, PCM decoding, cutting samples for a seek, the play/pause and
  seek decisions, and the command lines of yt-dlp and ffmpeg.
- `src/player.rs`: the playback thread as a model of commands and
  their outcomes (`after_event`), with laws on stop, seek and track end.
- `src/text.rs`: decimal notation of integers.
- `src/shuffle.rs`: the call into `rand` that shuffles the queue.
- `app/`: the async shell: the queue behind a tokio mutex, the audio
  thread with rodio, symphonia and reqwest, and the events for the window.

`Cargo.toml` does not list `tauri`, which `app/` uses for its window
events: it brings several hundred packages of its own and needs the GTK
system libraries. `rodio` needs the ALSA system library to build.
