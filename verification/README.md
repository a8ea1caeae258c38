# audiocaptor

The verified core of AudioCaptor, a portable Windows recorder for the
microphone, the system output (loopback), or a mix of both.

- `src/` is the library, checked by Verus: profiles and their validation,
  settings and their migration between format versions, the recording
  session (start, pause, resume, stop and the recorded duration), the hotkey
  and tray decisions, the mixer's pause/resume/warm-up control and the
  number of samples it takes from each source, sample layout (interleaving,
  mono to stereo, frame-by-frame mixing) and PCM packet decoding.
- `app/` is the Tauri application around it: commands, threads, WASAPI
  capture, resampling, gains and clipping (floating point), WAV files,
  notification sounds and the settings file.
- `tests/` exercises the library on concrete values.

Gains cross the library as the bit patterns of their `f32` values, and clock
readings as nanoseconds on one monotonic clock read by the application.
