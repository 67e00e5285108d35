# vollminputd

A voice input daemon for Linux: a `TOGGLE` written to a FIFO starts a
recording, a second one stops it, the audio is sent to a speech recognition
service, and the text lands on the clipboard.

The library (`src/`) holds the daemon's logic, verified with Verus:

- `state`: the state machine `Idle -> Recording -> Transcribing -> Idle`.
- `app`: the daemon core. Each event yields either the effects or the one
  piece of outside work it waits for (start or stop the capture, copy the
  text); the outcome of that work comes back through a second call. Polling
  reports the recording time once a second and signals the time limit.
- `audio`: WAV framing of the PCM, sample packing, and input device
  selection.
- `asr`: the recognition request body (WAV, Base64, JSON) and the reading of
  the reply for the native HTTP service; the session messages and transcript
  collection of the real-time service; the polishing request of the
  two-step engine.
- `config`: settings from the environment's values, with their defaults.
- `cli`: command line decisions, the usage text, the device listing, and
  FIFO commands.
- `notifier`, `clipboard`, `gui`: notification records and timeouts, the
  clipboard handle, and the window's view model.
- `text`: decimal numbers, number parsing, trimming and comparison of text.

`app/` is the program around it: the event loop, the FIFO, cpal capture,
HTTP and WebSocket requests, `wl-copy`, and desktop notifications.
