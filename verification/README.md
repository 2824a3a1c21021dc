# nemotron-asr

Verified session logic for streaming speech recognition with the Nemotron
ASR engine.

- `src/latency.rs`: latency modes and their attention right contexts
  (0, 1, 6, 13 lookahead frames).
- `src/config.rs`: the cache configuration of a stream and the chunk sizes and
  latency it implies (80ms per encoder frame, 1280 samples per frame at 16kHz).
- `src/backend.rs`: the device table the engine reports, lookup by index and
  the list of present devices.
- `src/text.rs`: concatenation of texts, NUL-free C-string text, and lossy
  UTF-8 decoding of the engine's text bytes.
- `src/session.rs`: model contexts and streams. The engine performs the work;
  these functions take its answers and keep the transcript, which is always the
  concatenation of the texts returned since the stream was opened or reset.
- `src/transcribe.rs`: WAV format checks, model download addresses and cutting
  audio into stream-sized chunks.
- `app/lib.rs`: the error types with `std::error::Error` and `Display`.
