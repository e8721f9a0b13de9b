# handy — verified core of the sttts dictation client

The library (`src/`, verified with Verus) holds the rules of the dictation
client:

- `dictation` — the persisted trigger kinds, their codes, the double-tap
  detector (a state machine over a nanosecond clock) and the decision taken
  for each keyboard event, with the laws the detector keeps.
- `header` — HTTP header values made through `reqwest::header::HeaderValue`,
  kept together with the text they were made from.
- `remote_transcribe` — the batch request: endpoint URL, `Authorization`
  header, multipart text fields and the endpoint error text.
- `wav` — int16 little-endian PCM bytes and the 44-byte WAV header, with
  read-back laws.
- `remote_stream` — the WebSocket endpoint, the server message rules, the
  session outcome the reader delivers and the writer's frames.
- `stream_session` — a live streaming session over std channels and atomics:
  the frame each call queues, what `finalize` answers, and the law that a
  streamed recording goes out as its PCM frames and then one empty frame.
- `transcription` — the settings the manager reads, the language hint, the
  output-language evidence and the post-processing decisions.

`app/` is the shell around it: the keyboard listener thread (`handy_keys`),
the HTTP (`reqwest`) and WebSocket (`tokio-tungstenite`) clients, float
sample quantization, and the Tauri glue. `tests/` runs the library.
