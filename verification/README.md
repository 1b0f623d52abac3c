# transcript_worker

A live transcription worker: it streams the audio of a media source to a
speech recognition service (Authot or speechmatics) over a websocket and
publishes the transcripts it gets back as EBU-TT Live subtitles.

- `src/` is the verified library: the job parameters and the choice of the
  recognition endpoint, the Authot HTTP requests and websocket address, the
  session opening message, the reading of service messages, the numbering of
  published subtitles, the choice of the audio stream, the audio frame size
  and the retry decisions when the outgoing queue is full.
- `app/` is the worker program around it: threads, the websocket, HTTP,
  JSON (de)serialisation, media frames and the floating point subtitle times.
- `tests/` runs the library on concrete values.
