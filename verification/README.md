# rig_streaming

Streaming completions of a language model, verified with Verus.

- `src/streaming.rs`: the streamed response. It takes in what polling the
  provider's stream gave, says what becomes of it, and gathers the message.
- `src/stdout.rs`: what a terminal session shows, and when it calls a tool.
- `src/progress.rs`: the mathematical model that the contracts speak of.
- `src/laws.rs`: what holds of whole streams, cancelled or not.
- `src/transcript.rs`: what a whole terminal session writes, calls and logs.
- `src/message.rs`, `src/completion.rs`, `src/one_or_many.rs`: the data.
- `src/trusted.rs`: what is believed of `futures`, `serde_json` and `std`.
- `app/`: asynchronous streams, traits and the terminal printer on top of it.
