# moq_gst

Two GStreamer elements that carry media over MoQ (Media over QUIC): `MoqSrc` subscribes to a
broadcast and turns each of its tracks into a source pad, `MoqSink` publishes the CMAF fragments
that reach its sink pad.

- `src/` is the library, verified with Verus: settings and properties, caps, the catalog's tracks
  and their pads, the timing and flags of buffers, and the sessions of both elements as state
  machines, from what has happened to what is to be done next.
- `app/` is the glue: it performs those actions with GStreamer, the network and tokio, and reports
  back what happened.
- `tests/` runs the library with the crates that it calls.

What the library takes on trust from those crates is in `src/outside.rs`.
