# noor_rtc

The verified core of a WebRTC voice and screen-sharing client.

- `src/` is the library, checked by Verus: the engine's session state (peers,
  held signals, reconnect decisions), each peer connection's decisions, the audio
  jitter buffer, H.264 framing between AVCC and Annex-B, signal messages, device
  and stream configuration choices, sample layout conversions, and the screen
  capture settings.
- `tests/` runs the library on concrete values.
- `app/` is the glue the verifier does not see: serde copies of the library's
  types, conversions from the WebRTC stack's types, host I/O, floating-point
  steps, and the asynchronous engine loop that drives the verified session.
