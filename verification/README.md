# pjproject

Rust bindings for pjproject (pjlib, pjmedia, pjsip), split in two:

- `src/` is a library verified with Verus. It holds the logic of the
  bindings over plain values: status codes and errors, time values and
  their normalization, socket addresses and ports, session descriptions
  (SDP), RTP and RTCP packet assembly, WAVE header checks, G.711 expansion,
  and the buffer of the WAV streamer that feeds a media port. Every public
  function has a contract, and the laws that tie the functions together are
  public proof functions next to them.
- `app/` calls the C libraries: it creates and destroys the pjlib, pjmedia
  and pjsip objects, turns the library's values into the C structures and
  back, and performs what the library decides.

`tests/` runs the library on concrete values.
