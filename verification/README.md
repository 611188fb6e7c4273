# shiguredo_svt_av1

An AV1 encoder around [SVT-AV1](https://gitlab.com/AOMediaCodec/SVT-AV1), whose
decision logic is verified with Verus.

- `src/` is the verified library: the codec capability list, the encoder
  configuration and its checks, plane sizes, the values written into SVT-AV1's
  configuration, and the state machine of an encoding session (which frames are
  taken, what the picture header holds, when the end of the stream may be sent,
  when SVT-AV1 is asked for packets and which answers become frames).
- `app/` makes the calls into SVT-AV1 and drives the session; it needs the SVT-AV1
  C library and the bindings generated from its headers at build time.
- A session runs in steps around each call into SVT-AV1: `encode` (or `finish`)
  checks and says what to send, the caller sends it, and `complete_encode` (or
  `complete_finish`) records the answer; the report steps require that something
  was handed out to send. `packet_request` says whether to ask SVT-AV1 for a packet
  (held back only in CBR, where the request would block) and `next_frame` turns the
  answer into a frame.
- `tests/` exercises the library on concrete values.
