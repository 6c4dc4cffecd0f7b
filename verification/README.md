# opi

A pure-Rust Opus decoding library (RFC 6716 as modified by RFC 8251, and
RFC 7845 for the Ogg encapsulation), whose logic is verified with Verus.

## Layout

- `src/ec.rs`: the range decoder (RFC 6716, section 4.1). `DecoderState` is
  its mathematical model; every operation is specified over it, and the laws
  that relate the operations (bit decoding is a symbol decode followed by an
  update, binary decoding is decoding with a power of two, ...) are proved.
- `src/slice_ext.rs`: bounds-checked slice accessors.
- `src/read.rs`: little-endian integers (through `byteorder`) and UTF-8 text
  (through the standard library) read out of byte slices.
- `src/channel.rs`: channel mapping families, layouts and mapping tables
  (RFC 7845, section 5.1.1).
- `src/ogg.rs`: the identification and comment headers of Ogg Opus streams,
  the comment iterator, and the header part of the stream reader.
- `src/silk/`: the SILK packet header, frame header, stereo prediction
  weights and frame type decoding (RFC 6716, section 4.2).
- `src/packet.rs`: the frame sizes and bandwidths that the SILK layer reads.
- `app/lib.rs`: opening an Ogg Opus stream with the `ogg` crate's packet
  reader, and displaying errors.
- `tests/`: the tests; `tests/ec.rs` compares the decoder with an independent
  transcription of the reference implementation's range decoder.
