# sink_formatter

Chooses the formatter of a sink from its declaration (format, encoding, key encoding) and builds
it with its key and value encoders. The library is written in Verus; every function with a body
states what it does in its contract, and the contracts are proved. One function of std is trusted:
`str::to_lowercase`, in `src/text.rs`. How a formatter turns changes into messages is left to those
who implement `SinkFormatter`: `format_chunk` is declared without a contract.

Append-only and upsert formatters take any encoders that implement `EncoderBuild`. An encoder says
in `Encoder::start` and `Encoder::step` how it is built, and the contracts of the formatters speak
of those; the five encoders of the library are among them.

A build needs work that is done elsewhere: schemas are fetched over the network, and Protobuf and
Avro encoders check their schemas themselves. So a build runs in steps. `SinkFormatterImpl::new`
starts it; where it needs such work it hands out a `Call`, and `SinkFormatterImpl::resume` goes on
with the `Reply`.

- `src/catalog.rs`, `src/options.rs`: the declaration of a sink
- `src/error.rs`, `src/text.rs`: rejections and their messages
- `src/host.rs`: calls, replies, and the types of the values that pass through unopened
- `src/encoder.rs`, `src/*_encoder.rs`: the encoders and their builds
- `src/formatter.rs`, `src/sink.rs`: the formatters, the selection among them, and their builds
- `src/outcome.rs`: a whole build described at once, with the proof that the steps come to it
- `src/laws.rs`: what holds of the library as a whole
- `app/`: runs builds on an async backend
