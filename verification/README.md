# nmea

Reading and writing NMEA 0183 sentences, verified with Verus.

`parse_str` and `parse_bytes` read a sentence (`$GPGLL,...*hh`): they check
the frame, the length and the checksum, then read the data fields of the
sentence's type into a value of that type. `generate_sentence` writes such a
value back as a sentence. Every reader and writer carries a contract that
states exactly what it gives for every input, and `roundtrip.rs` proves that
what is written reads back as the value it was written from.

Values are kept exactly as a sentence writes them: a number is the literal
of the field, a time is hours, minutes and the literal of the seconds, a
position is whole degrees and the literal of the minutes.

## Layout

- `src/parse.rs`: the frame of a sentence, its checksum, and the dispatch
  to the parser of each sentence type.
- `src/generate.rs`: the `GenerateNmeaBody` trait and `generate_sentence`.
- `src/sentences/`: one module per sentence type, each with its grammar as a
  spec function, its parser, its writer and the proof that the writer's
  output reads back.
- `src/text.rs`, `src/strings.rs`, `src/position.rs`, `src/names.rs`: fields,
  number literals, times of day, times remaining, dates, positions and text
  fields, read and written.
- `src/readback.rs`, `src/roundtrip.rs`: the read-back lemmas and the
  round-trip law over all sentence types.
- `src/bounded.rs`: the fixed-capacity strings and vectors of `arrayvec` and
  `heapless` that the data types hold, with the contracts of the calls made
  on them.
- `app/`: conversions to and from `f64`, `chrono::NaiveTime`,
  `chrono::NaiveDate` and `chrono::Duration`, and the reading of a DSC
  position's parts as degrees.
- `tests/`: the test suites.
