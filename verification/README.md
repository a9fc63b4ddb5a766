# dash-rs

Data models and (de)serialization for the data formats used by the Geometry Dash servers, written
in Verus with machine-checked contracts.

Layout:

- `src/serde`: RobTop's indexed format (`de`: reading, `ser`: writing objects and requests),
  described by schemas of field indices and kinds (`serde/mod.rs`), with the proof that reading
  back what was written gives the same fields; thunks (`serde/thunk.rs`) for values whose
  processing is delayed.
- `src/model`: levels, songs, creators, comments and users, each with `from_gj_str`, `write_gj`
  and a proof that a written object reads back as itself, for values that can be written
  faithfully: canonical ratings, songs and converted values, values that fit their fields, and
  texts that do not hide the delimiter (`:` for levels).
- `src/request`: the requests sent to the servers.
- `src/encoding.rs`: percent encoding, URL-safe base64 and gzip/zlib, the last two through the
  `base64` and `flate2` crates.
- `src/split.rs`, `src/text.rs`, `src/util.rs`: splitting at delimiters, decimal numbers and small
  helpers.
- `app/`: what works with floating point numbers (converting the coordinates of level objects
  and the song offset, which `src/model/level/section.rs` checks and hands out as text, and a
  level's playing time) and the serde/thiserror support for copies of the library's types.
