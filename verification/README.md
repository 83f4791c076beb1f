# gztool

A wrapper around [gztool](https://github.com/circulosmeos/gztool) that builds
`.gzi` indexes for gzip data, reads them back and decompresses a range of
bytes with them.

- `src/` is the verified library: zlib's error codes (`error.rs`), gztool's
  verbosity levels (`verbosity.rs`), the access points of an index and the
  walk over them (`index.rs`), and the arguments of one call of gztool's
  `decompress_and_build_index` together with the reading of its result
  (`extraction.rs`).
- `app/` makes the C calls: it opens the memory streams with `libc`, calls
  gztool, frees its indexes, and gives the error types their
  `std::error::Error` impls through `thiserror`.
- `tests/` runs the library on concrete values.
