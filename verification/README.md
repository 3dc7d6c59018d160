# aviutl2

A library for writing AviUtl2 plugins (filters, inputs, outputs and generic
plugins), with its logic verified by Verus.

- `src/` is the verified library: version checks, wide strings, YC48 and
  pixel conversions, plugin flags and their bit operations, setting items and
  colour codes, image-resource names, effect and module codes, edit-section
  numbers and layer walks, frame and sample decoding, log chunking, the
  project-file framing of serialized data (headers, chunk keys, 4096-byte
  chunks and their reading back), and the checks of cache requests.
  Each public function states its result in `ensures`; the laws that tie
  functions together are public proof functions beside them.
- `tests/` runs the library on concrete values.
- `app/` is the unverified side that faces the host: log sinks and the
  `tracing` integration, `rmp-serde` storage in the project file, error types
  with `Display`, floating-point media formats, shared setting data behind
  locks, and the error dialog. It does not reach the host itself: the plugin
  tables, the host callbacks, and the edit-section and cache calls go through
  the host's C interface crate (`aviutl2-sys`), which this project does not
  include, so `app/` offers the pieces that do not need it and the library
  offers the checks and conversions that those calls use.
