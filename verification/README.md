# lib — SPA PODs, verified

The wire representation of SPA PODs, the values of PipeWire's native
protocol, written in Verus.

- `src/mem`: bytes, the `AsBytes`/`AsBytesMut` traits (the bytes that stand for
  a value, and overwriting them), and access markers.
- `src/pod`: the header, the kinds, the primitive PODs (bool, id, int, long,
  rectangle, fraction, fd, pointer, none, and float and double held by
  their bits), their padded bodies, arrays of
  primitives (`SpaSlice`), and NUL-terminated strings (`SpaStr`). Headers and
  arrays can also be decoded in place, as mutable views (`SpaHeaderMut`,
  `SpaSliceMut`) whose writes land in the buffer they were decoded from.
- `tests/`: tests on concrete values.
- `app/`: what the verifier does not take: floating-point values, file
  descriptors taken from the operating system, `CStr` conversions, and the
  debug output of headers.

Integers are little-endian. Decoding functions state exactly which bytes give
which value or which error; the laws (header and array round trips, fraction
arithmetic and order, kind round trips) are public proof functions.
