# warb

Rust bindings for Blackmagic RAW decoding on Linux, with the decisions the
bindings make proved in Verus.

- `src/` is the verified library: the SDK's FourCC tags (`format`), HRESULT
  classification and rendering and the error type (`error`), the layout of a
  processed image buffer (`image`), clip path checking (`path`), and what a
  synchronous decode concludes from the SDK's completion events (`decode`).
- `app/` holds what talks to the SDK: the `cxx` bridge to the C++ shim, the
  RAII handles (`Codec`, `Clip`, `Frame`, `Job`, `ProcessedImage`), the
  `Callback` plumbing and the synchronous `Decoder`, which hands every
  decision to the library.
- `tests/` exercises the library on concrete values.
