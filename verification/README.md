# parakeet-cpp

Bindings to parakeet.cpp, a ggml-based speech recognition library for NVIDIA
Parakeet and Nemotron models, split in two:

- `src/` — the verified library (Verus): error messages, the checks made before
  each native call (ABI version, NUL bytes, sample count), how native strings
  become text or errors, and `common_prefix_len`, the character-safe prefix
  diff that streaming sessions use to compute deltas.
- `app/` — ordinary Rust: the C ABI declarations and calls, the owned native
  context, the floating-point `Word`/`Transcript` types, the `StreamSession`
  trait, and the `Display`-capable error type.
- `tests/` — tests of the library.
