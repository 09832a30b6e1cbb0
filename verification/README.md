# spartan_pq

The Greyhound lattice polynomial commitment engine of Spartan-PQ, with its
placeholder engines, written in Verus.

- `src/` is the verified library: the encoding of field elements as constant
  ring elements (`encoding`), the ring parameters and layout
  (`greyhound_ffi`), the engines (`greyhound_pc`, `stub_pc`,
  `msvc_greyhound_pc`), the transcript model (`transcript`), errors, the
  Keccak-256 wrapper (`keccak`) and byte encodings with the `bincode`
  wrappers (`serial`).
- `app/` binds the Greyhound C library, converts `ff` field elements to their
  byte representations, draws random blinds, does the field arithmetic of the
  placeholder engines' blinds, and holds serialisable copies of the types.
- `tests/` exercises the library on concrete values.
