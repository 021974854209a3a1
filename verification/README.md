# rhazel

An AArch64 assembler library: instruction encoders, a code buffer, branch
labels and a typed mnemonic front end, verified with Verus.

## Layout

- `src/inst.rs` — one encoder per instruction form. Each is a function from
  operand fields to the 32-bit word, with a `returns` clause that gives the
  word as a bit template; logical immediates are found by search and their
  contract names the least field that decodes to the value.
- `src/block_of_code.rs` — a fixed-capacity buffer of instruction slots with
  an append cursor and a base address. Its contract speaks of the slots, the
  cursor and the base (`writes`, `emits`).
- `src/label.rs`, `src/code_generator.rs` — labels with pending branches,
  and `CodeGenerator`, whose every mnemonic appends exactly the word of its
  encoder (or fails without writing when the buffer is full). Binding a
  label fills in every branch that waited for it.
- `src/code_generator/*.rs` — the mnemonic groups: 32-bit guest memory
  access, data processing, scalar floating point and SIMD vectors.
- `src/reg.rs`, `src/cond.rs`, `src/enums.rs` — register, condition and
  system-operand types. Each operand trait states, per type, the encoding
  choice it makes (`spec_sf`, `spec_size`, `spec_q`, `spec_kind`, and
  `spec_double` in `scalar_fp.rs`), so a mnemonic's contract fixes the word
  for concrete register types.
- `app/lib.rs` — host support that the library does not verify: mapping
  executable memory at a buffer's base address and installing its code.
- `tests/` — encoding tests against known words, and tests that run
  assembled sequences on a small interpreter.
