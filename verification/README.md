# lib — a verified A64 SVE / SME instruction decoder

The library decodes 32-bit A64 words of the SVE/SVE2 group (`op0 = 0010`) and
of the SME part of the reserved group (`op0 = 0000`, `word<31> = 1`) into an
`Instruction` (code, mnemonic, up to six operands, address) and renders it as
text. Every function is proved by Verus: it never panics, and its result is
stated exactly.

## What is stated

* `decode::word_form(word, features)` is the instruction a word encodes under
  a feature set. It is assembled from one spec function per encoding family
  (`sve_int::int_form`, `sve_perm::perm_form` / `pred25_form`,
  `sve_fp::fp_form`, `sve_mem::mem_form`, `sve_lut::lut_form`,
  `sme::sme_form`, ...), each written over the bit fields of the word.
* `decode::decode_into` leaves `out` holding exactly `word_form(word, ..)`, or
  a blank instruction when it is `None`; `Decoder::decode`, `decode_into` and
  both iterators state the same for the word at the cursor, together with the
  cursor, address and error bookkeeping.
* `format::FmtFormatter::format` appends exactly `format::insn_text(insn)`;
  `format::lemma_text_of_form` ties the text of a decoded word to its form.

## Layout

* `src/bits.rs`, `src/types.rs`, `src/operand.rs`, `src/instruction.rs`,
  `src/code.rs` — bit fields, registers, operands, the instruction record and
  the code / mnemonic tables.
* `src/features.rs`, `src/error.rs` — feature sets and decoder errors.
* `src/decode/` — the decode tree: `sve/` (integer, permute / predicate,
  floating point, memory, lookup tables) and `sme/` (outer products, tile and
  array moves, ZA loads and stores, the SME2 multi-vector forms).
* `src/decoder.rs` — the streaming `Decoder` over a byte slice.
* `src/format.rs` — text rendering.
* `tests/` — scenario tests on concrete words and tests of the laws.
