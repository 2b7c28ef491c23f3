# strop

Strop, the *st*ochastic *op*timizer: a library for generating assembly-language programs that
compute a given function, by a random search or a brute-force search. Its instruction
representations, decoders, fixups and disassemblers, its static analyses and its machine models
are written in Verus and carry machine-checked contracts.

## Layout

 * `src/` — the verified library.
   * `m6502/` — the MOS 6502 back-end (instruction encodings decoded by the `mos6502` crate,
     disassembly, pruning of the search, and a run loop that steps the crate's CPU over a plain
     model of its registers and memory).
   * `m6809/` — the Motorola 6809 back-end, with the laws of its fixup in `settle.rs`; its
     stepping, encoding and disassembly take the instruction's length and decoded text as
     arguments, since the `emu6809` crate that gives them is not available here.
   * `m68000/` — the Motorola 68000 back-end (decoding and disassembly by the `m68000` crate,
     a verified memory, the loading of subroutines and the decisions of the run loops, and the
     pruning over the decoded operands).
   * `machine.rs`, `machine/` — models of the 6502 subset, the KR580VM1 and the STM8 in which
     each register and memory byte may be unknown.
   * `dataflow.rs`, `static_analysis.rs`, `generate.rs`, `data.rs`, `hamming.rs`, `functions.rs`,
     `i80.rs`, `text.rs` — analyses, constraints, parameter values and helpers.
 * `tests/` — tests run against the compiled library.
 * `app/` — a small program that searches for 6502 programs and lists pruned 68000
   instructions; the floating-point fitness functions, the loops that step the `m68000` crate's
   CPU, and the conversion of its decoded operands into the library's, live there.
