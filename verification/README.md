# move_assembler

A disassembler and assembler for Move bytecode whose core is verified with
Verus. A compiled module or script is turned into a JSON listing in which every
instruction is a line of text (`LdU8(7)`, `VecPack(3, 2)`), and a listing is
turned back into a compiled unit.

## Layout

- `src/` — the verified library.
  - `text.rs`: the character classes `\w`, `\d`, `\s` and decimal numerals.
  - `u256.rs`: 256-bit operands and their decimal numerals.
  - `bytecode.rs`: instructions, their text, and the proof that reading the
    text of an instruction gives the instruction back.
  - `model.rs`: a plain-value model of compiled modules and scripts.
  - `listing.rs`: disassembling a module or script into its listing and
    assembling it back, with the proof that assembling a listing gives the
    unit back.
- `tests/` — tests of the library on concrete values.
- `app/` — the command-line tool: reading and writing files, the JSON form of a
  listing, and the conversions to and from the types of `move_binary_format`,
  which also parses, writes and verifies the binary format.
