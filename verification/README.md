# rym

A compiler front end and back end for the Rym systems language — lexer,
parser, semantic checks, lowering to an SSA-style IR and LoongArch64
assembly generation — written in Verus, with each stage stated against a
mathematical model and proved.

- `src/` — the verified library. Each stage has a specification module
  (`lex_spec`, `parse_spec`, `sema_spec`, `lower_spec`, `codegen_spec`)
  beside the executable code it describes (`lexer`, `parser`, `ty_check`,
  `lower`, `codegen`); `lower_jumps` follows where the jumps of lowered
  code go; `laws` holds the properties that span operations.
- `tests/` — tests of the library on concrete programs.
- `app/` — the command-line driver (`rymc`): file I/O, the assembler and
  linker invocation, and error reporting.
