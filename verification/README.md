# blitz

An interpreter for a small BASIC dialect, written in Verus and proved
against its contracts.

A program goes through three stages, each a module of the library:

- `parser`: text to a syntax tree (`ast`). The grammar is written as
  relations over the characters (`expr_at`, `stmt_at`, `node_at`, ...);
  every tree the parser returns is described by them.
- `compiler`: syntax tree to an intermediate program (`il`). Variables are
  resolved to globals or stack slots, operators to their implementations by
  operand types, and casts are inserted; `compiles_program` states the
  result exactly, and `well_formed` proves that every compiled program only
  refers to table entries that exist.
- `interpreter`: runs the intermediate program on a stack machine with a
  step budget. `semantics` defines what each statement and expression does
  as a relation between states; the interpreter is proved to follow it.

The runtime library that programs call lives in `builtins`, `ops` and
`stdlib` (random numbers, pixel buffers, images, the window and the clock).
The window system and floating-point arithmetic are reached through the
`Host` and `FloatOps` traits; `app/` implements them with minifb and `f32`
and holds the command-line program.
