# nrc

A front end for the Nature programming language, verified with Verus: a lexer, a
recursive-descent parser, and semantic analysis (symbol table, scope analysis, name
resolution and semantic checks), with the driver's configuration logic and the code
generator's naming helper.

## Layout

- `src/` — the verified library.
  - `lexer/` — tokens and the lexer, specified by a relation `lexes` between the source
    text and the tokens (or the lexical error) it yields.
  - `parser/` — the parser. Types, type and interface declarations, Go-style structs and
    generic parameters are specified exactly: spec functions over the token input say what
    each parse function returns and where it leaves the parser.
  - `ast/` — the syntax tree, with models of types as mathematical values.
  - `semantic/` — the symbol table, scope analysis, name resolution and semantic checks,
    each with a contract that says exactly when it succeeds and what it builds; the
    analyzer runs them in order.
  - `llvm_backend/codegen.rs` — generated names and the code generator's position.
  - `lib.rs` — the compiler configuration, targets, and the front end that runs the
    phases above on source text.
- `app/` — the command-line program: argument handling, file I/O, LLVM code generation
  through `inkwell`, and the reference-counting runtime.
- `tests/` — tests of the library.
