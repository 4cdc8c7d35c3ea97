# Velocity

The front end of Velocity, a small language with `let`/`let mut` bindings,
integer, floating-point, string and boolean values, arithmetic, `print` and
`if` expressions, written in Rust and verified with Verus.

A program goes through these stages, each a module of the library in `src/`:

- `lexer`: characters to tokens (`tokenize`, `scan_token`, `get_next_token`),
  specified by `lex_step` / `lex_all`.
- `parser`: tokens to statements by recursive descent (`Parser`,
  `parse_program`), specified by `parse_stmt_spec` / `parse_all_spec`.
- `analysis`: type inference and checking (`infer_type`,
  `try_check_stmt_types`), specified by `infer_spec` / `check_spec`.
- `lower`: statements to VIR, a block-structured SSA form (`try_lower_program`,
  `lower_stmt_to_vir`, `lower_expr_to_vir`), specified by `lower_program_spec`.
- `vir`: the VIR data types and the builder methods of `VirFunction`.
- `verify`: the VIR checker (`check_function`, `check_vir`), which reports
  the first fault, and `verify_function`/`verify_vir`, which report it as
  text; `wellformed` proves that it accepts exactly the well-formed functions.
- `messages`: the text of every error, as the `message` methods give it.
- `ppv`: the VIR pretty printer, line by line.

`grammar` holds the syntax tree and tokens, `names` a small name map, `text`
number syntax and decimal text, `laws` the properties that span functions,
`typed_lowering` the proof that straight-line code which type checks lowers
without error, and `lowering_shape` what lowering keeps and the shape of a
lowered `if` and block.

`app/main.rs` is the command-line driver: it reads `./main.vl`, prints each
stage, and reports errors.
