# bundler

Rust side of the SATySFi bundle: lookup of closures that OCaml registered by
name, calls into them that report raised exceptions, and typed wrappers
generated with `ocaml_defs!`.

- `src/` — the verified decisions: which names may be looked up
  (`closure::accepts_name`), which registered values are closures
  (`closure::names_closure`), and how a raw callback result splits into a
  returned value or a raised exception (`callback::classify_call_result`).
- `app/` — the FFI edge: raw pointers, the OCaml runtime, the macros and the
  generated bindings; it calls the decisions above.
- `tests/` — tests of the library on concrete values.
