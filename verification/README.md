# warcrwlock

The logic of the `warcrwlock` attribute, verified with Verus. The attribute
turns a struct into a core type and a wrapper that shares the core behind
`Arc<RwLock<..>>`, and a trait into an abstract type that holds any
implementation of it behind a shared pointer.

Layout:

- `src/` is the verified library. It works on models of the Rust items it
  reads (`model`, `structure::StructModel`, `traits::TraitModel`,
  `implementation::ImplModel`), holding as token text what the expansion looks
  at, and gives back the generated code as text, or the refusal with the
  message the attribute reports.
  - `names`, `text`: the isolated-name search and the text operations.
  - `structure`, `traits`, `implementation`, `base_methods`,
    `wrapper_methods`: the expansion of structs, traits and `impl` blocks.
  - `extend`: the expansion in which `X` becomes `XBase` behind a wrapper `X`,
    with its `impl` blocks split between the two, and whole modules expanded
    item by item. Generated statements, types and files are checked with the
    `syn` parser.
  - `shared`, `wrapper_model`, `possible_struct`, `test_in_model`,
    `test_impl`: the shapes that the expansion gives, written by hand over
    `vstd`'s verified lock.
- `app/` reads `syn` items into the models, calls the library, turns its text
  into tokens, reads the crate's root file, and numbers the generated modules.
- `tests/` runs the library on concrete items.
