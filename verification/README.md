# bijective

Checks that an enum-to-enum `match` is surjective, injective or bijective, for
use by attribute macros (`#[surjective]`/`#[onto]`, `#[injective]`/`#[one_to_one]`,
`#[bijective]`) on functions returning a `match` and on `let _ = match ...;`
bindings. The library is written in Verus and its checks are proved against
their contracts.

Layout:

- `src/model.rs`: what the checks read of each arm of the `match` (guard,
  pattern shape, body path as text and tokens), and the errors with their
  messages.
- `src/validation.rs`: the shape rules on the arms, the search for the first
  repeated output, the arms of the companion `match` (one per distinct
  output), and the enum type of an output path.
- `src/implementation.rs`: what each attribute expands a function or a `let`
  statement to. The expanding functions require a valid mapping, as the
  attributes refuse any other; `expand_function` and `expand_binding_checked`
  answer any item, with the error where it is refused.
- `src/lib.rs`: the attribute functions on `proc-macro2` token streams, and
  their `check_*` forms that answer any input.
- `src/syntax.rs`: the contact with `syn`, `quote` and `proc-macro2` (trusted
  wrappers, the names of their results, and the visitor that finds the
  outermost `match`).
- `src/laws.rs`: properties of the checks over all mappings.
- `app/lib.rs`: the entry points on the compiler's `proc_macro` token streams,
  for a crate built as `proc-macro`.
