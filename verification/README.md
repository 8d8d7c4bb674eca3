# tx3_lang — semantic analysis of Tx3 programs

The library resolves every name of a Tx3 program's syntax tree in the
scope where it is used, records on each node that opens a scope the scope
it opened, and reports in order every name that the program or one of its transactions defines twice,
every name that does not resolve and every name that resolves to the
wrong kind of symbol.

Layout of `src/`:

- `ast.rs` — the syntax tree, symbols and spans.
- `scope.rs` — scopes: tables of names nested in one another, and name
  resolution.
- `model.rs` — the mathematical model: each node, symbol and scope viewed as
  a ghost value (`Seq<char>` for strings, `Seq` for vectors, `Map` for a
  scope's table).
- `copy.rs` — copies of nodes (`Clone`), each with the view of its source.
- `report.rs` — errors and the report that gathers them.
- `semantics.rs` — what analysis does, stated over the model.
- `analysis.rs` — the `Analyzable` trait, its implementations and `analyze`,
  each proved to do what `semantics.rs` states.
- `laws.rs` — properties proved for all inputs: how binding and resolution
  relate, how reports combine, which errors analysis reports (duplicate
  definitions of exactly the names defined twice, and names that do
  not resolve), that it leaves every looked-up name resolved when it
  reports nothing, that it always completes, and that it changes nothing
  but symbols and scopes.
- `unresolved.rs` — that every name analysis looks up and cannot resolve is
  reported, with its name and span.
- `reanalysis.rs` — that analysing an analysed program again reports the
  same errors.

`app/` holds copies of the error types that carry `thiserror` and `miette`
derives, with conversions in both directions, and the std traits
(`Display`, `Error`, `FromIterator`) on its copy of the report.
