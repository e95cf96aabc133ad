# arel

A SQL statement builder: a model's table is queried, inserted into, updated or
deleted from by describing conditions, projections, groupings, orderings, limits and
rows as JSON values, and the statement is rendered as SQL text, with its `?`
placeholders kept apart from their values or written in.

The library under `src/` is verified with Verus. Its contracts state, over a
mathematical model of JSON values and of SQL pieces (text plus prepared values), the
exact SQL that every builder call leads to and the error that refuses a statement.
`src/laws.rs` proves how the pieces compose: rendering joined pieces is joining their
renderings, later limits, offsets, joins and projections replace earlier ones, a
second build gives the same SQL, and raw conditions keep their values apart.
Names are quoted as the model's dialect quotes them: between backticks for MySQL, in
double quotes for SQLite (where the whole row is selected as a bare `*`). The columns
of an insert and the key selected by the subquery of an update or delete stay between
backticks for every dialect.

- `src/json.rs`, `src/text.rs`, `src/results.rs`: JSON values, text helpers.
- `src/collectors/`: SQL pieces and their rendering.
- `src/statements/`: the clauses (select, where, group, having, order, limit, offset,
  lock, join, insert, update).
- `src/table/`: the table builder and its select, insert, update and delete managers.
- `src/visitors/`: the assembly of whole statements.
- `src/associations.rs`: keys, join tables, joins and selects of associations.
- `src/records.rs`: field to column mapping, changed attributes, and the statements
  that saving or deleting a record sends.
- `src/generators.rs`: the names of migration files.
- `src/methods.rs`: table and column names.

`app/` holds what talks to the outside: the `arel` command line, conversions from
`serde_json`, models named by their Rust types, and running statements through `sqlx`.
