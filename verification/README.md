# sqll

A verified interface to SQLite, written in Verus.

SQLite itself is reached through the `rusqlite` crate, with a bundled build
of the library. Every call into it goes through `src/engine.rs`, whose
functions are trusted: their contracts say only what the `rusqlite` source
shows. Everything above them is proved:

- `connection.rs`, `options.rs`: opening databases, preparing statements,
  busy handling.
- `batch.rs`: texts of several statements, run one after the other; a
  batch records the answers it gave as it is asked for statements.
- `statement.rs`: stepping, binding and reading. The current row is read
  from SQLite as the statement steps onto it and held as plain values, so
  that every column read is checked and decoded by verified code. The
  parameters handed to SQLite are tracked as a map from index to value.
- `ty.rs`, `from_column.rs`, `row.rs`, `sink.rs`: reading columns and rows
  into Rust values, with the exact result or error of each read stated.
- `bind.rs`: binding Rust values and tuples to parameters.
- `fixed.rs`, `value.rs`, `code.rs`, `error.rs`: the value types.
- `derive.rs`: the rules by which `Bind` and `Row` are derived for a
  struct.
- `archive.rs`: where the entries of a source archive are extracted to.
- `laws.rs`: properties that relate several parts, such as that the cell
  recorded for a bound value, when read as a column, decodes to that value.

Floating point numbers are held by the bits of their encoding; binding a
floating point number is not offered.

`app/` holds the program that fetches the SQLite source and generates
bindings, and the code generator for the derives; both call into the library
for their decisions.
