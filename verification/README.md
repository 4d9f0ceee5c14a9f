# klineitem

K-line (candlestick) bars kept in per-instrument MySQL tables named
`` `<db>`.`tbl_code_<suffix>` ``.

- `src/` — the verified library: table-name templating
  (`util`), the statements that read and write the tables together with the
  values bound to them (`util`, `item`, `query`), the one-line text of a bar
  (`item`), the registry of table namers (`registry`), and the text helpers
  they rest on (`text`). Date-times and decimals are held as plain fields
  (`datetime`, `decimal`); their text comes from chrono and rust_decimal.
- `app/` — the database side: the process-wide registry behind a lock,
  conversions to and from chrono, rust_decimal and sqlx values, and the
  asynchronous queries.
- `tests/` — the library's tests.
