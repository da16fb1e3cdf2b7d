# openfoodfacts

A command-line client for the Open Food Facts API, whose logic is a library
verified with Verus.

- `src/` — the library: the JSON values the commands work on (`json`), the
  `--fields` filter and its laws (`output`), the client's base URL, user agent
  and status handling (`client`), error messages (`error`), the requests and
  results of `products get`, `products search` and `facets list`, with the
  state of fetching all pages of a search (`commands`), and text helpers
  (`text`).
- `app/` — the program: argument parsing with clap, HTTP with reqwest on
  tokio, JSON parsing and printing with serde_json.
- `tests/` — tests of the library on concrete values.
