# blog

A personal blog server. Posts are markdown files with a YAML front matter;
the server lists them, renders them to HTML, counts their views in SQLite and
offers an API guarded by API keys.

- `src/` is the library, verified with Verus: front-matter stripping and
  rendering (`model::markdown`), the post and user records (`model::sqlite`),
  the request logic of each route (`controller`, `app`), errors and their
  HTTP answers (`error`), languages (`i18n`), configuration (`config`) and the
  server state (`state`).
- `app/` is the program around it: environment, files, tracing, the axum
  router, middleware and templates.
- `tests/` runs the library on concrete inputs.
