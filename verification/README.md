# smolbin

A small pastebin that also shortens links, with pastes that expire.

- `src/` is the library, verified with Verus: paste types and their stored
  codes (`datatypes`), links (`text`), reading an expiry such as `1w 3d` and
  the moment it runs out (`expiry`), the home page's form (`form`), creating
  a paste under a fresh random identifier and answering lookups (`api`), and
  what the pages show (`pages`).
- `app/` is the web server around it (leptos, axum, sqlx on SQLite, tokio):
  it runs the store operations that the library asks for and renders the
  pages.
- `tests/` runs the library on concrete values.
