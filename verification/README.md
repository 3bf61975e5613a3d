# blog_actix

A small blog service (users, posts, comments) whose rules are verified with Verus.

- `src/` — the verified library.
  - `models/database.rs`: `Database`, the three tables held in the order of their
    row ids, with its invariant (ids increase along each table, usernames are
    unique), its specification `Tables`, and the storage primitives (inserting a row
    with the next id, marking a post as published, lookups by key).
  - `models/user_action.rs`, `models/post_action.rs`, `models/comment_action.rs`:
    the blog's queries and operations, each with a contract over `Tables`.
  - `errors.rs`: `AppError`, how database failures map onto it, its message and its
    HTTP status code.
  - `laws.rs`: properties that relate several operations (read after write,
    idempotent publishing, what the listing of posts holds and in which order).
- `app/` — the HTTP server (actix-web) and the SQLite storage (diesel). Each request
  loads the tables into a `Database`, calls the library, and stores the rows that the
  library created or changed, in one transaction.
- `tests/` — tests of the library on concrete values.
