# elevate

The Elevate API lets users sign up, log in, record completed games (timestamped in
milliseconds since the Unix epoch) and read a summary of how many games they have played.

- `src/` is the verified library: the route table and which routes need a
  login (`http`), sign-up records and password checks (`auth`), game rows,
  the summary, and a model (`games_count`) of the count that Postgres computes
  over the stored rows (`game`), random identifiers (`ids`), the Redis
  start-up probe (`redis`) and the settings the application is made from
  (`startup`). Each handler's decisions are functions from what the previous
  step returned to what the handler does next.
- `app/` is the server around it: axum handlers, the axum-login backend,
  Postgres and Redis access, and the serde forms of the library's types.
- `tests/` runs the library on concrete values.
