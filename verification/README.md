# status_page

A self-hosted status page: public service cards with a 90-day uptime
history, incidents and maintenance windows, and an admin area behind a
password and a session cookie. Probes check each service over HTTP or TCP
on its own interval.

Layout:

- `src/` is the library, verified with Verus. It holds the models and their
  status rules, password hashing and the session cookie, the login guard,
  the probe scheduler's registry, the day-by-day history, the overall
  status, the decisions behind every admin form and the import, the
  static-asset lookup and the startup settings.
- `app/` is the server around it: axum routes and handlers, askama
  templates, the SQLite store, the probe tasks, and `main`.
- `tests/` runs the library on concrete values.
