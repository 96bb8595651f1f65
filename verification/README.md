# magit

A Matrix bot for GitHub: it receives GitHub webhooks over HTTP, checks
their signatures, and tells the configured Matrix rooms about issues, pull
requests, pushes, stars and pings; in rooms it answers `!github party <msg>`
and `!github create issue <title> [<body>]`.

- `src/` is the library, verified with Verus: request checks and signature
  validation (`from_data`), routing events to rooms and the message texts
  (`routes`), the dynamic format strings of the configuration (`strfmt`),
  bot commands (`cmd_request`), relaying to Matrix (`relay`), the
  configuration (`lib.rs`) and the named values of the GitHub API (`api`).
- `app/` is the server around it: Rocket for HTTP, serde for JSON payloads
  and the configuration file, matrix-sdk for Matrix and reqwest for the
  GitHub REST API.
- `tests/` runs the library on concrete values.
