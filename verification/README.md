# auto_role_bot

A Discord bot that links Discord members to Geometry Dash accounts and keeps
their roles on a Globed game server in step with their Discord roles.

- `src/` is the verified library (Verus): the linking flow, role sync
  requests, the scan of all server members, the watched role list, the
  replies of every slash command, settings parsing, and the text and number
  formatting they rest on. Each public function carries a contract; the
  `law_*` proof functions state properties that span several functions.
- `tests/` runs the library on concrete values.
- `app/` is the program around it: Discord (poise/serenity), the SQLite
  database (sqlx), HTTP (reqwest), JSON (serde) and logging. It performs the
  outside work that the library's decisions ask for and hands the answers
  back.
