# streaker

The OPES Unite streak program: members scan QR codes at access nodes once a
day, build a streak, climb the buckets of the rewards program and mine at the
bucket's ratio. A missed day costs a bucket per day missed.

## Layout

- `src/` is the library, verified with Verus:
  - `rewards_program`: the bucket table and the buckets of a streak;
  - `instant`: UTC instants, days, and spans as the date-time library counts them;
  - `streak_logic`: the daily evaluation of a member's streak;
  - `attribution`: reading the attributions of access nodes, and what a scan
    does to a member's streak;
  - `scan_session`, `member`, `jwt`, `sessions`, `ws`: the backend's daily scan
    sessions, members, token claims, open websockets and websocket messages;
  - `client`: the web client's state machine (events in, actions out), its
    token store, API outcomes, flash message, countdown, menu and check-in
    links.
- `app/` is the program around it: the web service (tokens, attributions,
  websocket), the database queries and migrations, the static site, and the
  yew components of the web client. It hands the library plain values and
  carries out what the library decides.
- `tests/` runs the library on concrete values.
