# help desk bot

A Telegram bot that serves an FAQ as a grid of menus and data entries kept in
a Redis cluster, with likes, view counters and a "leave feedback" flow.

- `src/` is the verified library (Verus): the names of the store's entries,
  the MD5 key hashes in callback data and how callback data is read back,
  grid keys as paths, how menus and data entries are rendered into text and
  inline keyboards, the settings and their defaults, the checks of the grid
  data directory, and the update handlers as state machines (`flow`,
  `callback_flow`, `message_flow`, `legacy_flow`) whose actions are store
  queries, Telegram requests and timers.
- `app/` drives those state machines: it polls Telegram, performs each
  action with `teloxide-core` and `redis`, and hands the outcome back.
- `tests/` runs the library on concrete values.
