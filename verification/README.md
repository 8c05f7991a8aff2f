# johnny

The logic of a small Discord bot, verified with Verus.

- `src/` is the verified library: log entries and how they read on the console and in
  the terminal panels, the panels' state machines and views, the database flows as
  decisions taken one reply at a time, and the texts and decisions of the commands
  and event handlers.
- `app/` runs the bot: it reads the configuration, talks to Discord, the database and
  the terminal, and asks the library for every decision.
- `tests/` runs the library on concrete values.
