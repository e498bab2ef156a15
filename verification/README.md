# time_tracker

A terminal time tracker. Periods of work are typed in as
`YYYY-MM-DD HH:MM`, stored in SQLite as `YYYY-MM-DD HH:MM:SS` texts, and
summed over ranges of dates.

- `src/` is the verified library (Verus):
  - `datetime.rs`: dates and date-times as plain values, their validity and
    text forms, the calls into `chrono`, and the order of stored texts;
  - `text.rs`: characters in and out of strings, decimal numerals;
  - `error.rs`: the errors and their user messages;
  - `app.rs`: the state of the application;
  - `events.rs`: what a key press does, the work it asks of the database,
    and the laws of the state machine;
  - `db.rs`: the texts that go into the database and what the rows that come
    out of it make;
  - `ui.rs`: the content of the screen and the placement of the pop-up.
- `app/` is the program around it: the terminal, the event loop, the SQL
  statements, and the drawing.
- `tests/` runs the library against the real outside crates.
