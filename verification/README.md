# ritmo

A catalogue of books and of the contents they hold (novels, stories,
essays), with the people, languages, places and tags linked to them.

- `src/` is the library, verified with Verus: the data entry screens and
  widgets of the terminal interface (how each key changes them and what
  they show), the navigation between windows, the search filters and the
  SQL they build (typed text only ever reaches the parameters), the web
  forms and widget requests, and the conversions between records and their
  stored columns.
- `tests/` runs the library on concrete values.
- `app/` is the program around it: the SQLite queries, the web server of
  the editing widgets and the terminal loop (`ritmo tui`).
