# time_tracking

A daily time-tracking tool whose core is verified with Verus. Each day is a
`YYYY-MM-DD.md` file of time ranges and notes; the tool opens the day's file
in an editor, then reports the day or the week in one of three formats.

## Layout

- `src/` — the verified library.
  - Dates and weeks: `date`, `time_utils`, `calendar`, `clock`.
  - Days and weeks of data: `day`, `data_svc` (the weekly rollup),
    `day_cache`, `file_utils`, `web_data` (the web API's records).
  - Reports: `display`, `formatters`, `report`.
  - Settings and start-up: `config`, `cli`, `editor`, `theme`,
    `tui_context`.
  - The terminal UI's logic: `keymap` and `keymap_laws`, `mode`, `event`,
    `app` (key routing and the state machine), `project_list`,
    `week_list`, `bar_chart`, `layout`, `help_popup`, `terminal`, `width`.
- `tests/` — tests run against the compiled library.
- `app/` — the `ttcli` program: argument parsing, the config file, reading
  and writing day files, running the editor, printing reports.

Proof functions named `law_*` state properties of the library as a whole,
such as that Ctrl-C quits from every screen or that a superseded load is
never applied.
