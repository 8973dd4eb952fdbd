# interactivebackground

The verified core of a desktop application that turns the Windows desktop
into a calm task area: a wallpaper window with task and widget panels, a
control window, and a SQLite store.

- `src/` is the library, written in Verus and verified:
  - `text` — trimming as `str::trim` does, decimal formatting, text comparison;
  - `model` — tasks and their statuses;
  - `settings` — the wallpaper, background, clock and Pomodoro settings, their
    validation and the texts under which their enumerations are stored;
  - `store` — the rows the SQLite store writes and reads, with the proof that
    reading back a written row gives the written value;
  - `desktop_host` — the life cycle of the wallpaper window (wanted, shown,
    closing, attached to the WorkerW layer, raised for interaction, idle);
  - `desktop_integration`, `monitors`, `commands`, `data_migration`,
    `pomodoro_service` — the decisions the native code takes.
- `app/` is the Tauri application around it: windows, tray, SQLite queries,
  file access and the Win32 WorkerW attachment. Widget frames, being
  floating-point fractions of the screen, live there too.
- `tests/` exercise the library on concrete values.
