# muku

The verified core of a resident desktop task manager that is driven by a
local language model.

- `src/` — the library, verified with Verus:
  - `text` — decimal rendering and parsing of integers, string helpers;
  - `model` — the selectable models, reading the stored selection, the
    model server's command line;
  - `prompt` — the system prompt and the messages sent to the model;
  - `client` — normalising the model's structured reply;
  - `status` — the start-up sequence of the model server and the download
    computations;
  - `notifier` — reminder settings, the daily window, due-date and periodic
    reminders;
  - `window` — the show/hide toggle and its global shortcuts.
- `tests/` — tests of the library, including comparisons with chrono.
- `app/` — the desktop shell (Tauri), HTTP, database and file access around
  the library.
