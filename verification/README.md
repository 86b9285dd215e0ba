# whirlwin

A keyboard-driven alternative to Alt+Tab for Windows. The verified library
(`src/`) holds the decisions; the program (`app/`) talks to the system.

- `geometry`, `window`: window rectangles without borders, window titles.
- `window_manager`: the state machine that tracks the current window, its
  neighbour in each direction, the next window and the history of windows
  left; every operation returns the system commands it needs.
- `keybinds`: which hotkeys are registered and what each one asks for.
- `events`: which system events and thread messages trigger a refresh.
- `config`: the user's configuration and its default.
- `core_process`: starting and stopping the background program from the
  settings application.
- `laws`: properties that span several operations.
