# radio_check

The verified core of RadioCheck, a push-to-talk dictation tool for sim racers:
it records speech, transcribes it, and types the text into the chat box of the
running simulator.

- `src/` is the library, verified with Verus: the settings model and its
  defaults, shortcut bindings, key names and the keystroke plan that pastes a
  message, log-level bookkeeping, tray-menu and second-launch requests, and the
  steps of the recording pipeline.
- `tests/` exercises the library on concrete values.
- `app/` is the Tauri application around it: windows, tray, global shortcuts,
  keyboard and clipboard access, persistence and logging sinks.
