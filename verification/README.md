# polterdesk

A Windows utility that hides the desktop icons (and, optionally, puts the
taskbar into auto-hide) on a desktop double-click or a global hotkey.

- `src/` is the verified library: settings and their loading rules, the
  toggle state machine, taskbar auto-hide control with its persisted
  original state, hotkey masks and keystroke parsing, double-click
  detection, tray menu and tooltip, boot-time readiness polling, and the
  state of the settings window. Every function carries a Verus contract;
  the laws that span several functions are proof functions beside them.
- `app/` is the program around it: Win32 calls, the settings file (serde),
  the GPUI window, threads and the message loop. It performs what the
  library decides and hands back what the system answered.
- `tests/` exercise the library on concrete values.
