# pomodoro_timer

A desktop pomodoro timer and count-up timer for Windows: a main window with a timer page, a
pomodoro page, a history page with a calendar filter and a settings page, a tray icon, and a
small always-on-top desktop widget.

## Layout

- `src/` — the library, verified with Verus. It holds the whole state of the program and every
  decision made on it:
  - `model.rs`, `app.rs`: the saved state (presets, activities, history, display settings, the
    count-up timer and the countdown) and what ticking, finishing, skipping and resetting do;
  - `action.rs`, `actions.rs`, `dispatch.rs`: every user action, and what it changes;
  - `runtime.rs`: the interface state that is not saved (open page, drop-downs, inline edit,
    calendar, notices, the widget's look);
  - `drops.rs`: the drop-down lists and what picking an entry does;
  - `host.rs`, `widget.rs`: the heartbeat, the tray menu and the desktop widget's behaviour;
  - `clock.rs`, `text.rs`, `wide.rs`, `color.rs`: dates and the calendar grid, time and
    duration texts, UTF-16 strings for the system, theme colours;
  - `laws.rs`, `invariants.rs`, `calendar_laws.rs`, `date_order.rs`: properties proved of the
    whole.
- `tests/` — tests of the library on concrete values.
- `app/` — the Windows program around the library: the message loop, Direct2D drawing, the
  tray icon, the inline edit control, sounds, dialogs and the settings file (JSON). Sizes,
  positions and colours are fractional and are kept there.
