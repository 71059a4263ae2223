# clipboard_paste

The decisions behind pasting into another application's window on Linux, written
in Verus: which window is the target, which key chord it wants, how the chord is
sent without leaving a key down or pasting twice, and when the window system has
settled.

- `src/focus_manager` - the saved target window, its hint, pattern matching, the
  search for a window by title, and window activation.
- `src/paste_sync` - the cached X11 connection and the focus and clipboard
  barriers.
- `src/input_simulator` - the backends: XTest, uinput and xdotool, and the order
  in which they may run.
- `src/text`, `src/x11`, `src/machine` - what these share.
- `tests` - scenarios with concrete values.
- `app` - the X11, kernel, process and clock side. It performs the actions that
  the library asks for and hands the answers back.

The library functions are steps on plain values. A step takes an event and gives
an action; a longer course is a small state machine with a `ready` condition that
its constructor establishes and every step keeps. Durations and times are
nanoseconds. The functions named `law_*` state what holds of whole courses.
