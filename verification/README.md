# keep_awake

A small tray tool that keeps the computer from locking or going to sleep,
either by asking the operating system to inhibit idle sleep or by nudging
the mouse pointer one pixel and back at a fixed interval.

Layout:

- `src/` — the verified library: settings and their defaults (`config`),
  language choice (`lang`), tray texts and menu (`tray`), notification text
  buffers (`notify`), the sun icon and its ICO encoding (`icon`, `symmetry`), the
  reading of sleep-inhibition replies (`inhibit`), the mouse-nudge loop's
  decisions (`mouse`), the autostart registration steps (`autostart`), and
  the controller that turns menu commands into settings changes and side
  effects (`controller`); `laws` states properties that span them.
- `app/` — the program around it: the tray itself, the event loop, the
  settings file, the system calls and the background nudge thread.
- `tests/` — tests of the library on concrete values.
