# groovy

The logic of a terminal music player, verified with Verus.

- `src/` is the library: the interface's state machine (`app`), the
  directory browser with its listing order (`browser`), the playlist
  scanner's rules (`library`), the saved settings (`config`), the player
  thread's decisions (`player`), time spans (`timing`) and the geometry and
  text of the transport bar (`ui`). Every function carries a contract that
  Verus proves, except the small wrappers marked `external_body` around
  std and ratatui calls (string and path helpers, the wall clock, the
  layout solver), whose contracts are trusted. The laws stand as proof
  functions.
- `app/` is the program around it: the terminal, key and mouse events, the
  audio thread, the settings file and the scanning of folders. It performs
  the effects that the library asks for and hands the outcomes back.
- `tests/` exercise the library on concrete values.
