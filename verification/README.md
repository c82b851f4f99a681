# deezer_tui

The logic of a terminal music player, verified with Verus: a player that runs in
the background, and a terminal client that talks to it over a socket.

- `src/` is the verified library. `daemon` decides what the player does with
  commands, answers and the clock; `client` what keys, the mouse and new states
  do to the screen; `api` what is asked of the service and what its answers mean;
  `queue`, `fetch`, `storage`, `theme`, `mpris`, `cli`, `spectrum` and `release`
  hold the rules of what their names say.
- `app/` is the program around it: terminal, network, files, audio.
- `tests/` runs the library.

Volumes are thousandths, times are milliseconds unless a name says seconds.
