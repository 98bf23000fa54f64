# netplay

Netplay sessions for an emulator's command line. A guest joins a room on a netplay server and
waits for the game to begin; a host opens a room, waits for a player and begins the game.

* `src/` is the library, verified with Verus. `join` and `host` hold the two sessions as state
  machines: each takes an event and gives the next action, until it asks for the game to be
  started or gives up. They rest on `message` (what is sent), `auth` (how requests are signed),
  `reply` (what answers mean), `wait` and `lobby` (waiting for a message, waiting for a player),
  `settings` (what a room's features mean for the game), `error` (how failures are reported),
  `url`, `text` and `string_map`.
* `app/` performs the actions: it reads the ROM, talks to the server over a WebSocket, turns
  messages into JSON and back, and starts the emulator.
* `tests/` runs the library on examples.

The proof functions whose names begin with `law_` state what holds of the sessions as a whole.
