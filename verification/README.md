# lazymc

`lazymc` puts a Minecraft server to rest when idle, and wakes it up when players
connect. It stands between clients and the server: it answers status requests
while the server sleeps, starts the server when a player joins, and relays
connections once the server is online.

## Layout

- `src/` is the library, verified with Verus: the Minecraft wire format (VarInts,
  packet frames, compression), the server state machine (start, stop, sleep,
  kill timeouts), the status answered to clients, routing and join decisions,
  bans, whitelist, `server.properties` rewriting and reading, RCON preparation,
  and the text helpers these rest on. Each public function states its result in
  its contract; laws that relate several functions are public proof functions.
- `app/` is the program around the library: command line, configuration file,
  files of the server directory, network connections, the server process and
  signals.
- `tests/` runs the library on concrete values.
