# lol_accept

A tray helper that accepts League of Legends ready checks through the League
Client's local API.

- `src/` is the verified library: reading the client's credentials from its
  command line (`platform::lcu_auth`, `cmd`) or lockfile (`accept`), parsing
  the gameflow phase (`lcu`), the acceptor's control loop as a state machine
  with its laws (`acceptor`), judging the run-at-startup entry
  (`platform::startup`), the tray menu's state (`tray`) and the channel to the
  acceptor (`app`). Character-level string operations with their meaning are
  in `text`; the `regex` search is in `pattern`.
- `app/` is the program around it: the PowerShell query, HTTP requests, the
  registry, the tray icon and the thread that runs the acceptor's state
  machine.
- `tests/` runs the library on concrete values.

The acceptor's "dodge lobby" request (`lcu::lobby_dodge_url`) uses the
client's `/lol-login/v1/session/invoke` call with the `teambuilder-draft`
`quitV2` method. This endpoint is a choice of this crate; the client does
not document a dedicated lobby-dodge call.
