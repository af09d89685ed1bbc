# oebb_monitor

A terminal board of live ÖBB departures and arrivals. The library under
`src/` holds the program's state and rules, each function with a contract
proved by Verus; `app/` is the terminal program around it (terminal setup,
the input loop, the WebSocket connections, the config file, drawing with
ratatui).

Outside crates the library calls, each behind a small trusted function whose
contract names or states what the call returns: `chrono` (RFC 3339 parsing,
time differences, local time), `serde_json` (the station table) and `ratatui`
(popup layout).
