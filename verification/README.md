# auto_targeting

Verified core of an auto-targeting companion computer for an ArduPilot
vehicle: the commander's state machine, watchdogs, command rate limiter and
oscillation guard, the operator and bus consoles, the scenario runner's
checks, the inference-bridge framing, frame codecs, safety verdicts, health
and update decisions. Every function in `src/` carries a Verus contract and
is proved; the laws the system promises (ABORT is always reachable, expired
watchdogs stay expired until fed, passing commands are spaced by the rate
interval, a steady yaw never counts as oscillation, and so on) are public
proof functions.

Layout:

- `src/` — the library (Verus). One module per concern: `state_machine`,
  `watchdogs`, `rate_limiter`, `anti_loop`, `commander`, `repl`,
  `bus_console`, `scenario`, `bridge`, `imaging`, `visual`, `detector`,
  `fc`, `safety`, `health`, `ota`, `report`, `text`, `types`, `config`,
  `cli`, `bus`.
- `tests/` — tests of the library on concrete values.
- `app/` — the program around it: command line, configuration files,
  logging, the console loop, the mock flight controller, the scenario
  runner's I/O, the inference-bridge socket, and the floating-point parts
  (PID, camera transform, geofence distances, non-maximum suppression).
