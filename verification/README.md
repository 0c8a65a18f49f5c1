# gate_opener

The decision logic of a solar-powered ESP32 driveway gate opener, verified with
Verus, and the firmware around it.

`src/` is the verified library:

- `pure` — status codes and their names, the reading of the limit switches and
  the obstacle beam, the median of the battery samples.
- `parse` — unsigned decimal numbers as configuration values carry them.
- `state` — the state shared by the tasks: the single command slot (the last
  command wins), status, obstacle and fault flags, battery level, link state.
- `config_storage` — the runtime configuration: build-time defaults, values
  loaded from non-volatile storage, changes that take effect only once written.
- `http` — API-key authentication, the configuration query (split, percent
  decoding, validation), applying a configuration update, the reported settings.
- `homeassistant` — the retained MQTT messages, the discovery configurations,
  the announcements on every broker (re)connect, incoming broker events.
- `gate` — the opening and closing sequences as a state machine polled every
  100 ms, with its laws (fail-open closing, single retry of the open pulse,
  refusal to close on a broken beam, battery lockout, interruption by a newer
  command, progress of every motion).
- `telemetry` — when to reconnect the WiFi link, what goes out every telemetry
  interval (availability, status, obstacle, battery) and the battery report.

`app/` is the firmware: peripherals, WiFi, MQTT client, HTTP server, OTA and the
floating-point battery percentage, all calling into the library for every
decision.
