# Sentinel

Offline-first emergency alerting: NOAA Weather Radio SAME alerts (decoded from
RTL-SDR audio) and, optionally, NWS API alerts are relayed to a Meshtastic mesh
(the required sender) and to best-effort senders (Discord, LXMF, MeshCore),
whose failures never block the mesh and can be spooled and replayed later. An
optional JSON Lines event log feeds a read-only local dashboard.

## Layout

- `src/` is the library, verified with Verus: message chunking, the fan-out
  and its spooling, deduplication, spool and event records and their JSON
  lines, replay of spooled failures, the event log reader and dashboard page,
  NWS API configuration, normalization and polling, source health, the
  senders' command lines and retry pacing, and the command-line plan of which
  senders run.
- `app/` is the program around it: argument parsing, processes, HTTP, files,
  the SAME decoder loop and the dashboard server.
- `tests/` exercise the library on concrete values.

## Collections

Where a map keyed by text is natural, the library keeps a `Vec` instead, with
the map's rule stated in the contracts: the deduplicator's entries (a key and
the time it was recorded, expired ones pruned), the SAME location table (the
later entry for a code wins), the delivery attempts grouped by alert id
(groups in order of first appearance, one per id), and the latest status per
sender. Verus proves little of a `HashMap` or `BTreeMap` keyed by `String`,
so the maps' rules are proved over sequences instead.
