# fleet_telemetry

Telemetry for a simulated vehicle fleet.

- `src/` is the verified library: the fleet's starting messages and the
  endless round-robin iterator over them (`fleet`), the message and timestamp
  types (`telemetry`), decimal rendering for sensor ids and keys (`decimal`),
  the aggregator's once-a-minute update schedule per vehicle (`aggregator`),
  the keys and window of the per-vehicle recent-message lists (`recent`), and
  the dashboard counter state (`dashboard`).
- `app/` runs the services around it: the queue producer, the aggregator that
  writes to Redis and Postgres, and a sample track printer; it holds the JSON
  forms of the messages and the floating-point motion of the vehicles.
