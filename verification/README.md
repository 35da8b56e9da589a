# telemetry_lab

Small OpenTelemetry services (plain and JSON logging, OTLP log and metric
export, a Prometheus scrape endpoint, and a dice-rolling HTTP service) whose
decisions are written and proved in Verus.

- `src/` is the verified library: dice handlers (`dice`), the measurements each
  request takes and the laws they keep (`metrics`), the dice service's handlers,
  which measure a request's arrival before answering it (`service`), the scrape service's routing
  and replies (`scrape`), exporter configuration (`config`), log-line formatting
  (`logline`), decimal spelling (`decimal`), string equality (`text`), and the
  thin trusted wrappers around `rand` (`random`).
- `app/` runs the services: it wires OpenTelemetry, hyper, axum and the loggers,
  performs the measurements the library plans, and serves.
- `tests/` exercises the library on concrete values.
