# barflow_controller

A controller for the taps of a bar: a gRPC service that pours a requested
volume from a tap and reports the volume dispensed so far, publishing it in a
Redis cache as the pour goes on.

- `src/` is the verified library (Verus):
  - `config` — the device table and the lookup of a request's controller index;
  - `pour` — the state machine that decides every step of a pour (and of a
    simulated pour), with the laws it keeps;
  - `modbus_helper` — the Modbus channel settings, the ranges read, and what is
    kept of the replies;
  - `redis_connect` — the cache's connection URL and client;
  - `service` — the decisions of the flow and flow-level requests.
- `app/` is the program around it: the gRPC server, reading the TOML
  configuration, the Modbus and Redis I/O, the timers, and the floating-point
  flow arithmetic.
- `tests/` exercises the library on concrete values.

The gRPC messages (`barflow.FlowService` with `Flow` and `FlowLevel`) are
written out by hand in `app/barflow.rs`.
