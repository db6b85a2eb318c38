# dragon_node

Request handling of the Dragon node's gRPC service, verified with Verus.

- `src/` is the library. Each remote procedure has a request step, which
  checks the request and gives the backend call to make, and a reply step,
  which turns the backend's answer into the response or an error status.
  Identifiers are parsed and formatted by the `uuid` crate.
- `app/` holds the transport side: handlers over `tonic` requests that run
  the backend calls (RAM-Lake store, model manager) under `parking_lot`
  locks, convert JSON results and floating-point figures, and map the
  library's statuses to `tonic::Status`.
- `tests/` exercises every step on concrete values.
