# write_gate

The write path of a TWS connection, with its decisions verified by Verus.

A connection may have a *write gate*: a policy that every write asks, under
the connection's writer lock, before its first byte. The write gate says to
write, to refuse, or to come back later. This library decides what a write
does with those answers, with its deadline, with the lock and with a socket
that closes under it. It also says what a gate is told of a message.

- `src/write_gate.rs`: what a gate is, and what it is told (`describe`)
- `src/write.rs`: one write, as a machine of actions and events
- `src/write_laws.rs`: what holds of every write
- `src/line.rs`: what holds of many writes on one socket
- `src/closing.rs`: closing and reconnecting a socket
- `src/registry.rs`: which channel a request's answers go to
- `src/framing.rs`, `src/bytes.rs`: length-prefixed frames
- `src/messages.rs`, `src/decimal.rs`, `src/proto.rs`, `src/requests.rs`:
  message ids, and the order id inside a protobuf request
- `src/connection.rs`: the managed accounts and the connection's metadata
- `src/gates.rs`, `src/clock.rs`, `src/errors.rs`: ready-made gates, time,
  errors
- `app/`: the async transport over tokio that performs the actions

The library holds no socket, no lock and no clock. Instants are nanoseconds
since an origin that the application chooses.

What is not proved but taken from `prost` is in `src/proto.rs`: two functions,
each with what is claimed of it.
