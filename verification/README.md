# gprocess

A daemon that starts processes on behalf of remote clients and relays
signals, waits, and reads and writes on their standard streams.

- `src/` is the library, verified with Verus: the message types (`api`), the
  framing of messages on a connection (`frame`), the decisions of a
  connection (`network`), the process table
  (`process_manager`), the handling of each request (`handler`), the
  conversions of wire numbers (`utils`, `signal`), and the properties that
  tie these together (`laws`).
- `app/` is the daemon around it: the TCP listener and connection loop, the
  protobuf encoding of the messages, the spawning of children, the signals,
  and the reads and writes on their pipes.
- `tests/` runs the library on concrete values.
