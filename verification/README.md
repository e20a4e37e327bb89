# asyncop

Async operations launched by JSON-RPC calls, and the bounded queue that keeps them until their
results are collected.

- `src/` is the library, verified with Verus.
  - `operation_id`: operation IDs, `opid-` followed by a UUID.
  - `state`: the states of an operation and their names.
  - `operation`: what is recorded of an operation from its launch to its end, and its status.
  - `queue`: the bounded queue. A full queue evicts its oldest finished operation to make room,
    and rejects an insertion if none has finished.
  - `error`, `time`, `text`, `uuid_text`, `json`: errors, points in time, text helpers, UUIDs in
    text, and JSON values.
- `tests/` runs the library on concrete values.
- `app/` runs operations on a tokio runtime and holds the types that go over the wire.

The queue is generic over the handle through which an operation and its task share their record:
the library decides what is recorded and what is evicted, and the caller owns the locks. Laws that
relate several functions are the `law_` proof functions, each beside what it speaks of.

Three things are taken on trust: what `uuid` accepts as a UUID, the shape of the random UUIDs that
it makes, and that a clone of a `serde_json` value is that value.
