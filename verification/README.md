# astria_core (protocol messages, verified)

The protocol messages of the Astria sequencer (genesis state, memos, transactions
and their actions, order books, price feeds) with their protobuf JSON form, written
in Verus.

Each message type has a mathematical view and a spec function `spec_from_json` that
says, for every JSON value, which message it describes or which error refuses it: an
object whose keys each name a field by its JSON name or its protobuf name, at most once,
with numbers of 64 bits as decimal strings or integers, bytes in base64, enumerations by
name or number, `null` leaving an optional field unset. `from_json` is proved to compute
exactly that, and `to_json` is proved to write the object that the protobuf JSON mapping
writes (fields at their default are left out) and to be read back by `from_json` as the
same message.

Layout:

- `src/json.rs`: the JSON values that the messages are read from and written to.
- `src/decimal.rs`: decimal writing and parsing of integers, as `ToString` and
  `FromStr` do it.
- `src/fields.rs`: reading and writing single fields; the calls into `pbjson` (numbers,
  base64) sit here behind trusted wrappers, and decimal writing is verified code.
- `src/lists.rs`, `src/embedded.rs`, `src/foreign.rs`: repeated fields, and messages
  whose definitions lie outside this crate, carried as the JSON objects that write them.
- `src/google/protobuf.rs`: `google.protobuf.Any`, read and written as `pbjson_types` does.
- `src/protocol/`: one module per protobuf package.
- `app/lib.rs`: JSON text in and out, by `serde_json`.
