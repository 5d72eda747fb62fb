# openscq30_a3954

The state update packet of the Soundcore A3954 earbuds, in Verus: its byte
layout, a parser and a serializer, each with a contract, and the laws that
relate them.

- `src/state_update.rs`: the packet, `take` (read from bytes), `body` (write
  to bytes), `command`, `Default`, and the specification of what a read
  accepts and yields.
- `src/laws.rs`: where each field stands in the body; reading a written body
  gives the packet back; writing a read packet puts every known field back.
- `src/structures.rs`, `src/firmware_version.rs`, `src/button_configuration.rs`:
  the field types and their byte forms.
- `src/bytes.rs`: byte helpers.

The tests under `tests/` run the library on packets that earbuds sent.
