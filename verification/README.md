# tamagotchi

A verified library for a family of Gear programs: a virtual pet that its
owner feeds, entertains, puts to sleep, approves others for and passes on,
and a factory that creates pet programs and keeps their addresses.

- `src/` is the library, verified with Verus.
  - `actor.rs`: 32-byte actor identifiers.
  - `scale.rs`: the SCALE encoding of a text, and the call into
    `parity-scale-codec` that produces it.
  - `tamagotchi.rs`: the pet's state, its messages and replies, and
    `handle`, the decision for one incoming message (next state, request to
    send first, reply).
  - `factory.rs`: the factory's state, the program creation it asks for,
    and how it numbers and records created pets.
  - `laws.rs`: properties across messages, proved.
- `tests/`: tests of the library on concrete values.
- `app/`: the programs themselves (message loading, block time, sends,
  replies, SCALE derives) on top of `gstd`.

Left out: the battle program, and the automatic pet's gas reservations and
periodic state checks (`CheckState`, `ReserveGas`). Both rest on interface
definitions (the battle's types and constants, the automatic pet's
reservations and need detection) whose sources are not available, so
neither the library nor the programs contain them.
