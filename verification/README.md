# facetime_ids_quic

The decision logic of the FaceTime IDS logical datagram channel, verified with Verus.

- `src/decimal.rs`: decimal text of numbers and its reading back.
- `src/text.rs`: small string helpers over std.
- `src/error.rs`: the error type and its messages.
- `src/identity.rs`: the IDS account identifier, the identity, TLS settings,
  local address and the assembly of a configuration.
- `src/bundle.rs`: decoding of command-207 participant data (property lists
  are read with the `plist` crate).
- `src/transport.rs`: the inbound receive loop as a step function from event to
  action, with its ordering and counting laws.
- `app/`: the asynchronous connection and receiver traits, the loop that awaits
  them, `thiserror` errors and std socket-address conversion.
