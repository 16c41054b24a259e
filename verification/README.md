# instrument

Order admission for an agricultural futures instrument. Brokers send signed
orders over HTTP; the instrument checks each one and forwards the accepted
ones to its matching engine.

- `src/` — the verified library:
  - `auth.rs`: hexadecimal decoding and HMAC-SHA256 signature checks.
  - `brokers.rs`: the directory of brokers and their keys.
  - `order.rs`: orders, positions, resting orders, quotes.
  - `flow.rs`: screening of a request, then a state machine that asks for
    the stored data it needs (positions, balance, quote, margin, resting
    orders), decides, verifies the signature and dispatches.
  - `flow_laws.rs`: properties of every step of that machine.
  - `outcome.rs`: the answers and their HTTP statuses.
  - `config.rs`: the settings the instrument runs with.
  - `connection.rs`: the real-time feeds.
- `app/` — the actix handlers, MongoDB reads, environment loading and the
  floating-point margin computation around the library.
- `tests/` — tests of the library.
