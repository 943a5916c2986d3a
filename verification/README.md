# vn_connectors

Payment connectors for two Vietnamese gateways, VNPay and MoMo. The library builds and signs the
requests that go to a gateway, takes in its answers, and reads its notifications. Its behaviour
is stated in contracts that Verus proves.

- `src/text.rs`, `src/params.rs`, `src/codec.rs`: decimal numbers, sorted parameter maps,
  hexadecimal, percent encoding, query strings and form bodies
- `src/signing.rs`, `src/clock.rs`, `src/ids.rs`, `src/json.rs`: message authentication codes,
  dates, random identifiers and metadata
- `src/types.rs`: what a payment host asks for and is answered
- `src/vnpay.rs`, `src/vnpay/`: VNPay
- `src/momo.rs`, `src/momo/`: MoMo
- `src/vnpay/laws.rs`, `src/momo/laws.rs`: what holds of several functions taken together
- `app/`: the wire formats, with serde
- `tests/`: examples that run

Functions whose name ends in `_at` take the time of day, and the name of a request, as arguments.
Their namesakes read the clock and draw a random name.
