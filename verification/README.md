# demopay

A verified model of the DemoPay payment connector: how payment, capture,
refund and status requests are addressed and built, how the merchant's
credentials become headers, and how DemoPay's replies become router data.

- `src/amount.rs`: minor-unit amounts and their decimal string form, with
  the proof that the string denotes the amount.
- `src/enums.rs`, `src/errors.rs`, `src/router_data.rs`, `src/request.rs`:
  the router's data that the connector reads and fills in.
- `src/webhooks.rs`: incoming webhook requests and what a connector can
  make of them.
- `src/connector_template/demopay`: the wallet connector (`Demopay`).
- `src/connectors/demopay`: the card connector (`DemoPay`) and its
  tokenization and payment bodies.
- `src/laws.rs`: properties that span several functions.
- `src/test_data.rs`: the payments used to exercise the wallet connector.
- `app/`: JSON forms of the bodies and the glue that reads HTTP replies.
