# solidgate-connector

Signing, request preparation and response handling for the SolidGate payment API,
with contracts proved by Verus.

- `src/signature.rs`: `generate_signature` / `verify_signature`
  (`base64(hex(HMAC-SHA512(secret_key, public_key ++ data ++ public_key)))`).
- `src/api.rs`: `SolidGateApi` (credentials and hosts), the signed request of each
  operation, and the classification of responses.
- `src/model.rs`, `src/subscription/webhook.rs`, `src/webhook.rs`: the API's data types
  and the reading of SolidGate timestamps.
- `src/text.rs`: text helpers used by the above.
- `app/`: JSON forms of the types (serde) and the HTTP calls.
