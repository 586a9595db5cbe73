# rhyperliquid

A client library for the Hyperliquid exchange, written in Verus: the request
payloads of the info and exchange endpoints, EIP-712 and L1 action signing,
websocket subscription bookkeeping, the command line arguments and the state
of a terminal market viewer, each with a contract that Verus proves.

## Layout

- `src/` — the verified library.
  - `api/` — info request payloads (`info.rs`), exchange actions and their
    signing (`exchange.rs`), websocket subscriptions (`subscription.rs`),
    JSON payload values and request validation (`request_util.rs`), responses.
  - `signature/` — Keccak-256 and EIP-712 hashing (`eip712.rs`), wallets,
    ECDSA signing and the L1 action hash (`sign.rs`).
  - `client/` — the client configuration and its builder.
  - `types/` — request, response and websocket types; decimals.
  - `chain.rs` — address checksums and validation.
  - `cli/`, `tui/` — command line arguments; the market viewer's state,
    transitions and screen contents.
  - `utils/` — byte and hexadecimal encodings.
- `tests/` — tests of the library, several against `alloy` as a reference.
- `app/` — the runtime: HTTP and websocket transport, the clock, msgpack and
  JSON wire forms, serde forms of the info responses and their lowering into
  the library's types, the signing key from the environment, and the command
  line.

Calls into `alloy` (hashing, signing, recovery, checksums) and `rust_decimal`
(parsing and rounding) stand behind small trusted wrappers whose contracts name or state
what the call returns.
