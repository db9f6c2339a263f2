# cex_ws

A verified protocol layer for centralized crypto-exchange WebSocket feeds
(Deribit, Gate.io, HTX, Hyperliquid, OKX) and the request-signing and naming
rules of a few REST connectors (HTX signing, Deribit, Gate.io, Kraken,
KuCoin): the endpoint and body of each order, batch, amend, position
change, cancel, funds-history, ledger and sub-account request, the reports
and records read back, and the paging of Kraken's trade history.

Every function in `src/` except the small trusted wrappers around outside
calls (marked `#[verifier::external_body]`, listed below) is checked by
Verus against its contract: which
channel a stream subscription maps to, the exact JSON text of subscribe,
unsubscribe, ping and login frames, how incoming frames are classified
(data, pong, acknowledgement) and which registry entry routes a data frame
back to its stream kind.

Layout:

- `src/common/` — shared types, JSON values and their compact text, text
  helpers, topic registries with `*` patterns, sorted parameter lists,
  form-urlencoding / Base64 / HMAC-SHA256, clock readings, order and
  position requests as plain values (`orders`), funds history (`funds`).
- `src/<exchange>/` — one module per exchange: `protocol` (WebSocket frames,
  topics, registry), and where present `auth`, `connector`, `websocket`.
- `tests/` — scenario tests, run with the real outside crates.
- `app/` — glue to `serde_json` values and `tokio-tungstenite` messages.

Outside calls sit behind small trusted wrappers whose contracts state what
the crates and std document, or name the result where it cannot be stated
in a few lines; Verus believes these contracts without checking them:
chrono (clock readings and their UTC text), flate2 (gunzip), url's form
serializer, hmac with sha2 (HMAC-SHA256), and `str::to_uppercase` and
friends. Base64 is written and proved here.

Why these crates: chrono, flate2 and url are the crates the exchanges'
connectors use. `hmac` and `sha2` provide HMAC-SHA256, which the signing
code needs and which the connectors took from a shared helper that is not
part of this library. `base64` is used only by the tests, as a reference
for the verified encoder. serde_json and tokio-tungstenite serve `app/`.
