# orangevault

A Bitwarden-compatible vault server for Cloudflare Workers, with its
decisions verified by Verus.

- `src/` is the verified library: request validation, access control for
  ciphers and organizations, token claims and framing, TOTP and base32,
  sends, the SignalR/MessagePack framing of push notifications, CORS and
  hardening headers, the cron job table, and the key material the operator
  command line registers with. Calls into outside crates (base64, uuid,
  chrono, rand, aes/cbc/hmac/sha2, rsa, rbw, rmpv, serde_json, url) sit
  behind small trusted wrappers whose contracts are stated next to them.
- `app/` is the Worker around it: routing, D1/KV/R2/Durable Object I/O,
  WebCrypto (PBKDF2, RSA signatures, HMAC), serde shapes of the JSON API,
  and the operator command line's argument handling and HTTP calls.
- `tests/` runs the library on concrete values.

Verify with Verus on `src/lib.rs`; `app/` builds with `worker-build`.
