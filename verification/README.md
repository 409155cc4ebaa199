# Gupt

The verified core of Gupt, an offline-first, end-to-end encrypted messenger
that moves messages over Bluetooth LE, Wi-Fi Direct, a delay-tolerant mesh and
an internet relay.

## Layout

- `src/` — the library, written in Verus and proved against its contracts:
  - `common`, `text`, `ident`, `time`, `entropy`, `codec`: identifiers,
    instants, decimal, hexadecimal and base64 text, randomness;
  - `crypto`: XChaCha20-Poly1305, Ed25519, X25519, Argon2id, HKDF-SHA256 and
    SHA-256 through the RustCrypto and dalek crates, with the library's logic
    proved over named results of those primitives;
  - `identity`: creating, unlocking and locking the identity vault, sessions;
  - `battery`, `network_monitor`, `routing`: the adaptive choice of transport;
  - `queue`, `mesh`, `sync`, `trust`, `file_transfer`, `discovery`: queuing,
    store-and-forward, retries, peer trust, file transfers, nearby peers;
  - `notification`, `storage`, `transport`, `ffi`: notifications, local
    storage records, transport events, the engine the apps drive;
  - `backend`: the server's authentication decisions, relay admission,
    request models and database settings.
- `tests/` — tests of the library on concrete values.
- `app/` — the program around the library: the Axum server, the PostgreSQL
  and SQLite access, JWT signing, asynchronous transports.

Fractions that the platform reasons about (routing weights and factors,
backoff growth, jitter, the trust carried in peer records) are fixed-point
numbers in parts per million; the trust engine's own scores count in units
of 10^-18, so that they stay strictly between 0 and 1; a routing score, a
factor times a weight, is in units of 10^-12. Retry delays are carried in
billionths of a millisecond and rounded down to whole milliseconds once.
