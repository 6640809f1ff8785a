# sourcestats

The SourceStats daemon receives encrypted reports from game servers and
records the kills they describe in PostgreSQL.

`src/` is the verified library:

- `buffer` — the `bytes::BytesMut` buffer, its contents and the methods used.
- `wire` — big-endian integers (`byteorder`), with their round-trip lemmas.
- `packet` — the packet frame (key id, nonce field, data) and its round trips.
- `stream` — a connection's buffers: framing of the received bytes, the
  queue of bytes to write, and the readiness of interest.
- `crypto` — ChaCha20-Poly1305 keys, sealing and opening (`ring`).
- `codec` — decoding a packed Cap'n Proto player update: `capnp` reads the
  message once and hands over the data sections and map texts; the fields
  are taken out of the data sections at the schema's offsets.
- `message` — message types, decrypting and decoding messages, encrypting
  them.
- `player_update`, `models` — the data carried in messages and database rows.
- `listener` — the event loop's decisions (event work, socket errors).
- `worker` — the work on one packet as a state machine over database
  answers.

`app/` is the daemon: sockets and the event loop (`mio`), the worker
threads (`rayon`, `crossbeam`), the database (`diesel`, `r2d2`) and the
Cap'n Proto encoding of player updates (`capnp`).
