# schultz

A handshake peer for the Casper network, with its logic verified by Verus.

## Layout

- `src/` — the verified library.
  - `bytesrepr` — the `bytesrepr` word encoding, its laws (length,
    injectivity, read-back of a write), and the trusted calls into
    `casper-types` for single words.
  - `primitives` — the chainspec cost tables (opcode, storage, host function
    and system contract costs), their defaults and encodings, host function
    gas, the validator configuration and the ping nonce.
  - `network` — handshake validation, the bookkeeping of awaited and connected
    peers as a state machine with its laws, and message routing.
  - `utils` — the SHA-512 digest type and `OptDisplay`.
  - `error`, `dirs` and the command-line types in `lib.rs`.
- `app/` — the node program: command line, directories on disk, chainspec
  loading, length-delimited framing over TCP, message (de)serialization and
  the event loop.

Peers are connected over plain TCP: TLS (the node's certificate, the TLS
handshake and the validation of the peer's certificate) is not implemented.
The chainspec hash sent in handshakes is the BLAKE2b digest of the chainspec
file's bytes.
- `tests/` — tests of the library through its public interface.
