# ocular

A client library for Cosmos SDK chains whose core is verified with Verus.

## Layout

- `src/` is the verified library: coins and payments, bank send and
  multi-send messages, the arguments of multi-send airdrops, authz and fee
  grant messages and the grant checks, automated transaction files,
  building and signing transactions, the gRPC endpoint cache and its
  failure counting, the connection retry loop, chain registry paths and
  lookups, chain information, and the keyring. Every function there carries
  a `requires`/`ensures` contract that Verus proves. Calls into outside
  crates that compute (prost encoding and decoding, transaction encoding and
  signing, address and denomination parsing, URI and URL parsing, key
  derivation and PKCS#8 encoding, random choices) go through small trusted
  wrappers whose doc comments say what is assumed of them.
- `tests/` exercises the library on concrete values, with the real outside
  crates linked.
- `app/` is the unverified shell around the library: the network and file
  work (gRPC and RPC clients, the GitHub-hosted chain registry, key and cache
  files), async plumbing, serde copies of the library's types, and the error
  type with its `Display`.

## Running

Verus verifies the crate from `src/lib.rs`; the tests run with `cargo test`.
