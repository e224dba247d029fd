# safe_core

Authentication responses an authenticator sends to apps, their C-facing
representation, files of the network file system and the client's error type,
written in Verus with their contracts proved.

- `src/resp.rs`: `IpcResp`, `AuthGranted`, `AppKeys`, `AccessContInfo`, the
  conversions to and from `src/ffi.rs` and `client::MDataInfo`, and the
  sealing of an app's access container key; the round-trip laws.
- `src/sodium.rs`: the `sodiumoxide` calls (key generation, SHA-256,
  secretbox sealing), each behind a trusted function. Hashing and sealing
  are named as functions of their arguments; key generation states how each
  public key relates to its secret key and nothing of the random bytes.
- `src/nfs.rs`: `File` and its `FileMetadata`.
- `src/errors.rs`: the client error and how command errors and the errors of
  other crates become it.
- `app/lib.rs`: the error with its `thiserror` messages, conversions from the
  network's and `sodiumoxide`'s own types, and debug text.

Cryptography comes from `sodiumoxide`, the crate `rust_sodium` was forked
from, with the same API: `rust_sodium`'s build script downloads libsodium,
while `sodiumoxide` builds the libsodium sources it ships with.

`rmp` is named in Cargo.toml only to hold it at 0.8.10: `sn_messaging`'s
`rmp-serde` 0.15 calls functions that later `rmp` releases removed.

The library's types have no `Debug` where they hold secret keys, so that key
bytes never reach debug output; `File` has none either, its debug text being
`app::describe_file`.
