# clone_cw_multi_test (verified core)

`src/` is verified with Verus:

- `ibc_hooks`: recognising an IBC-hooks memo on an ICS-20 packet, deriving
  the intermediary sender (Keccak-256 of the tagged channel/sender text),
  rewriting the packet's receiver, and the laws that hold of it.
- `hash`: the Keccak-256 digest, computed by the `sha3` crate.
- `instance`: compiling Wasm code into a module with CosmWasm's compiling engine.

`app/` holds what talks to the outside: JSON decoding of memos with
`cw_serde` types, a chain `Api`'s address humanisation, the gRPC channel to a
remote chain, and Wasmer instances built over the VM's backend traits.

`cw-orch`, which the original uses for its gRPC channel, is not in Cargo.toml:
with it the dependency lock went over the package limit of this build, so
`app/channel.rs` names it but does not type-check here. The original's own
`keccak256` helper lives in a file that was not available; `hash::keccak256`
takes its place, computed with the `sha3` crate.
