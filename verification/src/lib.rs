//! Verified core of the multi-test helpers: the IBC-hooks memo handling that
//! derives the intermediary sender of an ICS-20 transfer, and the compilation
//! of Wasm code into a reusable module.
pub mod hash;
pub mod ibc_hooks;
pub mod instance;
