//! Boot firmware logic for a virtual computer: it finds a bootable filesystem, reads
//! `/init.wasm` from it in chunks and hands the bytes to the execution engine, all through the
//! host's one-call-at-a-time interface.
//!
//! - `cbor`: decoding and encoding of CBOR item headers, the host's wire format.
//! - `args`: the encoded arguments of the `open` and `read` calls.
//! - `boot`: the boot state machine, one step from a state and the host's answer to the next
//!   state and the one command the host must carry out.

pub mod args;
pub mod boot;
pub mod cbor;
