//! Data-transport and invocation layer for a sandboxed function-execution
//! host.
//!
//! Independently packaged function instances call one another across process
//! and container boundaries without a central broker.  The crate models and
//! verifies the decision logic of that layer: resolving a sibling's route
//! from bundle state (`data_hose`), the dual-transport protocol and its
//! retry discipline (`remote_transfer`, `runtime`), the host/guest memory
//! bridge, copies between modules loaded in one engine (`engine`), and the
//! fixed-width result encoding spoken on the rendezvous socket (`codec`).
//!
//! Filesystem walks, socket I/O and the execution engine itself live outside
//! this crate; they hand the functions here plain values (byte strings,
//! integers, bundle descriptions) and take plain values back.

pub mod bytestr;
pub mod codec;
pub mod data_hose;
pub mod engine;
pub mod oci_utils;
pub mod remote_transfer;
pub mod runtime;
