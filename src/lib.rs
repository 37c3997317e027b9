//! Building virtual-machine disk images by driving an unattended installation
//! inside a short-lived emulated machine.
//!
//! The library holds the decisions: which names a sandbox hands out, which
//! channel names are acceptable, the emulator's argument vector, how a race
//! between channel connections and process exit resolves, how a finished
//! process is classified, and the order of the build pipeline. The program
//! around it performs the file, socket and process work that these decisions
//! describe.
pub mod text;
pub mod channel;
pub mod error;
pub mod exit;
pub mod sandbox;
pub mod qemu;
pub mod negotiation;
pub mod pipeline;
