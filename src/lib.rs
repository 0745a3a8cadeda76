//! A minimal process tracer: the traced-process state machine, the spawn
//! handshake's error-report channel, the operator's command vocabulary and the
//! entry point's argument parsing, each with a checked contract. The program
//! around it performs the system calls and feeds their results back in.

pub mod cli;
pub mod ipc;
pub mod session;
pub mod tracee;
pub mod wait;

mod text;
mod wait_status_bits;
