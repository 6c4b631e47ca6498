//! Host-side controller for a snapshot-reset fuzzing VM.
//!
//! The controller shares a fixed-layout auxiliary page, an input region, a
//! coverage bitmap and a feedback page with the VM, and drives each fuzzing
//! iteration as a one-byte request/response rendezvous over a control socket.
//! This crate holds the verified core: the byte-level layout of the shared
//! pages, the configuration model, the VM command line, the per-iteration
//! decision machinery and the working-directory plans. The process, socket
//! and file-system plumbing around it lives with the embedding application.

pub mod aux;
pub mod bytes;
pub mod config;
pub mod decimal;
pub mod exec;
pub mod exitreason;
pub mod ijon;
pub mod nyx;
pub mod params;
pub mod regions;
pub mod workdir;
