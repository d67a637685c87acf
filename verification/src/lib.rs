//! A task runner for one project layout.
//!
//! It builds a WebAssembly bundle with `wasm-pack` or serves the `static`
//! directory with `miniserve`, and installs either tool on demand. This
//! crate holds the decisions: how the command line is read, which command
//! a mode stands for, what the child's search path is, how the outcome of
//! a subprocess is classified, and what is done next. Spawning processes,
//! reading the environment and printing are left to the caller.

pub mod cli;
pub mod command;
pub mod exit;
pub mod outcome;
pub mod search_path;
pub mod session;
pub mod text;
pub mod transcript;
