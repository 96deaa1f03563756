//! Orchestration core of a zero-knowledge proof toolchain: the decisions that
//! the five pipeline commands (compile, compute-witness, setup,
//! generate-proof, export-verifier) take before and between the calls into
//! the compiler, the interpreter and the proving backends.
//!
//! - `input`: which source the witness arguments come from, how raw text
//!   becomes argument tokens, and the arity check on flat inputs.
//! - `signature`: the typed signature of a program and its flattened size.
//! - `scheme`: the closed set of proving schemes, looked up by name, and the
//!   verifier's interface dialect.
//! - `pipeline`: the commands, the artifacts each reads and writes, and the
//!   scheme resolution that precedes any file access.
pub mod error;
pub mod input;
pub mod pipeline;
pub mod scheme;
pub mod signature;
