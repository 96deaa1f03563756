use vstd::prelude::*;

verus! {

/// Structured failure of a pipeline stage. A thin front end renders it.
pub enum PipelineError {
    /// A file could not be opened, read or written.
    Io { path: String, cause: String },
    /// The compiler reported one or more diagnostics, all kept.
    Compile(Vec<String>),
    /// A persisted artifact is truncated or of a foreign format.
    Decode(String),
    /// The number of flat inputs differs from the program's argument count.
    Arity { expected: usize, found: usize },
    /// An argument token is not a field element in decimal; holds the token.
    Parse(String),
    /// Structured (ABI) input was requested from inline arguments.
    UnsupportedCombination,
    /// The interpreter met an undefined operation.
    Execution(String),
    /// The proving-scheme name is not one of the known variants.
    UnknownScheme(String),
}

} // verus!
