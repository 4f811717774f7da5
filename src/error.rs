use vstd::prelude::*;

verus! {

/// The kinds of failure that the query builder and its dispatcher report.
#[derive(Debug, Clone, PartialEq, Eq)]
pub enum BallistaError {
    /// An expression refers to a field that its input does not have.
    SchemaError(String),
    /// The operation is not supported by any backend.
    NotImplemented(String),
    /// A setting needed for execution is missing or cannot be read.
    ConfigurationError(String),
    /// The local execution engine failed; its message is kept as it was.
    DataFusionError(String),
    /// The network client failed; its message is kept as it was.
    TransportError(String),
}

} // verus!
