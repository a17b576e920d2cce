use vstd::prelude::*;

verus! {

/// The ways in which driving a container can fail.
#[derive(Clone, Debug, PartialEq, Eq)]
pub enum ToolsetError {
    /// The inspected container declares no exposed ports at all.
    ExposePortError,
    /// Ports are exposed, but none of them has a usable host mapping.
    ContainerPortMappingInspectionError,
    /// A command retrieval container exited without printing its commands.
    FailedBenchmarkCommandRetrievalError,
    /// The benchmark tool's output lacks a metric, or holds one that is not a number.
    BenchmarkOutputParseError,
    /// A call to the container engine failed; the engine's message.
    EngineError(String),
}

} // verus!
