use vstd::prelude::*;

verus! {

/// The failure classes of the benchmark engine.
#[derive(Clone, Copy, Debug, PartialEq, Eq, Structural)]
pub enum BenchError {
    /// The record source could not be reached, or a backward walk step failed.
    SourceUnavailable,
    /// The dictionary trainer could not derive a dictionary of the requested
    /// size from the given samples.
    InsufficientSamples,
    /// The metrics sink rejected or could not receive a measurement.
    SinkUnavailable,
    /// A feed message could not be safely interpreted: an unexpected topic,
    /// or a payload that does not decode as the claimed object.
    ProtocolViolation,
    /// A training window of zero blocks was requested.
    EmptyWindow,
    /// A compression context could not be constructed or failed to run.
    CompressorUnavailable,
}

impl BenchError {
    /// A short, stable label for logs and process exit reporting.
    pub fn label(&self) -> (r: &'static str)
        ensures
            *self is SourceUnavailable ==> r@ == "source unavailable"@,
            *self is InsufficientSamples ==> r@ == "insufficient samples"@,
            *self is SinkUnavailable ==> r@ == "sink unavailable"@,
            *self is ProtocolViolation ==> r@ == "protocol violation"@,
            *self is EmptyWindow ==> r@ == "empty window"@,
            *self is CompressorUnavailable ==> r@ == "compressor unavailable"@,
    {
        match self {
            BenchError::SourceUnavailable => "source unavailable",
            BenchError::InsufficientSamples => "insufficient samples",
            BenchError::SinkUnavailable => "sink unavailable",
            BenchError::ProtocolViolation => "protocol violation",
            BenchError::EmptyWindow => "empty window",
            BenchError::CompressorUnavailable => "compressor unavailable",
        }
    }
}

} // verus!
