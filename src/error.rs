//! Error kinds shared by the decoders, the shader stage and the render loop.
use vstd::prelude::*;

verus! {

/// Why an asset or the telemetry table could not be decoded.
#[derive(Clone, Copy, Debug, PartialEq, Eq, Structural)]
pub enum DecodeError {
    /// The mesh bytes do not form a mesh description, or a face has fewer than three corners.
    Malformed,
    /// A face corner lacks its normal or texture-coordinate index.
    MissingAttribute,
    /// A corner index points past the end of its attribute table.
    IndexOutOfRange,
    /// The bitmap header is not understood, or the pixel payload has the wrong length.
    BadFormat,
    /// A telemetry row does not match the expected columns.
    RowShapeMismatch,
}

/// A shader stage failed; the text is the native compiler or linker log.
#[derive(Clone, Debug, PartialEq, Eq)]
pub enum ShaderError {
    CompileFailed(String),
    LinkFailed(String),
}

/// A GPU object could not be created.
#[derive(Clone, Copy, Debug, PartialEq, Eq, Structural)]
pub enum ResourceError {
    /// The vertex stream holds more vertices than a draw call can address.
    TooManyVertices,
}

/// A render-loop operation was asked for in a state that does not allow it.
#[derive(Clone, Copy, Debug, PartialEq, Eq, Structural)]
pub enum StateError {
    /// No resources have been installed yet.
    NotStarted,
    /// The loop stopped after an unrecoverable GPU error.
    Failed,
    /// A frame is already checked out; ticks may not overlap.
    TickInProgress,
    /// A frame was handed back while none was checked out.
    NoTickInProgress,
    /// The frame counter has reached its largest value.
    CounterExhausted,
}

} // verus!
