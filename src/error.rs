use vstd::prelude::*;

verus! {

/// Everything that can go wrong while building the chart or drawing it.
#[derive(Debug, Clone, PartialEq, Eq)]
pub enum ChartError {
    /// A shader was rejected by the driver; `log` is the driver's message.
    ShaderCompile { log: String },
    /// The program failed to link; `log` is the driver's message.
    Link { log: String },
    /// The context could not hand out a buffer.
    BufferAllocation,
    /// The shader has no attribute of this name.
    AttributeLookup { name: String },
    /// The shader has no uniform of this name.
    UniformLookup { name: String },
    /// The rendering surface could not be reached.
    SurfaceUnavailable,
    /// A data range of zero width or height.
    DegenerateRange,
    /// Fewer than two samples; or, over a range of non-zero width and height,
    /// more samples than 16-bit indices can address. Also a polyline with an
    /// index that names no point.
    InvalidSampleCount,
}

} // verus!
