use vstd::prelude::*;

use crate::error::ChartError;

verus! {

/// The most points one polyline can hold: its indices are 16-bit.
pub const MAX_POINTS: usize = 65536;

/// Which curve a plot samples.
#[derive(Debug, Clone, Copy, PartialEq, Eq)]
pub enum ExampleKind {
    Sin,
    Custom,
}

/// Where one sample's x-coordinate comes from.
///
/// `Step(i)` stands at `from_x + i * step`, where
/// `step == (to_x - from_x) / (point_count - 1)`; `Endpoint` stands at `to_x`
/// exactly, so the curve ends on the right bound whatever rounding the steps
/// accumulate.
#[derive(Debug, Clone, Copy, PartialEq, Eq)]
pub enum Sample {
    Step(usize),
    Endpoint,
}

/// The samples of a polyline of `n` points: steps `0 .. n - 1`, then the
/// right endpoint.
pub open spec fn sample_plan_spec(n: nat) -> Seq<Sample> {
    Seq::new(n, |i: int| if i + 1 == n { Sample::Endpoint } else { Sample::Step(i as usize) })
}

/// The line-strip order of `n` points: every point once, left to right.
pub open spec fn strip_indices_spec(n: nat) -> Seq<u16> {
    Seq::new(n, |i: int| i as u16)
}

/// Every index names one of `point_count` points.
pub open spec fn indices_in_range(point_count: nat, indices: Seq<u16>) -> bool {
    forall|i: int| 0 <= i < indices.len() ==> (#[trigger] indices[i]) < point_count
}

/// What a plot asks of its bounds and its sample count, in the order it checks.
pub open spec fn plot_check_spec(point_count: nat, x_span_zero: bool, y_span_zero: bool) -> Result<
    (),
    ChartError,
> {
    if point_count < 2 {
        Err(ChartError::InvalidSampleCount)
    } else if x_span_zero || y_span_zero {
        Err(ChartError::DegenerateRange)
    } else if point_count > MAX_POINTS {
        Err(ChartError::InvalidSampleCount)
    } else {
        Ok(())
    }
}

/// Checks a plot request: at least two samples (a step needs two), then a
/// data rectangle of non-zero width and height, then no more samples than
/// 16-bit indices can address.
pub fn check_plot(point_count: usize, x_span_zero: bool, y_span_zero: bool) -> (r: Result<
    (),
    ChartError,
>)
    ensures
        r == plot_check_spec(point_count as nat, x_span_zero, y_span_zero),
{
    if point_count < 2 {
        Err(ChartError::InvalidSampleCount)
    } else if x_span_zero || y_span_zero {
        Err(ChartError::DegenerateRange)
    } else if point_count > MAX_POINTS {
        Err(ChartError::InvalidSampleCount)
    } else {
        Ok(())
    }
}

/// The samples of a polyline of `point_count` points, the last of them the
/// exact right endpoint.
pub fn sample_plan(point_count: usize) -> (r: Vec<Sample>)
    ensures
        r@ == sample_plan_spec(point_count as nat),
{
    let mut r: Vec<Sample> = Vec::new();
    let mut i: usize = 0;
    while i < point_count
        invariant
            i <= point_count,
            r@ == sample_plan_spec(point_count as nat).take(i as int),
        decreases point_count - i,
    {
        if i + 1 == point_count {
            r.push(Sample::Endpoint);
        } else {
            r.push(Sample::Step(i));
        }
        i = i + 1;
        assert(r@ =~= sample_plan_spec(point_count as nat).take(i as int));
    }
    assert(r@ =~= sample_plan_spec(point_count as nat));
    r
}

/// The index sequence that draws `point_count` points as one line strip.
pub fn line_strip_indices(point_count: usize) -> (r: Vec<u16>)
    requires
        point_count <= MAX_POINTS,
    ensures
        r@ == strip_indices_spec(point_count as nat),
        indices_in_range(point_count as nat, r@),
{
    let mut r: Vec<u16> = Vec::new();
    let mut i: usize = 0;
    while i < point_count
        invariant
            i <= point_count <= MAX_POINTS,
            r@ == strip_indices_spec(point_count as nat).take(i as int),
        decreases point_count - i,
    {
        r.push(i as u16);
        i = i + 1;
        assert(r@ =~= strip_indices_spec(point_count as nat).take(i as int));
    }
    assert(r@ =~= strip_indices_spec(point_count as nat));
    r
}

} // verus!
