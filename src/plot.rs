use vstd::prelude::*;

use crate::error::ChartError;
use crate::geometry::{
    check_plot, indices_in_range, line_strip_indices, plot_check_spec, sample_plan,
    sample_plan_spec, strip_indices_spec, Sample,
};

verus! {

/// The geometry of one plot, before any coordinate is computed: which sample
/// each point is, and the order in which the points are drawn.
#[derive(Debug, Clone, PartialEq, Eq)]
pub struct PlotPlan {
    pub samples: Vec<Sample>,
    pub indices: Vec<u16>,
}

impl View for PlotPlan {
    type V = (Seq<Sample>, Seq<u16>);

    open spec fn view(&self) -> (Seq<Sample>, Seq<u16>) {
        (self.samples@, self.indices@)
    }
}

/// What a plot of `point_count` samples over the given spans yields.
pub open spec fn plot_plan_spec(point_count: nat, x_span_zero: bool, y_span_zero: bool) -> Result<
    (Seq<Sample>, Seq<u16>),
    ChartError,
> {
    match plot_check_spec(point_count, x_span_zero, y_span_zero) {
        Ok(_) => Ok((sample_plan_spec(point_count), strip_indices_spec(point_count))),
        Err(e) => Err(e),
    }
}

/// The view of a plot's outcome.
pub open spec fn plan_result_view(r: Result<PlotPlan, ChartError>) -> Result<
    (Seq<Sample>, Seq<u16>),
    ChartError,
> {
    match r {
        Ok(p) => Ok(p@),
        Err(e) => Err(e),
    }
}

/// Plans a plot of `point_count` samples. `x_span_zero` and `y_span_zero` say
/// whether `from_x == to_x` and whether `from_y == to_y`.
pub fn plot_plan(point_count: usize, x_span_zero: bool, y_span_zero: bool) -> (r: Result<
    PlotPlan,
    ChartError,
>)
    ensures
        plan_result_view(r) == plot_plan_spec(point_count as nat, x_span_zero, y_span_zero),
        r is Ok <==> 2 <= point_count <= crate::geometry::MAX_POINTS && !x_span_zero
            && !y_span_zero,
{
    match check_plot(point_count, x_span_zero, y_span_zero) {
        Ok(()) => {
            let samples = sample_plan(point_count);
            let indices = line_strip_indices(point_count);
            Ok(PlotPlan { samples, indices })
        },
        Err(e) => Err(e),
    }
}

/// A successful plot draws every sample exactly once, in order: there are as
/// many indices as samples, index `i` is `i`, and every index names a sample.
pub proof fn lemma_plan_indices_valid(point_count: nat, x_span_zero: bool, y_span_zero: bool)
    requires
        plot_plan_spec(point_count, x_span_zero, y_span_zero) is Ok,
    ensures
        ({
            let (samples, indices) = plot_plan_spec(point_count, x_span_zero, y_span_zero)->Ok_0;
            &&& samples.len() == point_count
            &&& indices.len() == point_count
            &&& indices_in_range(point_count, indices)
            &&& forall|i: int| 0 <= i < indices.len() ==> indices[i] as int == i
        }),
{
}

/// The samples of a successful plot start at the left bound, end at the exact
/// right bound, and step through every position between.
pub proof fn lemma_plan_samples_cover(point_count: nat, x_span_zero: bool, y_span_zero: bool)
    requires
        plot_plan_spec(point_count, x_span_zero, y_span_zero) is Ok,
    ensures
        ({
            let samples = plot_plan_spec(point_count, x_span_zero, y_span_zero)->Ok_0.0;
            &&& samples.len() == point_count
            &&& samples[0] == Sample::Step(0)
            &&& samples[point_count - 1] == Sample::Endpoint
            &&& forall|i: int| 0 <= i < point_count - 1 ==> samples[i] == Sample::Step(i as usize)
        }),
{
}

/// Planning the same plot twice gives the same outcome both times.
pub proof fn lemma_replot_identical(
    point_count: nat,
    x_span_zero: bool,
    y_span_zero: bool,
    first: Result<PlotPlan, ChartError>,
    second: Result<PlotPlan, ChartError>,
)
    requires
        plan_result_view(first) == plot_plan_spec(point_count, x_span_zero, y_span_zero),
        plan_result_view(second) == plot_plan_spec(point_count, x_span_zero, y_span_zero),
    ensures
        plan_result_view(first) == plan_result_view(second),
        first is Ok <==> second is Ok,
{
}

/// A plot with fewer than two samples is refused for its sample count, and one
/// over an empty range for its range.
pub proof fn lemma_degenerate_rejected(point_count: nat, x_span_zero: bool, y_span_zero: bool)
    ensures
        point_count < 2 ==> plot_plan_spec(point_count, x_span_zero, y_span_zero) == Err::<
            (Seq<Sample>, Seq<u16>),
            ChartError,
        >(ChartError::InvalidSampleCount),
        2 <= point_count && (x_span_zero || y_span_zero) ==> plot_plan_spec(point_count, x_span_zero, y_span_zero) == Err::<
            (Seq<Sample>, Seq<u16>),
            ChartError,
        >(ChartError::DegenerateRange),
{
}

} // verus!
