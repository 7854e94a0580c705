use vstd::prelude::*;

use crate::error::ChartError;

verus! {

/// One step of building a chart on a graphics context, in the order taken.
#[derive(Debug, Clone, Copy, PartialEq, Eq)]
pub enum SetupStep {
    CompileVertexShader,
    CompileFragmentShader,
    LinkProgram,
    CreateVertexBuffer,
    CreateIndexBuffer,
}

/// What the context answered to a step; `log` is its message, if it gave one.
#[derive(Debug, Clone, PartialEq, Eq)]
pub enum StepOutcome {
    Succeeded,
    Failed { log: String },
}

/// What to do next: run a step, give up with an error, or look up the
/// program's locations and finish.
#[derive(Debug, Clone, PartialEq, Eq)]
pub enum SetupAction {
    Run(SetupStep),
    Abort(ChartError),
    Finish,
}

/// The error a failed step ends construction with.
pub open spec fn step_error(step: SetupStep, log: String) -> ChartError {
    match step {
        SetupStep::CompileVertexShader => ChartError::ShaderCompile { log },
        SetupStep::CompileFragmentShader => ChartError::ShaderCompile { log },
        SetupStep::LinkProgram => ChartError::Link { log },
        SetupStep::CreateVertexBuffer => ChartError::BufferAllocation,
        SetupStep::CreateIndexBuffer => ChartError::BufferAllocation,
    }
}

/// The action that follows a step once it has succeeded.
pub open spec fn after_success(step: SetupStep) -> SetupAction {
    match step {
        SetupStep::CompileVertexShader => SetupAction::Run(SetupStep::CompileFragmentShader),
        SetupStep::CompileFragmentShader => SetupAction::Run(SetupStep::LinkProgram),
        SetupStep::LinkProgram => SetupAction::Run(SetupStep::CreateVertexBuffer),
        SetupStep::CreateVertexBuffer => SetupAction::Run(SetupStep::CreateIndexBuffer),
        SetupStep::CreateIndexBuffer => SetupAction::Finish,
    }
}

pub open spec fn setup_next_spec(step: SetupStep, outcome: StepOutcome) -> SetupAction {
    match outcome {
        StepOutcome::Succeeded => after_success(step),
        StepOutcome::Failed { log } => SetupAction::Abort(step_error(step, log)),
    }
}

/// Where construction stands after the context has answered `outcomes`, one
/// answer per step, starting from `action`.
pub open spec fn run_setup(action: SetupAction, outcomes: Seq<StepOutcome>) -> SetupAction
    decreases outcomes.len(),
{
    if outcomes.len() == 0 {
        action
    } else {
        match action {
            SetupAction::Run(step) => run_setup(
                setup_next_spec(step, outcomes[0]),
                outcomes.drop_first(),
            ),
            _ => action,
        }
    }
}

/// The first action of construction.
pub fn setup_start() -> (r: SetupAction)
    ensures
        r == SetupAction::Run(SetupStep::CompileVertexShader),
{
    SetupAction::Run(SetupStep::CompileVertexShader)
}

/// The action that follows `step` given the context's answer to it. Every
/// failure is final: nothing is retried.
pub fn setup_next(step: SetupStep, outcome: StepOutcome) -> (r: SetupAction)
    ensures
        r == setup_next_spec(step, outcome),
{
    match outcome {
        StepOutcome::Succeeded => match step {
            SetupStep::CompileVertexShader => SetupAction::Run(SetupStep::CompileFragmentShader),
            SetupStep::CompileFragmentShader => SetupAction::Run(SetupStep::LinkProgram),
            SetupStep::LinkProgram => SetupAction::Run(SetupStep::CreateVertexBuffer),
            SetupStep::CreateVertexBuffer => SetupAction::Run(SetupStep::CreateIndexBuffer),
            SetupStep::CreateIndexBuffer => SetupAction::Finish,
        },
        StepOutcome::Failed { log } => SetupAction::Abort(
            match step {
                SetupStep::CompileVertexShader => ChartError::ShaderCompile { log },
                SetupStep::CompileFragmentShader => ChartError::ShaderCompile { log },
                SetupStep::LinkProgram => ChartError::Link { log },
                SetupStep::CreateVertexBuffer => ChartError::BufferAllocation,
                SetupStep::CreateIndexBuffer => ChartError::BufferAllocation,
            },
        ),
    }
}

/// A shader that fails to compile ends construction with a compile error that
/// carries the driver's log, and no chart is built.
pub proof fn lemma_shader_failure_aborts(step: SetupStep, log: String, rest: Seq<StepOutcome>)
    requires
        step == SetupStep::CompileVertexShader || step == SetupStep::CompileFragmentShader,
    ensures
        run_setup(SetupAction::Run(step), seq![StepOutcome::Failed { log }] + rest)
            == SetupAction::Abort(ChartError::ShaderCompile { log }),
{
    let s = seq![StepOutcome::Failed { log }] + rest;
    assert(s[0] == StepOutcome::Failed { log });
    assert(s.drop_first() =~= rest);
    lemma_stopped_stays(SetupAction::Abort(ChartError::ShaderCompile { log }), rest);
}

/// Once construction has finished or given up, later answers change nothing.
pub proof fn lemma_stopped_stays(action: SetupAction, outcomes: Seq<StepOutcome>)
    requires
        !(action is Run),
    ensures
        run_setup(action, outcomes) == action,
{
}

/// Construction finishes only when each of its five steps has succeeded.
pub proof fn lemma_finish_needs_every_step(outcomes: Seq<StepOutcome>)
    requires
        run_setup(SetupAction::Run(SetupStep::CompileVertexShader), outcomes)
            == SetupAction::Finish,
    ensures
        outcomes.len() >= 5,
        forall|i: int| 0 <= i < 5 ==> outcomes[i] == StepOutcome::Succeeded,
{
    lemma_finish_from(0, outcomes);
}

proof fn lemma_finish_from(k: int, outcomes: Seq<StepOutcome>)
    requires
        0 <= k <= 5,
        run_setup(step_at(k), outcomes) == SetupAction::Finish,
    ensures
        outcomes.len() >= 5 - k,
        forall|i: int| 0 <= i < 5 - k ==> outcomes[i] == StepOutcome::Succeeded,
    decreases 5 - k,
{
    if k < 5 {
        let step = step_at(k)->Run_0;
        if outcomes.len() == 0 {
            assert(false);
        }
        if outcomes[0] != StepOutcome::Succeeded {
            let log = outcomes[0]->Failed_log;
            assert(outcomes[0] == StepOutcome::Failed { log });
            lemma_stopped_stays(SetupAction::Abort(step_error(step, log)), outcomes.drop_first());
            assert(false);
        }
        assert(setup_next_spec(step, outcomes[0]) == step_at(k + 1));
        lemma_finish_from(k + 1, outcomes.drop_first());
        assert forall|i: int| 0 <= i < 5 - k implies outcomes[i] == StepOutcome::Succeeded by {
            if i > 0 {
                assert(outcomes[i] == outcomes.drop_first()[i - 1]);
            }
        }
    }
}

/// The action construction has reached after `k` successful steps.
pub open spec fn step_at(k: int) -> SetupAction {
    if k == 0 {
        SetupAction::Run(SetupStep::CompileVertexShader)
    } else if k == 1 {
        SetupAction::Run(SetupStep::CompileFragmentShader)
    } else if k == 2 {
        SetupAction::Run(SetupStep::LinkProgram)
    } else if k == 3 {
        SetupAction::Run(SetupStep::CreateVertexBuffer)
    } else if k == 4 {
        SetupAction::Run(SetupStep::CreateIndexBuffer)
    } else {
        SetupAction::Finish
    }
}

} // verus!
