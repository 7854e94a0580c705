use lchart::error::ChartError;
use lchart::setup::{setup_next, setup_start, SetupAction, SetupStep, StepOutcome};

fn failed(log: &str) -> StepOutcome {
    StepOutcome::Failed { log: String::from(log) }
}

#[test]
fn invalid_vertex_shader_aborts_construction() {
    assert_eq!(setup_start(), SetupAction::Run(SetupStep::CompileVertexShader));
    let action = setup_next(SetupStep::CompileVertexShader, failed("ERROR: 0:2: syntax error"));
    assert_eq!(
        action,
        SetupAction::Abort(ChartError::ShaderCompile { log: String::from("ERROR: 0:2: syntax error") })
    );
}

#[test]
fn invalid_fragment_shader_aborts_construction() {
    let action = setup_next(SetupStep::CompileFragmentShader, failed("bad token"));
    assert_eq!(action, SetupAction::Abort(ChartError::ShaderCompile { log: String::from("bad token") }));
}

#[test]
fn link_and_buffer_failures() {
    assert_eq!(
        setup_next(SetupStep::LinkProgram, failed("attribute mismatch")),
        SetupAction::Abort(ChartError::Link { log: String::from("attribute mismatch") })
    );
    assert_eq!(
        setup_next(SetupStep::CreateVertexBuffer, failed("")),
        SetupAction::Abort(ChartError::BufferAllocation)
    );
    assert_eq!(
        setup_next(SetupStep::CreateIndexBuffer, failed("")),
        SetupAction::Abort(ChartError::BufferAllocation)
    );
}

#[test]
fn all_steps_succeed_in_order() {
    let mut action = setup_start();
    let mut steps = Vec::new();
    while let SetupAction::Run(step) = action {
        steps.push(step);
        action = setup_next(step, StepOutcome::Succeeded);
    }
    assert_eq!(action, SetupAction::Finish);
    assert_eq!(
        steps,
        vec![
            SetupStep::CompileVertexShader,
            SetupStep::CompileFragmentShader,
            SetupStep::LinkProgram,
            SetupStep::CreateVertexBuffer,
            SetupStep::CreateIndexBuffer,
        ]
    );
}
