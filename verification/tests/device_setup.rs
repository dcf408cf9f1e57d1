use gpu_core::device::{
    advance, requested_format, setup_steps, DeviceContext, SetupError, SetupStep,
    ShaderBinaryFormat,
};

#[test]
fn setup_runs_in_the_documented_order() {
    assert_eq!(
        setup_steps(),
        vec![
            SetupStep::InitVideo,
            SetupStep::CreateWindow,
            SetupStep::CreateDevice,
            SetupStep::ClaimWindow,
        ]
    );
}

#[test]
fn successful_steps_chain_to_completion() {
    assert_eq!(advance(SetupStep::InitVideo, true), Ok(Some(SetupStep::CreateWindow)));
    assert_eq!(advance(SetupStep::CreateWindow, true), Ok(Some(SetupStep::CreateDevice)));
    assert_eq!(advance(SetupStep::CreateDevice, true), Ok(Some(SetupStep::ClaimWindow)));
    assert_eq!(advance(SetupStep::ClaimWindow, true), Ok(None));
}

#[test]
fn each_failure_is_fatal_and_names_its_step() {
    for step in setup_steps() {
        assert_eq!(advance(step, false), Err(SetupError::StepFailed { step }));
    }
}

#[test]
fn device_requests_the_portable_binary_format() {
    assert_eq!(requested_format(), ShaderBinaryFormat::SpirV);
}

#[test]
fn shutdown_is_idempotent() {
    let mut ctx = DeviceContext::initialize(800, 600);
    assert!(ctx.live);
    assert_eq!((ctx.width, ctx.height), (800, 600));
    ctx.shutdown();
    assert!(!ctx.live);
    let after_first = ctx;
    ctx.shutdown();
    assert_eq!(ctx, after_first);
}
