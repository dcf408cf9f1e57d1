//! Device context setup: the strictly ordered one-time steps that create
//! the window, create the device, and claim the window for presentation,
//! with each failure reported against the step that failed.

use vstd::prelude::*;

verus! {

/// The shader binary format the device is created to consume.
#[derive(Clone, Copy, Debug, PartialEq, Eq, Structural)]
pub enum ShaderBinaryFormat {
    SpirV,
}

/// The one portable binary format this core requests from the backend.
pub fn requested_format() -> (f: ShaderBinaryFormat)
    ensures
        f == ShaderBinaryFormat::SpirV,
{
    ShaderBinaryFormat::SpirV
}

/// One step of the one-time setup, in order.
#[derive(Clone, Copy, Debug, PartialEq, Eq, Structural)]
pub enum SetupStep {
    /// Initialize the video subsystem.
    InitVideo,
    /// Create the window of the requested pixel dimensions.
    CreateWindow,
    /// Create the device, requesting the shader binary format.
    CreateDevice,
    /// Claim the window for presentation by the device.
    ClaimWindow,
}

/// A setup failure, fatal by design, naming the step that failed so the
/// backend's error string can be reported against it.
#[derive(Clone, Copy, Debug, PartialEq, Eq, Structural)]
pub enum SetupError {
    StepFailed { step: SetupStep },
}

/// The step that follows `s`, or nothing once the window is claimed.
pub open spec fn next_step_spec(s: SetupStep) -> Option<SetupStep> {
    match s {
        SetupStep::InitVideo => Some(SetupStep::CreateWindow),
        SetupStep::CreateWindow => Some(SetupStep::CreateDevice),
        SetupStep::CreateDevice => Some(SetupStep::ClaimWindow),
        SetupStep::ClaimWindow => None,
    }
}

/// The full setup order: subsystem, window, device, claim.
pub fn setup_steps() -> (r: Vec<SetupStep>)
    ensures
        r@ == seq![
            SetupStep::InitVideo,
            SetupStep::CreateWindow,
            SetupStep::CreateDevice,
            SetupStep::ClaimWindow,
        ],
{
    let mut r: Vec<SetupStep> = Vec::new();
    r.push(SetupStep::InitVideo);
    r.push(SetupStep::CreateWindow);
    r.push(SetupStep::CreateDevice);
    r.push(SetupStep::ClaimWindow);
    proof {
        assert(r@ =~= seq![
            SetupStep::InitVideo,
            SetupStep::CreateWindow,
            SetupStep::CreateDevice,
            SetupStep::ClaimWindow,
        ]);
    }
    r
}

/// Decides what follows one setup step: on success the next step, or
/// completion after the last; on failure the fatal error naming the step.
pub fn advance(step: SetupStep, ok: bool) -> (r: Result<Option<SetupStep>, SetupError>)
    ensures
        ok ==> r == Ok::<Option<SetupStep>, SetupError>(next_step_spec(step)),
        !ok ==> r == Err::<Option<SetupStep>, SetupError>(SetupError::StepFailed { step }),
{
    if !ok {
        return Err(SetupError::StepFailed { step });
    }
    Ok(
        match step {
            SetupStep::InitVideo => Some(SetupStep::CreateWindow),
            SetupStep::CreateWindow => Some(SetupStep::CreateDevice),
            SetupStep::CreateDevice => Some(SetupStep::ClaimWindow),
            SetupStep::ClaimWindow => None,
        },
    )
}

/// The device context once setup completed: the claimed window's
/// dimensions and whether the backend state is still live. Teardown
/// happens exactly once; tearing down an already dead context changes
/// nothing.
#[derive(Clone, Copy, Debug, PartialEq, Eq, Structural)]
pub struct DeviceContext {
    pub width: u32,
    pub height: u32,
    pub live: bool,
}

impl DeviceContext {
    /// The context every completed setup yields: live, with the window's
    /// dimensions.
    pub fn initialize(width: u32, height: u32) -> (c: DeviceContext)
        ensures
            c == (DeviceContext { width, height, live: true }),
    {
        DeviceContext { width, height, live: true }
    }

    /// Tears the context down: afterwards it is not live, whatever it was
    /// before, and the recorded dimensions are untouched.
    pub fn shutdown(&mut self)
        ensures
            *final(self) == (DeviceContext { width: old(self).width, height: old(self).height, live: false }),
    {
        self.live = false;
    }
}

} // verus!
