//! Device operations under a validation scope.
//!
//! A device reports the misuse of an operation later and elsewhere, never
//! at the call. So each operation is issued between the opening and the
//! closing of a validation scope on the device, and what the scope captured
//! decides whether the operation counts. Scopes on one device do not nest:
//! a sequence opens the scope of a step only after it has closed that of
//! the step before.

use vstd::prelude::*;
use vstd::string::StringExecFns;
use crate::error::{text_of, Error, ErrorView};

verus! {

/// Decides what an operation that ran under a validation scope comes to:
/// its value if the scope captured nothing, else the captured error under
/// the description of the operation. A captured error is never dropped and
/// the value is never returned beside it.
pub fn checked_device_op<R>(context: &str, captured: Option<String>, value: R) -> (outcome: Result<
    R,
    Error,
>)
    ensures
        captured is None ==> outcome == Ok::<R, Error>(value),
        captured matches Some(message) ==> (outcome matches Err(error) && error@
            == ErrorView::DeviceValidationError { context: context@, message: message@ }),
{
    match captured {
        None => Ok(value),
        Some(message) => Err(
            Error::DeviceValidationError { context: String::from_str(context), message },
        ),
    }
}

/// A sequence of checked operations.
#[derive(Debug, Clone, Copy, PartialEq, Eq, Structural)]
pub enum Pass {
    /// Build the pipeline, run the kernel over the grid.
    Dispatch,
    /// Copy the output to a staging buffer that the host can map.
    ToImage,
    /// Copy the output to a texture that can be presented.
    ToSurface,
}

/// One checked operation.
#[derive(Debug, Clone, Copy, PartialEq, Eq, Structural)]
pub enum Step {
    /// Compile the shader module from its text.
    CreateShader,
    /// Create the compute pipeline for the entry point, its layout derived
    /// from the shader.
    CreatePipeline,
    /// Take the layout of bind group 0 from the pipeline.
    GetBindGroupLayout,
    /// Create the uniform buffer with the bytes of the scene.
    CreateSceneBuffer,
    /// Create the output buffer.
    CreateOutputBuffer,
    /// Bind the uniform buffer and the output buffer to the layout.
    CreateBindGroup,
    /// Create the command encoder of the dispatch.
    CreateComputeEncoder,
    /// Record the compute pass: pipeline, bind group, workgroups.
    RecordComputePass,
    /// Submit the commands of the dispatch.
    SubmitCompute,
    /// Wait until the submission has completed.
    WaitCompute,
    /// Create the command encoder of the copy to the staging buffer.
    CreateCopyEncoder,
    /// Create the staging buffer.
    CreateStageBuffer,
    /// Record the copy from the output buffer to the staging buffer.
    CopyBuffer,
    /// Submit the copy.
    SubmitCopy,
    /// Wait until the copy has completed.
    WaitCopy,
    /// Create the texture.
    CreateTexture,
    /// Create the command encoder of the copy to the texture.
    CreateTextureEncoder,
    /// Record the copy from the output buffer to the texture.
    CopyBufferToTexture,
    /// Submit the copy to the texture.
    SubmitTextureCopy,
    /// Wait until the copy to the texture has completed.
    WaitTextureCopy,
}

/// The first step of a pass.
pub open spec fn first_step(pass: Pass) -> Step {
    match pass {
        Pass::Dispatch => Step::CreateShader,
        Pass::ToImage => Step::CreateCopyEncoder,
        Pass::ToSurface => Step::CreateTexture,
    }
}

/// How many steps a pass has.
pub open spec fn step_count(pass: Pass) -> nat {
    match pass {
        Pass::Dispatch => 10,
        Pass::ToImage => 5,
        Pass::ToSurface => 5,
    }
}

impl Step {
    /// The pass that the step belongs to.
    pub open spec fn spec_pass(self) -> Pass {
        match self {
            Step::CreateShader
            | Step::CreatePipeline
            | Step::GetBindGroupLayout
            | Step::CreateSceneBuffer
            | Step::CreateOutputBuffer
            | Step::CreateBindGroup
            | Step::CreateComputeEncoder
            | Step::RecordComputePass
            | Step::SubmitCompute
            | Step::WaitCompute => Pass::Dispatch,
            Step::CreateCopyEncoder
            | Step::CreateStageBuffer
            | Step::CopyBuffer
            | Step::SubmitCopy
            | Step::WaitCopy => Pass::ToImage,
            Step::CreateTexture
            | Step::CreateTextureEncoder
            | Step::CopyBufferToTexture
            | Step::SubmitTextureCopy
            | Step::WaitTextureCopy => Pass::ToSurface,
        }
    }

    /// The step that follows in the same pass, if the step is not its last.
    pub open spec fn spec_successor(self) -> Option<Step> {
        match self {
            Step::CreateShader => Some(Step::CreatePipeline),
            Step::CreatePipeline => Some(Step::GetBindGroupLayout),
            Step::GetBindGroupLayout => Some(Step::CreateSceneBuffer),
            Step::CreateSceneBuffer => Some(Step::CreateOutputBuffer),
            Step::CreateOutputBuffer => Some(Step::CreateBindGroup),
            Step::CreateBindGroup => Some(Step::CreateComputeEncoder),
            Step::CreateComputeEncoder => Some(Step::RecordComputePass),
            Step::RecordComputePass => Some(Step::SubmitCompute),
            Step::SubmitCompute => Some(Step::WaitCompute),
            Step::WaitCompute => None,
            Step::CreateCopyEncoder => Some(Step::CreateStageBuffer),
            Step::CreateStageBuffer => Some(Step::CopyBuffer),
            Step::CopyBuffer => Some(Step::SubmitCopy),
            Step::SubmitCopy => Some(Step::WaitCopy),
            Step::WaitCopy => None,
            Step::CreateTexture => Some(Step::CreateTextureEncoder),
            Step::CreateTextureEncoder => Some(Step::CopyBufferToTexture),
            Step::CopyBufferToTexture => Some(Step::SubmitTextureCopy),
            Step::SubmitTextureCopy => Some(Step::WaitTextureCopy),
            Step::WaitTextureCopy => None,
        }
    }

    /// The description under which a failure of the step is reported.
    pub open spec fn spec_description(self) -> Seq<char> {
        match self {
            Step::CreateShader => "create shader"@,
            Step::CreatePipeline => "create compute pipeline"@,
            Step::GetBindGroupLayout => "get bind group layout"@,
            Step::CreateSceneBuffer => "create uniform scene buf"@,
            Step::CreateOutputBuffer => "create output buf"@,
            Step::CreateBindGroup => "create bind group"@,
            Step::CreateComputeEncoder => "create compute command encoder"@,
            Step::RecordComputePass => "start compute pass"@,
            Step::SubmitCompute => "submit compute"@,
            Step::WaitCompute => "wait compute done"@,
            Step::CreateCopyEncoder => "create encoder"@,
            Step::CreateStageBuffer => "create stage buffer"@,
            Step::CopyBuffer => "copy buffer"@,
            Step::SubmitCopy => "submit extraction"@,
            Step::WaitCopy => "wait extraction"@,
            Step::CreateTexture => "create texture"@,
            Step::CreateTextureEncoder => "create texture encoder"@,
            Step::CopyBufferToTexture => "copy buffer to texture"@,
            Step::SubmitTextureCopy => "submit texture copy"@,
            Step::WaitTextureCopy => "wait texture copy"@,
        }
    }

    /// The error that a capture at this step is: a shader that does not
    /// compile has an error of its own, every other step a validation error
    /// under its description.
    pub open spec fn failure(self, message: Seq<char>) -> ErrorView {
        if self == Step::CreateShader {
            ErrorView::ShaderCompileError { message }
        } else {
            ErrorView::DeviceValidationError { context: self.spec_description(), message }
        }
    }

    /// The pass that the step belongs to.
    #[verifier::when_used_as_spec(spec_pass)]
    pub fn pass(self) -> (pass: Pass)
        ensures
            pass == self.spec_pass(),
    {
        match self {
            Step::CreateShader
            | Step::CreatePipeline
            | Step::GetBindGroupLayout
            | Step::CreateSceneBuffer
            | Step::CreateOutputBuffer
            | Step::CreateBindGroup
            | Step::CreateComputeEncoder
            | Step::RecordComputePass
            | Step::SubmitCompute
            | Step::WaitCompute => Pass::Dispatch,
            Step::CreateCopyEncoder
            | Step::CreateStageBuffer
            | Step::CopyBuffer
            | Step::SubmitCopy
            | Step::WaitCopy => Pass::ToImage,
            Step::CreateTexture
            | Step::CreateTextureEncoder
            | Step::CopyBufferToTexture
            | Step::SubmitTextureCopy
            | Step::WaitTextureCopy => Pass::ToSurface,
        }
    }

    /// The step that follows in the same pass, if the step is not its last.
    #[verifier::when_used_as_spec(spec_successor)]
    pub fn successor(self) -> (next: Option<Step>)
        ensures
            next == self.spec_successor(),
    {
        match self {
            Step::CreateShader => Some(Step::CreatePipeline),
            Step::CreatePipeline => Some(Step::GetBindGroupLayout),
            Step::GetBindGroupLayout => Some(Step::CreateSceneBuffer),
            Step::CreateSceneBuffer => Some(Step::CreateOutputBuffer),
            Step::CreateOutputBuffer => Some(Step::CreateBindGroup),
            Step::CreateBindGroup => Some(Step::CreateComputeEncoder),
            Step::CreateComputeEncoder => Some(Step::RecordComputePass),
            Step::RecordComputePass => Some(Step::SubmitCompute),
            Step::SubmitCompute => Some(Step::WaitCompute),
            Step::WaitCompute => None,
            Step::CreateCopyEncoder => Some(Step::CreateStageBuffer),
            Step::CreateStageBuffer => Some(Step::CopyBuffer),
            Step::CopyBuffer => Some(Step::SubmitCopy),
            Step::SubmitCopy => Some(Step::WaitCopy),
            Step::WaitCopy => None,
            Step::CreateTexture => Some(Step::CreateTextureEncoder),
            Step::CreateTextureEncoder => Some(Step::CopyBufferToTexture),
            Step::CopyBufferToTexture => Some(Step::SubmitTextureCopy),
            Step::SubmitTextureCopy => Some(Step::WaitTextureCopy),
            Step::WaitTextureCopy => None,
        }
    }

    /// The description under which a failure of the step is reported.
    pub fn description(self) -> (text: &'static str)
        ensures
            text@ == self.spec_description(),
    {
        match self {
            Step::CreateShader => "create shader",
            Step::CreatePipeline => "create compute pipeline",
            Step::GetBindGroupLayout => "get bind group layout",
            Step::CreateSceneBuffer => "create uniform scene buf",
            Step::CreateOutputBuffer => "create output buf",
            Step::CreateBindGroup => "create bind group",
            Step::CreateComputeEncoder => "create compute command encoder",
            Step::RecordComputePass => "start compute pass",
            Step::SubmitCompute => "submit compute",
            Step::WaitCompute => "wait compute done",
            Step::CreateCopyEncoder => "create encoder",
            Step::CreateStageBuffer => "create stage buffer",
            Step::CopyBuffer => "copy buffer",
            Step::SubmitCopy => "submit extraction",
            Step::WaitCopy => "wait extraction",
            Step::CreateTexture => "create texture",
            Step::CreateTextureEncoder => "create texture encoder",
            Step::CopyBufferToTexture => "copy buffer to texture",
            Step::SubmitTextureCopy => "submit texture copy",
            Step::WaitTextureCopy => "wait texture copy",
        }
    }

    /// Makes the error that a capture at this step is.
    pub fn fail(self, message: String) -> (error: Error)
        ensures
            error@ == self.failure(message@),
    {
        match self {
            Step::CreateShader => Error::ShaderCompileError { message },
            _ => Error::DeviceValidationError {
                context: String::from_str(self.description()),
                message,
            },
        }
    }
}

/// The first step of a pass.
pub fn first_step_of(pass: Pass) -> (step: Step)
    ensures
        step == first_step(pass),
{
    match pass {
        Pass::Dispatch => Step::CreateShader,
        Pass::ToImage => Step::CreateCopyEncoder,
        Pass::ToSurface => Step::CreateTexture,
    }
}

/// What is due for the step that a sequence is at.
#[derive(Debug, Clone, Copy, PartialEq, Eq, Structural)]
pub enum Phase {
    /// The validation scope has to be opened.
    Open,
    /// The scope is open; the operation has to be issued.
    Issue,
    /// The operation was issued; the scope has to be closed and what it
    /// captured handed in.
    Close,
}

/// What the driver of a sequence has to do next.
#[derive(Debug, Clone, Copy, PartialEq, Eq, Structural)]
pub enum Action {
    /// Open a validation scope on the device.
    OpenScope,
    /// Issue the operation of this step.
    Issue(Step),
    /// Close the scope and report what it captured.
    CloseScope,
    /// Nothing: the sequence is over.
    Stop,
}

/// How far a sequence of checked operations has come.
#[derive(Debug)]
pub enum Progress {
    /// The sequence is at this step, in this phase.
    At(Step, Phase),
    /// Every step was issued and none captured an error.
    Finished,
    /// A step failed, or the device was lost. No further step is issued.
    Failed(Error),
}

/// A `Progress` as a value of the specification.
pub enum ProgressView {
    At(Step, Phase),
    Finished,
    Failed(ErrorView),
}

impl View for Progress {
    type V = ProgressView;

    open spec fn view(&self) -> ProgressView {
        match self {
            Progress::At(step, phase) => ProgressView::At(*step, *phase),
            Progress::Finished => ProgressView::Finished,
            Progress::Failed(error) => ProgressView::Failed(error@),
        }
    }
}

impl ProgressView {
    /// The action that is due.
    pub open spec fn action(self) -> Action {
        match self {
            ProgressView::At(_, Phase::Open) => Action::OpenScope,
            ProgressView::At(step, Phase::Issue) => Action::Issue(step),
            ProgressView::At(_, Phase::Close) => Action::CloseScope,
            _ => Action::Stop,
        }
    }

    /// The progress after the due action was done and `captured` came back
    /// from the device. A capture fails the sequence at once, in whatever
    /// phase it is handed in. A sequence that is over stays as it is.
    pub open spec fn advance(self, captured: Option<Seq<char>>) -> ProgressView {
        match self {
            ProgressView::At(step, phase) => match captured {
                Some(message) => ProgressView::Failed(step.failure(message)),
                None => match phase {
                    Phase::Open => ProgressView::At(step, Phase::Issue),
                    Phase::Issue => ProgressView::At(step, Phase::Close),
                    Phase::Close => match step.spec_successor() {
                        Some(next) => ProgressView::At(next, Phase::Open),
                        None => ProgressView::Finished,
                    },
                },
            },
            other => other,
        }
    }

    /// The progress after the device was lost: a sequence that was under
    /// way has failed.
    pub open spec fn lose(self) -> ProgressView {
        match self {
            ProgressView::At(_, _) => ProgressView::Failed(ErrorView::DeviceLost),
            other => other,
        }
    }

    /// The progress after `n` actions that captured nothing.
    pub open spec fn run_clean(self, n: nat) -> ProgressView
        decreases n,
    {
        if n == 0 {
            self
        } else {
            self.advance(None).run_clean((n - 1) as nat)
        }
    }
}

impl Progress {
    /// Starts a pass: the scope of its first step is to be opened.
    pub fn begin(pass: Pass) -> (progress: Progress)
        ensures
            progress@ == ProgressView::At(first_step(pass), Phase::Open),
    {
        Progress::At(first_step_of(pass), Phase::Open)
    }

    /// The action that is due.
    pub fn action(&self) -> (action: Action)
        ensures
            action == self@.action(),
    {
        match self {
            Progress::At(_, Phase::Open) => Action::OpenScope,
            Progress::At(step, Phase::Issue) => Action::Issue(*step),
            Progress::At(_, Phase::Close) => Action::CloseScope,
            _ => Action::Stop,
        }
    }

    /// Takes what came back from the device after the due action was done.
    pub fn advance(self, captured: Option<String>) -> (next: Progress)
        ensures
            next@ == self@.advance(text_of(captured)),
    {
        match self {
            Progress::At(step, phase) => match captured {
                Some(message) => Progress::Failed(step.fail(message)),
                None => match phase {
                    Phase::Open => Progress::At(step, Phase::Issue),
                    Phase::Issue => Progress::At(step, Phase::Close),
                    Phase::Close => match step.successor() {
                        Some(next) => Progress::At(next, Phase::Open),
                        None => Progress::Finished,
                    },
                },
            },
            other => other,
        }
    }

    /// Takes the notice that the device was lost.
    pub fn device_lost(self) -> (next: Progress)
        ensures
            next@ == self@.lose(),
    {
        match self {
            Progress::At(_, _) => Progress::Failed(Error::DeviceLost),
            other => other,
        }
    }

    /// Whether every step was issued and none failed.
    pub fn is_finished(&self) -> (finished: bool)
        ensures
            finished == (self@ is Finished),
    {
        match self {
            Progress::Finished => true,
            _ => false,
        }
    }

    /// The error that ended the sequence, if one did.
    pub fn failure(&self) -> (error: Option<&Error>)
        ensures
            match error {
                Some(error) => self@ == ProgressView::Failed(error@),
                None => !(self@ is Failed),
            },
    {
        match self {
            Progress::Failed(error) => Some(error),
            _ => None,
        }
    }
}

/// A pass in which no scope captures anything issues each of its steps
/// and is finished after three actions for each: open, issue, close.
pub proof fn lemma_clean_pass_finishes(pass: Pass)
    ensures
        ProgressView::At(first_step(pass), Phase::Open).run_clean(3 * step_count(pass))
            == ProgressView::Finished,
{
    reveal_with_fuel(ProgressView::run_clean, 31);
}

/// Between the closing of one step's scope and the issuing of the next
/// step a scope is opened: every operation runs under a scope of its own.
pub proof fn lemma_every_issue_is_scoped(step: Step)
    ensures
        ProgressView::At(step, Phase::Open).action() == Action::OpenScope,
        ProgressView::At(step, Phase::Open).advance(None).action() == Action::Issue(step),
        ProgressView::At(step, Phase::Open).advance(None).advance(None).action()
            == Action::CloseScope,
        ProgressView::At(step, Phase::Open).run_clean(3) == match step.spec_successor() {
            Some(next) => ProgressView::At(next, Phase::Open),
            None => ProgressView::Finished,
        },
{
    reveal_with_fuel(ProgressView::run_clean, 4);
}

/// A capture ends the sequence with the error of the step at which it was
/// made, which is a validation error; after that nothing is due and nothing
/// that comes in changes the outcome.
pub proof fn lemma_capture_aborts(
    step: Step,
    phase: Phase,
    message: Seq<char>,
    later: Option<Seq<char>>,
)
    ensures
        ProgressView::At(step, phase).advance(Some(message)) == ProgressView::Failed(
            step.failure(message),
        ),
        step.failure(message) is DeviceValidationError || step.failure(message)
            is ShaderCompileError,
        ProgressView::Failed(step.failure(message)).action() == Action::Stop,
        ProgressView::Failed(step.failure(message)).advance(later) == ProgressView::Failed(
            step.failure(message),
        ),
{
}

/// A device lost while a sequence is under way fails the sequence, and a
/// failed sequence is never finished, whatever comes in later.
pub proof fn lemma_loss_aborts(step: Step, phase: Phase, later: Option<Seq<char>>)
    ensures
        ProgressView::At(step, phase).lose() == ProgressView::Failed(ErrorView::DeviceLost),
        !(ProgressView::At(step, phase).lose().advance(later) is Finished),
        ProgressView::At(step, phase).lose().action() == Action::Stop,
{
}

} // verus!
