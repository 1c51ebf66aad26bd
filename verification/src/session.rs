//! The owner of a window's device and surface, and the states it goes
//! through.

use vstd::prelude::*;
use crate::checked::{Phase, ProgressView, Step};
use crate::device::DeviceContext;
use crate::dispatch::Dispatch;
use crate::error::Error;
use crate::scene::{ComputeScene, FREQUENCY_BITS, HEIGHT, POINT, START_BITS, WIDTH};
use crate::ui::UiMessage;

verus! {

/// The state of a window's session with the device.
#[derive(Debug, Clone, Copy, PartialEq, Eq, Structural)]
pub enum SessionState {
    /// No owner exists.
    Uninitialized,
    /// An owner is being built.
    Initializing,
    /// The device is open and the surface configured.
    Ready,
    /// A frame of the surface is being acquired or presented.
    Drawing,
    /// The device was lost; what was made from it is invalid.
    Lost,
}

/// What happens to a session.
#[derive(Debug, Clone, Copy, PartialEq, Eq, Structural)]
pub enum SessionEvent {
    /// The owner was asked for.
    OwnerRequested,
    /// The device was opened.
    Opened,
    /// The device could not be opened.
    OpenFailed,
    /// The window wants to be drawn.
    RedrawRequested,
    /// The next frame of the surface was acquired.
    FrameAcquired,
    /// The next frame of the surface could not be acquired.
    AcquireFailed,
    /// The frame was presented.
    FramePresented,
    /// The size of the window changed.
    Resized,
    /// The device was lost.
    DeviceLost,
    /// The last holder of a lost owner let go of it.
    Released,
}

/// What the driver of a session has to do after an event.
#[derive(Debug, Clone, Copy, PartialEq, Eq, Structural)]
pub enum SessionAction {
    /// Nothing.
    Idle,
    /// Open a device.
    Open,
    /// Configure the surface at the current size of the window.
    Configure,
    /// Acquire the next frame of the surface.
    Acquire,
    /// Present the acquired frame.
    Present,
    /// Log why there is no frame, and go on without one.
    SkipFrame,
    /// Report that no owner could be built.
    Report,
    /// Drop what was made from the device.
    Invalidate,
}

/// The state after an event and the action that the event calls for.
pub open spec fn transition(state: SessionState, event: SessionEvent) -> (
    SessionState,
    SessionAction,
) {
    match (state, event) {
        (_, SessionEvent::DeviceLost) => (SessionState::Lost, SessionAction::Invalidate),
        (SessionState::Uninitialized, SessionEvent::OwnerRequested) => (
            SessionState::Initializing,
            SessionAction::Open,
        ),
        (SessionState::Initializing, SessionEvent::Opened) => (
            SessionState::Ready,
            SessionAction::Configure,
        ),
        (SessionState::Initializing, SessionEvent::OpenFailed) => (
            SessionState::Uninitialized,
            SessionAction::Report,
        ),
        (SessionState::Ready, SessionEvent::RedrawRequested) => (
            SessionState::Drawing,
            SessionAction::Acquire,
        ),
        (_, SessionEvent::RedrawRequested) => (state, SessionAction::SkipFrame),
        (SessionState::Drawing, SessionEvent::FrameAcquired) => (
            SessionState::Drawing,
            SessionAction::Present,
        ),
        (SessionState::Drawing, SessionEvent::AcquireFailed) => (
            SessionState::Ready,
            SessionAction::SkipFrame,
        ),
        (SessionState::Drawing, SessionEvent::FramePresented) => (
            SessionState::Ready,
            SessionAction::Idle,
        ),
        (SessionState::Ready, SessionEvent::Resized) => (
            SessionState::Ready,
            SessionAction::Configure,
        ),
        (SessionState::Drawing, SessionEvent::Resized) => (
            SessionState::Drawing,
            SessionAction::Configure,
        ),
        (SessionState::Lost, SessionEvent::Released) => (
            SessionState::Uninitialized,
            SessionAction::Idle,
        ),
        _ => (state, SessionAction::Idle),
    }
}

/// Takes a session through one event.
pub fn step(state: SessionState, event: SessionEvent) -> (next: (SessionState, SessionAction))
    ensures
        next == transition(state, event),
{
    match (state, event) {
        (_, SessionEvent::DeviceLost) => (SessionState::Lost, SessionAction::Invalidate),
        (SessionState::Uninitialized, SessionEvent::OwnerRequested) => (
            SessionState::Initializing,
            SessionAction::Open,
        ),
        (SessionState::Initializing, SessionEvent::Opened) => (
            SessionState::Ready,
            SessionAction::Configure,
        ),
        (SessionState::Initializing, SessionEvent::OpenFailed) => (
            SessionState::Uninitialized,
            SessionAction::Report,
        ),
        (SessionState::Ready, SessionEvent::RedrawRequested) => (
            SessionState::Drawing,
            SessionAction::Acquire,
        ),
        (_, SessionEvent::RedrawRequested) => (state, SessionAction::SkipFrame),
        (SessionState::Drawing, SessionEvent::FrameAcquired) => (
            SessionState::Drawing,
            SessionAction::Present,
        ),
        (SessionState::Drawing, SessionEvent::AcquireFailed) => (
            SessionState::Ready,
            SessionAction::SkipFrame,
        ),
        (SessionState::Drawing, SessionEvent::FramePresented) => (
            SessionState::Ready,
            SessionAction::Idle,
        ),
        (SessionState::Ready, SessionEvent::Resized) => (
            SessionState::Ready,
            SessionAction::Configure,
        ),
        (SessionState::Drawing, SessionEvent::Resized) => (
            SessionState::Drawing,
            SessionAction::Configure,
        ),
        (SessionState::Lost, SessionEvent::Released) => (
            SessionState::Uninitialized,
            SessionAction::Idle,
        ),
        _ => (state, SessionAction::Idle),
    }
}

/// The state after a whole redraw, and whether a frame was presented: the
/// request, the answer of the surface and, if a frame came, its
/// presentation.
pub open spec fn redrawn(state: SessionState, acquired: bool) -> (SessionState, bool) {
    let (asked, action) = transition(state, SessionEvent::RedrawRequested);
    if action != SessionAction::Acquire {
        (asked, false)
    } else if acquired {
        let (held, _) = transition(asked, SessionEvent::FrameAcquired);
        (transition(held, SessionEvent::FramePresented).0, true)
    } else {
        (transition(asked, SessionEvent::AcquireFailed).0, false)
    }
}

/// A redraw leaves the session in the state it was in, whether or not a
/// frame could be acquired: a frame that cannot be had is skipped and
/// nothing is lost or ended by it.
pub proof fn lemma_redraw_keeps_state(state: SessionState, acquired: bool)
    ensures
        redrawn(state, acquired).0 == state,
        redrawn(state, acquired).1 <==> state == SessionState::Ready && acquired,
        transition(SessionState::Drawing, SessionEvent::AcquireFailed) == (
            SessionState::Ready,
            SessionAction::SkipFrame,
        ),
{
}

/// Only the loss of the device makes a session lost, and from there it is
/// rebuilt from nothing: a lost session leaves `Lost` only for
/// `Uninitialized`.
pub proof fn lemma_loss_and_rebuild(state: SessionState, event: SessionEvent)
    ensures
        transition(state, SessionEvent::DeviceLost).0 == SessionState::Lost,
        (transition(state, event).0 == SessionState::Lost && state != SessionState::Lost) ==> event
            == SessionEvent::DeviceLost,
        state == SessionState::Lost ==> (transition(state, event).0 == SessionState::Lost
            || transition(state, event).0 == SessionState::Uninitialized),
        transition(state, event).0 == SessionState::Ready ==> (state == SessionState::Ready
            || state == SessionState::Drawing || (state == SessionState::Initializing && event
            == SessionEvent::Opened)),
{
}

/// Formats of the texels of a surface.
#[derive(Debug, Clone, Copy, PartialEq, Eq, Structural)]
pub enum SurfaceFormat {
    Rgba8UnormSrgb,
    Bgra8UnormSrgb,
}

/// When an acquired frame reaches the screen.
#[derive(Debug, Clone, Copy, PartialEq, Eq, Structural)]
pub enum PresentMode {
    /// Frames wait in a queue for the next refresh.
    Fifo,
    /// Frames are shown at once.
    Immediate,
}

/// What becomes of the alpha channel when the window is composed.
#[derive(Debug, Clone, Copy, PartialEq, Eq, Structural)]
pub enum AlphaMode {
    /// Whatever the surface supports.
    Auto,
    /// Alpha is ignored.
    Opaque,
}

/// The configuration of a presentable surface.
#[derive(Debug, Clone, Copy, PartialEq, Eq, Structural)]
pub struct SurfaceConfig {
    /// Frames are rendered to.
    pub render_attachment: bool,
    pub format: SurfaceFormat,
    pub width: u32,
    pub height: u32,
    pub present_mode: PresentMode,
    pub alpha_mode: AlphaMode,
}

/// The configuration of the surface of a window of this size.
pub open spec fn surface_for(width: u32, height: u32) -> SurfaceConfig {
    SurfaceConfig {
        render_attachment: true,
        format: SurfaceFormat::Rgba8UnormSrgb,
        width,
        height,
        present_mode: PresentMode::Fifo,
        alpha_mode: AlphaMode::Auto,
    }
}

/// Makes the configuration of the surface of a window of this size.
pub fn configure_surface(width: u32, height: u32) -> (config: SurfaceConfig)
    ensures
        config == surface_for(width, height),
{
    SurfaceConfig {
        render_attachment: true,
        format: SurfaceFormat::Rgba8UnormSrgb,
        width,
        height,
        present_mode: PresentMode::Fifo,
        alpha_mode: AlphaMode::Auto,
    }
}

/// What a redraw comes to.
#[derive(Debug)]
pub enum Frame {
    /// The acquired frame is to be presented.
    Present,
    /// No frame is shown: the surface gave none, which is logged, or the
    /// owner is not ready.
    Skip(Option<Error>),
}

/// What is to be done about a completion message that was sent.
#[derive(Debug)]
pub enum Delivery {
    /// It arrived.
    Delivered,
    /// It did not arrive. The error is logged; the message is not sent
    /// again.
    Dropped(Error),
}

/// The owner of a window's device and surface.
///
/// An owner is made from an open device and the size of the window, so no
/// surface is configured before a device exists.
#[derive(Debug)]
pub struct Gpu {
    context: DeviceContext,
    surface: SurfaceConfig,
    state: SessionState,
}

impl Gpu {
    #[verifier::type_invariant]
    spec fn is_built(self) -> bool {
        self.state == SessionState::Ready || self.state == SessionState::Lost
    }

    /// The state of the session.
    pub closed spec fn spec_state(&self) -> SessionState {
        self.state
    }

    /// The configuration of the surface.
    pub closed spec fn spec_surface(&self) -> SurfaceConfig {
        self.surface
    }

    /// The open device.
    pub closed spec fn spec_context(&self) -> DeviceContext {
        self.context
    }

    /// Builds the owner of a window of `width` by `height` from an open
    /// device: the surface is configured at the size of the window and the
    /// session is ready.
    pub fn new(context: DeviceContext, width: u32, height: u32) -> (gpu: Gpu)
        ensures
            gpu.spec_context() == context,
            gpu.spec_surface() == surface_for(width, height),
            gpu.spec_state() == SessionState::Ready,
            gpu.spec_state() == transition(SessionState::Initializing, SessionEvent::Opened).0,
    {
        Gpu { context, surface: configure_surface(width, height), state: SessionState::Ready }
    }

    /// The state of the session.
    #[verifier::when_used_as_spec(spec_state)]
    pub fn state(&self) -> (state: SessionState)
        ensures
            state == self.spec_state(),
            state == SessionState::Ready || state == SessionState::Lost,
    {
        proof {
            use_type_invariant(self);
        }
        self.state
    }

    /// The configuration of the surface.
    #[verifier::when_used_as_spec(spec_surface)]
    pub fn surface(&self) -> (surface: SurfaceConfig)
        ensures
            surface == self.spec_surface(),
    {
        self.surface
    }

    /// The open device.
    pub fn context(&self) -> (context: &DeviceContext)
        ensures
            *context == self.spec_context(),
    {
        &self.context
    }

    /// Decides a redraw from what the surface answered when it was asked
    /// for its next frame: nothing, or the reason for which it gave none.
    ///
    /// A ready owner presents the frame it got. Without a frame the redraw
    /// is skipped and the reason handed back to be logged. An owner that is
    /// not ready skips the redraw. The session stays as it was in each
    /// case.
    pub fn draw(&self, acquired: Result<(), String>) -> (frame: Frame)
        ensures
            redrawn(self.spec_state(), acquired is Ok).0 == self.spec_state(),
            frame is Present <==> redrawn(self.spec_state(), acquired is Ok).1,
            frame is Present <==> self.spec_state() == SessionState::Ready && acquired is Ok,
            frame matches Frame::Skip(logged) ==> match acquired {
                Err(reason) if self.spec_state() == SessionState::Ready => logged == Some(
                    Error::SurfaceAcquireError { message: reason },
                ),
                _ => logged is None,
            },
    {
        proof {
            use_type_invariant(self);
        }
        match self.state {
            SessionState::Ready => match acquired {
                Ok(_) => Frame::Present,
                Err(reason) => Frame::Skip(Some(Error::SurfaceAcquireError { message: reason })),
            },
            _ => Frame::Skip(None),
        }
    }

    /// Takes a new size of the window: a ready owner configures its
    /// surface anew at that size. Returns whether it did.
    pub fn resize(&mut self, width: u32, height: u32) -> (configured: bool)
        ensures
            final(self).spec_context() == old(self).spec_context(),
            final(self).spec_state() == old(self).spec_state(),
            configured <==> old(self).spec_state() == SessionState::Ready,
            configured <==> transition(old(self).spec_state(), SessionEvent::Resized).1
                == SessionAction::Configure,
            final(self).spec_surface() == if configured {
                surface_for(width, height)
            } else {
                old(self).spec_surface()
            },
    {
        proof {
            use_type_invariant(&*self);
        }
        match self.state {
            SessionState::Ready => {
                self.surface = configure_surface(width, height);
                true
            },
            _ => false,
        }
    }

    /// Takes the notice that the device was lost.
    pub fn device_lost(&mut self)
        ensures
            final(self).spec_context() == old(self).spec_context(),
            final(self).spec_surface() == old(self).spec_surface(),
            final(self).spec_state() == SessionState::Lost,
            final(self).spec_state() == transition(
                old(self).spec_state(),
                SessionEvent::DeviceLost,
            ).0,
    {
        self.state = SessionState::Lost;
    }

    /// Starts the compute task of the window: the dispatch of the standard
    /// scene. A lost owner starts nothing.
    pub fn ignite(&self) -> (task: Option<Dispatch>)
        ensures
            task is Some <==> self.spec_state() == SessionState::Ready,
            task matches Some(dispatch) ==> {
                &&& dispatch@ == ProgressView::At(Step::CreateShader, Phase::Open)
                &&& dispatch.spec_scene().spec_time() == START_BITS
                &&& dispatch.spec_scene().spec_freq() == FREQUENCY_BITS
                &&& dispatch.spec_scene().spec_count() == POINT
                &&& dispatch.spec_scene().spec_width() == WIDTH
                &&& dispatch.spec_scene().spec_height() == HEIGHT
            },
    {
        proof {
            use_type_invariant(self);
        }
        match self.state {
            SessionState::Ready => Some(Dispatch::new(ComputeScene::standard())),
            _ => None,
        }
    }

    /// The message that tells the event loop how the compute task ended.
    pub fn completion(outcome: Result<(), Error>) -> (message: UiMessage)
        ensures
            message == UiMessage::ComputeComplete(outcome),
    {
        UiMessage::ComputeComplete(outcome)
    }

    /// Decides what to do after the completion message was sent: a message
    /// that found no event loop is logged and not sent again.
    pub fn send_message(delivered: bool) -> (delivery: Delivery)
        ensures
            delivered ==> delivery is Delivered,
            !delivered ==> delivery == Delivery::Dropped(Error::UiMessageDeliveryError),
    {
        if delivered {
            Delivery::Delivered
        } else {
            Delivery::Dropped(Error::UiMessageDeliveryError)
        }
    }
}

} // verus!
