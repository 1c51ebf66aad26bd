//! What can go wrong between opening a device and showing a frame.

use vstd::prelude::*;
use vstd::string::StringExecFns;

verus! {

/// A failure of the device, of a dispatch, of a read-back or of the window.
#[derive(Debug, PartialEq, Eq)]
pub enum Error {
    /// No adapter matched the selected backends.
    NoAdapterFound,
    /// The driver rejected the request for a logical device.
    DeviceRequestFailed { reason: String },
    /// The validation scope around a device operation captured an error.
    DeviceValidationError { context: String, message: String },
    /// The shader text did not compile. A validation error of its own name.
    ShaderCompileError { message: String },
    /// The device declined to map the staging buffer.
    MapError { message: String },
    /// The answer to the map request was dropped before it arrived.
    ReadbackAborted,
    /// The read-back holds fewer samples than the image has cells.
    ImageTooSmall,
    /// The next frame of the surface could not be acquired.
    SurfaceAcquireError { message: String },
    /// The completion message found no event loop to take it.
    UiMessageDeliveryError,
    /// The device was lost; every resource made from it is invalid.
    DeviceLost,
}

/// An error as a value of the specification: the same cases, with texts as
/// sequences of characters.
pub enum ErrorView {
    NoAdapterFound,
    DeviceRequestFailed { reason: Seq<char> },
    DeviceValidationError { context: Seq<char>, message: Seq<char> },
    ShaderCompileError { message: Seq<char> },
    MapError { message: Seq<char> },
    ReadbackAborted,
    ImageTooSmall,
    SurfaceAcquireError { message: Seq<char> },
    UiMessageDeliveryError,
    DeviceLost,
}

impl View for Error {
    type V = ErrorView;

    open spec fn view(&self) -> ErrorView {
        match self {
            Error::NoAdapterFound => ErrorView::NoAdapterFound,
            Error::DeviceRequestFailed { reason } => ErrorView::DeviceRequestFailed {
                reason: reason@,
            },
            Error::DeviceValidationError { context, message } => ErrorView::DeviceValidationError {
                context: context@,
                message: message@,
            },
            Error::ShaderCompileError { message } => ErrorView::ShaderCompileError {
                message: message@,
            },
            Error::MapError { message } => ErrorView::MapError { message: message@ },
            Error::ReadbackAborted => ErrorView::ReadbackAborted,
            Error::ImageTooSmall => ErrorView::ImageTooSmall,
            Error::SurfaceAcquireError { message } => ErrorView::SurfaceAcquireError {
                message: message@,
            },
            Error::UiMessageDeliveryError => ErrorView::UiMessageDeliveryError,
            Error::DeviceLost => ErrorView::DeviceLost,
        }
    }
}

/// The text that an optional message holds.
pub open spec fn text_of(message: Option<String>) -> Option<Seq<char>> {
    match message {
        Some(text) => Some(text@),
        None => None,
    }
}

/// How far an error reaches.
#[derive(Debug, Clone, Copy, PartialEq, Eq, Structural)]
pub enum Severity {
    /// Ends start-up.
    Startup,
    /// Ends the dispatch that met it, not the process.
    Dispatch,
    /// Ends the read-back attempt that met it.
    Readback,
    /// Invalidates the session owner, which has to be rebuilt.
    Session,
    /// Costs one frame. It is logged where it happens and goes no further.
    Transient,
    /// Is logged and neither retried nor passed on.
    Logged,
}

impl Clone for Error {
    fn clone(&self) -> (copy: Self)
        ensures
            copy == *self,
    {
        match self {
            Error::NoAdapterFound => Error::NoAdapterFound,
            Error::DeviceRequestFailed { reason } => Error::DeviceRequestFailed {
                reason: reason.clone(),
            },
            Error::DeviceValidationError { context, message } => Error::DeviceValidationError {
                context: context.clone(),
                message: message.clone(),
            },
            Error::ShaderCompileError { message } => Error::ShaderCompileError {
                message: message.clone(),
            },
            Error::MapError { message } => Error::MapError { message: message.clone() },
            Error::ReadbackAborted => Error::ReadbackAborted,
            Error::ImageTooSmall => Error::ImageTooSmall,
            Error::SurfaceAcquireError { message } => Error::SurfaceAcquireError {
                message: message.clone(),
            },
            Error::UiMessageDeliveryError => Error::UiMessageDeliveryError,
            Error::DeviceLost => Error::DeviceLost,
        }
    }
}

impl Error {
    /// The reach of this error.
    pub open spec fn spec_severity(&self) -> Severity {
        match self {
            Error::NoAdapterFound => Severity::Startup,
            Error::DeviceRequestFailed { .. } => Severity::Startup,
            Error::DeviceValidationError { .. } => Severity::Dispatch,
            Error::ShaderCompileError { .. } => Severity::Dispatch,
            Error::MapError { .. } => Severity::Readback,
            Error::ReadbackAborted => Severity::Readback,
            Error::ImageTooSmall => Severity::Readback,
            Error::SurfaceAcquireError { .. } => Severity::Transient,
            Error::UiMessageDeliveryError => Severity::Logged,
            Error::DeviceLost => Severity::Session,
        }
    }

    /// The error came out of a validation scope.
    pub open spec fn spec_is_validation(&self) -> bool {
        self is DeviceValidationError || self is ShaderCompileError
    }

    /// The error is handed up to the caller. Only a failed frame and an
    /// undelivered message are dealt with where they occur.
    pub open spec fn spec_propagates(&self) -> bool {
        !(self is SurfaceAcquireError) && !(self is UiMessageDeliveryError)
    }

    /// The description of the operation that failed.
    pub open spec fn spec_context(&self) -> Seq<char> {
        match self {
            Error::NoAdapterFound => "find adapter"@,
            Error::DeviceRequestFailed { .. } => "request gpu device"@,
            Error::DeviceValidationError { context, .. } => context@,
            Error::ShaderCompileError { .. } => "create shader"@,
            Error::MapError { .. } => "map stage"@,
            Error::ReadbackAborted => "wait map stage"@,
            Error::ImageTooSmall => "create image"@,
            Error::SurfaceAcquireError { .. } => "surface get current"@,
            Error::UiMessageDeliveryError => "send ui message"@,
            Error::DeviceLost => "use device"@,
        }
    }

    /// What the device, the driver or the channel reported.
    pub open spec fn spec_detail(&self) -> Seq<char> {
        match self {
            Error::NoAdapterFound => "no adapter found"@,
            Error::DeviceRequestFailed { reason } => reason@,
            Error::DeviceValidationError { message, .. } => message@,
            Error::ShaderCompileError { message } => message@,
            Error::MapError { message } => message@,
            Error::ReadbackAborted => "answer dropped"@,
            Error::ImageTooSmall => "buffer is not big enough"@,
            Error::SurfaceAcquireError { message } => message@,
            Error::UiMessageDeliveryError => "event loop closed"@,
            Error::DeviceLost => "device lost"@,
        }
    }

    /// The text of this error: the context, the word `error`, the detail.
    pub open spec fn spec_describe(&self) -> Seq<char> {
        self.spec_context() + " error "@ + self.spec_detail()
    }

    /// The reach of this error.
    #[verifier::when_used_as_spec(spec_severity)]
    pub fn severity(&self) -> (reach: Severity)
        ensures
            reach == self.spec_severity(),
    {
        match self {
            Error::NoAdapterFound => Severity::Startup,
            Error::DeviceRequestFailed { .. } => Severity::Startup,
            Error::DeviceValidationError { .. } => Severity::Dispatch,
            Error::ShaderCompileError { .. } => Severity::Dispatch,
            Error::MapError { .. } => Severity::Readback,
            Error::ReadbackAborted => Severity::Readback,
            Error::ImageTooSmall => Severity::Readback,
            Error::SurfaceAcquireError { .. } => Severity::Transient,
            Error::UiMessageDeliveryError => Severity::Logged,
            Error::DeviceLost => Severity::Session,
        }
    }

    /// Whether the error came out of a validation scope.
    #[verifier::when_used_as_spec(spec_is_validation)]
    pub fn is_validation(&self) -> (yes: bool)
        ensures
            yes == self.spec_is_validation(),
    {
        match self {
            Error::DeviceValidationError { .. } => true,
            Error::ShaderCompileError { .. } => true,
            _ => false,
        }
    }

    /// Whether the error is handed up to the caller.
    #[verifier::when_used_as_spec(spec_propagates)]
    pub fn propagates(&self) -> (yes: bool)
        ensures
            yes == self.spec_propagates(),
    {
        match self {
            Error::SurfaceAcquireError { .. } => false,
            Error::UiMessageDeliveryError => false,
            _ => true,
        }
    }

    /// The description of the operation that failed.
    pub fn context(&self) -> (text: String)
        ensures
            text@ == self.spec_context(),
    {
        match self {
            Error::NoAdapterFound => String::from_str("find adapter"),
            Error::DeviceRequestFailed { .. } => String::from_str("request gpu device"),
            Error::DeviceValidationError { context, .. } => context.clone(),
            Error::ShaderCompileError { .. } => String::from_str("create shader"),
            Error::MapError { .. } => String::from_str("map stage"),
            Error::ReadbackAborted => String::from_str("wait map stage"),
            Error::ImageTooSmall => String::from_str("create image"),
            Error::SurfaceAcquireError { .. } => String::from_str("surface get current"),
            Error::UiMessageDeliveryError => String::from_str("send ui message"),
            Error::DeviceLost => String::from_str("use device"),
        }
    }

    /// What the device, the driver or the channel reported.
    pub fn detail(&self) -> (text: String)
        ensures
            text@ == self.spec_detail(),
    {
        match self {
            Error::NoAdapterFound => String::from_str("no adapter found"),
            Error::DeviceRequestFailed { reason } => reason.clone(),
            Error::DeviceValidationError { message, .. } => message.clone(),
            Error::ShaderCompileError { message } => message.clone(),
            Error::MapError { message } => message.clone(),
            Error::ReadbackAborted => String::from_str("answer dropped"),
            Error::ImageTooSmall => String::from_str("buffer is not big enough"),
            Error::SurfaceAcquireError { message } => message.clone(),
            Error::UiMessageDeliveryError => String::from_str("event loop closed"),
            Error::DeviceLost => String::from_str("device lost"),
        }
    }

    /// The text of this error, as it is logged.
    pub fn describe(&self) -> (text: String)
        ensures
            text@ == self.spec_describe(),
    {
        let mut text = self.context();
        text.append(" error ");
        let detail = self.detail();
        text.append(detail.as_str());
        text
    }
}

} // verus!
