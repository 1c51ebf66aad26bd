//! Opening a device: which backends to try, and what each answer of the
//! adapter and of the driver leads to.

use vstd::prelude::*;
use crate::error::Error;
use crate::kernel::LOCAL_SIZE;

verus! {

/// The kind of machine that the process runs on.
#[derive(Debug, Clone, Copy, PartialEq, Eq, Structural)]
pub enum Platform {
    /// A browser, through WebAssembly.
    Wasm,
    Windows,
    Apple,
    Linux,
    /// None of the others.
    Other,
}

/// A graphics interface through which a device can be reached.
#[derive(Debug, Clone, Copy, PartialEq, Eq, Structural)]
pub enum Backend {
    Vulkan,
    Metal,
    Dx12,
    Dx11,
    Gl,
    BrowserWebGpu,
}

/// The platform that a set of build-time facts names. Where several hold,
/// the browser goes before Windows, Windows before Apple, Apple before
/// Linux.
pub open spec fn platform_of(wasm: bool, windows: bool, apple: bool, linux: bool) -> Platform {
    if wasm {
        Platform::Wasm
    } else if windows {
        Platform::Windows
    } else if apple {
        Platform::Apple
    } else if linux {
        Platform::Linux
    } else {
        Platform::Other
    }
}

/// The backends to try on a platform, first choice first.
pub open spec fn candidates(platform: Platform) -> Seq<Backend> {
    match platform {
        Platform::Wasm => seq![Backend::BrowserWebGpu],
        Platform::Windows => seq![Backend::Dx12, Backend::Dx11],
        Platform::Apple => seq![Backend::Metal],
        Platform::Linux => seq![Backend::Vulkan],
        Platform::Other => seq![
            Backend::Vulkan,
            Backend::Metal,
            Backend::Dx12,
            Backend::Dx11,
            Backend::Gl,
            Backend::BrowserWebGpu,
        ],
    }
}

impl Platform {
    /// Names the platform from facts that are fixed when the program is
    /// built.
    pub fn classify(wasm: bool, windows: bool, apple: bool, linux: bool) -> (platform: Platform)
        ensures
            platform == platform_of(wasm, windows, apple, linux),
    {
        if wasm {
            Platform::Wasm
        } else if windows {
            Platform::Windows
        } else if apple {
            Platform::Apple
        } else if linux {
            Platform::Linux
        } else {
            Platform::Other
        }
    }
}

/// Chooses the backends to try on a platform. The choice depends on the
/// platform alone.
pub fn select_backends(platform: Platform) -> (backends: Vec<Backend>)
    ensures
        backends@ == candidates(platform),
{
    let mut backends: Vec<Backend> = Vec::new();
    match platform {
        Platform::Wasm => {
            backends.push(Backend::BrowserWebGpu);
        },
        Platform::Windows => {
            backends.push(Backend::Dx12);
            backends.push(Backend::Dx11);
        },
        Platform::Apple => {
            backends.push(Backend::Metal);
        },
        Platform::Linux => {
            backends.push(Backend::Vulkan);
        },
        Platform::Other => {
            backends.push(Backend::Vulkan);
            backends.push(Backend::Metal);
            backends.push(Backend::Dx12);
            backends.push(Backend::Dx11);
            backends.push(Backend::Gl);
            backends.push(Backend::BrowserWebGpu);
        },
    }
    assert(backends@ =~= candidates(platform));
    backends
}

/// The largest workgroup that a device runs, along x, y and z.
#[derive(Debug, Clone, Copy, PartialEq, Eq, Structural)]
pub struct DeviceLimits {
    pub max_compute_workgroup_size_x: u32,
    pub max_compute_workgroup_size_y: u32,
    pub max_compute_workgroup_size_z: u32,
}

impl DeviceLimits {
    /// The device runs workgroups of the kernel's size.
    pub open spec fn spec_admits_kernel(&self) -> bool {
        &&& self.max_compute_workgroup_size_x >= 256
        &&& self.max_compute_workgroup_size_y >= 1
        &&& self.max_compute_workgroup_size_z >= 1
    }

    /// Whether the device runs workgroups of the kernel's size.
    #[verifier::when_used_as_spec(spec_admits_kernel)]
    pub fn admits_kernel(&self) -> (admits: bool)
        ensures
            admits == self.spec_admits_kernel(),
    {
        self.max_compute_workgroup_size_x >= LOCAL_SIZE.0 && self.max_compute_workgroup_size_y
            >= LOCAL_SIZE.1 && self.max_compute_workgroup_size_z >= LOCAL_SIZE.2
    }
}

/// What the request for an adapter asks for.
#[derive(Debug, Clone, Copy, PartialEq, Eq, Structural)]
pub struct AdapterRequest {
    /// Ask for the adapter that the platform prefers by default.
    pub default_power_preference: bool,
    /// Accept only a software adapter.
    pub force_fallback_adapter: bool,
}

/// An open connection to one device.
#[derive(Debug)]
pub struct DeviceContext {
    /// The backends that were tried.
    pub backends: Vec<Backend>,
    /// The limits that the device reported.
    pub limits: DeviceLimits,
}

/// How far the opening of a device has come.
#[derive(Debug)]
pub enum Opening {
    /// The adapter has been asked for.
    AwaitAdapter { backends: Vec<Backend> },
    /// The adapter is there; the device has been asked for.
    AwaitDevice { backends: Vec<Backend> },
    /// The device is open.
    Opened(DeviceContext),
    /// Opening failed.
    Failed(Error),
}

/// What the driver of an opening has to do next.
#[derive(Debug, Clone, Copy, PartialEq, Eq, Structural)]
pub enum OpenAction {
    /// Ask for an adapter with these options.
    RequestAdapter(AdapterRequest),
    /// Ask the adapter for a device and its queue, with default features
    /// and limits.
    RequestDevice,
    /// Nothing: the opening is over.
    Stop,
}

impl Opening {
    /// The state after the adapter answered.
    pub open spec fn after_adapter(self, found: bool) -> Opening {
        match self {
            Opening::AwaitAdapter { backends } => if found {
                Opening::AwaitDevice { backends }
            } else {
                Opening::Failed(Error::NoAdapterFound)
            },
            other => other,
        }
    }

    /// The action that is due.
    pub open spec fn spec_action(&self) -> OpenAction {
        match self {
            Opening::AwaitAdapter { .. } => OpenAction::RequestAdapter(
                AdapterRequest { default_power_preference: true, force_fallback_adapter: false },
            ),
            Opening::AwaitDevice { .. } => OpenAction::RequestDevice,
            _ => OpenAction::Stop,
        }
    }

    /// Starts to open a device on a platform: the backends are chosen, the
    /// adapter is asked for.
    pub fn begin(platform: Platform) -> (opening: Opening)
        ensures
            opening matches Opening::AwaitAdapter { backends } && backends@ == candidates(platform),
    {
        Opening::AwaitAdapter { backends: select_backends(platform) }
    }

    /// The action that is due.
    #[verifier::when_used_as_spec(spec_action)]
    pub fn action(&self) -> (action: OpenAction)
        ensures
            action == self.spec_action(),
    {
        match self {
            Opening::AwaitAdapter { .. } => OpenAction::RequestAdapter(
                AdapterRequest { default_power_preference: true, force_fallback_adapter: false },
            ),
            Opening::AwaitDevice { .. } => OpenAction::RequestDevice,
            _ => OpenAction::Stop,
        }
    }

    /// Takes the answer to the request for an adapter. Without an adapter
    /// the opening fails with `NoAdapterFound`. In any other state than
    /// `AwaitAdapter` the answer changes nothing.
    pub fn adapter(self, found: bool) -> (next: Opening)
        ensures
            next == self.after_adapter(found),
    {
        match self {
            Opening::AwaitAdapter { backends } => if found {
                Opening::AwaitDevice { backends }
            } else {
                Opening::Failed(Error::NoAdapterFound)
            },
            other => other,
        }
    }

    /// Takes the answer to the request for a device: the limits of the
    /// device, or the driver's reason for rejecting the request, with which
    /// the opening fails as `DeviceRequestFailed`. In any other state than
    /// `AwaitDevice` the answer changes nothing.
    pub fn device(self, answer: Result<DeviceLimits, String>) -> (next: Opening)
        ensures
            match self {
                Opening::AwaitDevice { backends } => match answer {
                    Ok(limits) => next == Opening::Opened(DeviceContext { backends, limits }),
                    Err(reason) => next == Opening::Failed(Error::DeviceRequestFailed { reason }),
                },
                other => next == other,
            },
    {
        match self {
            Opening::AwaitDevice { backends } => match answer {
                Ok(limits) => Opening::Opened(DeviceContext { backends, limits }),
                Err(reason) => Opening::Failed(Error::DeviceRequestFailed { reason }),
            },
            other => other,
        }
    }

    /// The open device or the error, once the opening is over.
    pub fn finish(self) -> (outcome: Option<Result<DeviceContext, Error>>)
        ensures
            match self {
                Opening::Opened(context) => outcome == Some(Ok::<DeviceContext, Error>(context)),
                Opening::Failed(error) => outcome == Some(Err::<DeviceContext, Error>(error)),
                _ => outcome is None,
            },
    {
        match self {
            Opening::Opened(context) => Some(Ok(context)),
            Opening::Failed(error) => Some(Err(error)),
            _ => None,
        }
    }
}

} // verus!
