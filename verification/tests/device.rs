use wave_compute::device::{
    select_backends, AdapterRequest, Backend, DeviceLimits, OpenAction, Opening, Platform,
};
use wave_compute::kernel::LOCAL_SIZE;
use wave_compute::error::Error;

fn limits(x: u32, y: u32, z: u32) -> DeviceLimits {
    DeviceLimits {
        max_compute_workgroup_size_x: x,
        max_compute_workgroup_size_y: y,
        max_compute_workgroup_size_z: z,
    }
}

#[test]
fn each_platform_has_its_backends() {
    assert_eq!(select_backends(Platform::Wasm), vec![Backend::BrowserWebGpu]);
    assert_eq!(select_backends(Platform::Windows), vec![Backend::Dx12, Backend::Dx11]);
    assert_eq!(select_backends(Platform::Apple), vec![Backend::Metal]);
    assert_eq!(select_backends(Platform::Linux), vec![Backend::Vulkan]);
    assert_eq!(
        select_backends(Platform::Other),
        vec![
            Backend::Vulkan,
            Backend::Metal,
            Backend::Dx12,
            Backend::Dx11,
            Backend::Gl,
            Backend::BrowserWebGpu,
        ]
    );
}

fn as_flags(backends: &[Backend]) -> wgpu::Backends {
    let mut flags = wgpu::Backends::empty();
    for backend in backends {
        flags |= wgpu::Backends::from(match backend {
            Backend::Vulkan => wgpu::Backend::Vulkan,
            Backend::Metal => wgpu::Backend::Metal,
            Backend::Dx12 => wgpu::Backend::Dx12,
            Backend::Dx11 => wgpu::Backend::Dx11,
            Backend::Gl => wgpu::Backend::Gl,
            Backend::BrowserWebGpu => wgpu::Backend::BrowserWebGpu,
        });
    }
    flags
}

#[test]
fn an_unknown_platform_tries_every_backend_that_the_device_library_has() {
    let all = select_backends(Platform::Other);
    assert_eq!(as_flags(&all), wgpu::Backends::all());
    assert_eq!(all.len() as u32, wgpu::Backends::all().bits().count_ones());
}

#[test]
fn the_backends_of_a_platform_are_sets_that_the_device_library_knows() {
    assert_eq!(as_flags(&select_backends(Platform::Wasm)), wgpu::Backends::BROWSER_WEBGPU);
    assert_eq!(
        as_flags(&select_backends(Platform::Windows)),
        wgpu::Backends::DX12 | wgpu::Backends::DX11
    );
    assert_eq!(as_flags(&select_backends(Platform::Apple)), wgpu::Backends::METAL);
    assert_eq!(as_flags(&select_backends(Platform::Linux)), wgpu::Backends::VULKAN);
}

#[test]
fn no_backend_is_tried_twice() {
    for platform in
        [Platform::Wasm, Platform::Windows, Platform::Apple, Platform::Linux, Platform::Other]
    {
        let backends = select_backends(platform);
        assert_eq!(backends.len() as u32, as_flags(&backends).bits().count_ones());
    }
}

#[test]
fn the_choice_of_backends_depends_on_the_platform_alone() {
    for platform in
        [Platform::Wasm, Platform::Windows, Platform::Apple, Platform::Linux, Platform::Other]
    {
        assert_eq!(select_backends(platform), select_backends(platform));
    }
}

#[test]
fn the_browser_goes_first_and_linux_last() {
    assert_eq!(Platform::classify(true, true, true, true), Platform::Wasm);
    assert_eq!(Platform::classify(false, true, true, true), Platform::Windows);
    assert_eq!(Platform::classify(false, false, true, true), Platform::Apple);
    assert_eq!(Platform::classify(false, false, false, true), Platform::Linux);
    assert_eq!(Platform::classify(false, false, false, false), Platform::Other);
    assert_eq!(Platform::classify(true, false, false, false), Platform::Wasm);
    assert_eq!(Platform::classify(false, true, false, false), Platform::Windows);
    assert_eq!(Platform::classify(false, false, true, false), Platform::Apple);
}

#[test]
fn limits_admit_the_kernel_from_256_by_1_by_1() {
    assert_eq!(LOCAL_SIZE, (256, 1, 1));
    assert!(limits(256, 1, 1).admits_kernel());
    assert!(limits(1024, 1024, 64).admits_kernel());
    assert!(!limits(255, 256, 64).admits_kernel());
    assert!(!limits(256, 0, 64).admits_kernel());
    assert!(!limits(256, 256, 0).admits_kernel());
    assert!(!limits(0, 0, 0).admits_kernel());
}

#[test]
fn the_default_limits_of_the_device_library_admit_the_kernel() {
    let defaults = wgpu::Limits::default();
    assert!(limits(
        defaults.max_compute_workgroup_size_x,
        defaults.max_compute_workgroup_size_y,
        defaults.max_compute_workgroup_size_z
    )
    .admits_kernel());
}

#[test]
fn an_opening_asks_for_the_adapter_first() {
    let opening = Opening::begin(Platform::Linux);
    assert_eq!(
        opening.action(),
        OpenAction::RequestAdapter(AdapterRequest {
            default_power_preference: true,
            force_fallback_adapter: false,
        })
    );
    assert!(opening.finish().is_none());
}

#[test]
fn without_an_adapter_the_opening_fails() {
    let opening = Opening::begin(Platform::Linux).adapter(false);
    assert_eq!(opening.action(), OpenAction::Stop);
    assert_eq!(opening.finish().unwrap().unwrap_err(), Error::NoAdapterFound);
}

#[test]
fn a_rejected_device_fails_the_opening_with_the_reason() {
    let opening = Opening::begin(Platform::Windows).adapter(true);
    assert_eq!(opening.action(), OpenAction::RequestDevice);
    let opening = opening.device(Err("limits too high".to_string()));
    assert_eq!(opening.action(), OpenAction::Stop);
    assert_eq!(
        opening.finish().unwrap().unwrap_err(),
        Error::DeviceRequestFailed { reason: "limits too high".to_string() }
    );
}

#[test]
fn a_granted_device_opens_the_context_with_its_limits() {
    let opening = Opening::begin(Platform::Windows).adapter(true).device(Ok(limits(256, 256, 64)));
    assert_eq!(opening.action(), OpenAction::Stop);
    let context = opening.finish().unwrap().unwrap();
    assert_eq!(context.backends, vec![Backend::Dx12, Backend::Dx11]);
    assert_eq!(context.limits, limits(256, 256, 64));
}

#[test]
fn answers_that_are_not_awaited_change_nothing() {
    let opening = Opening::begin(Platform::Linux).device(Ok(limits(256, 1, 1)));
    assert!(matches!(opening.action(), OpenAction::RequestAdapter(_)));
    let opening = opening.adapter(true).adapter(false);
    assert_eq!(opening.action(), OpenAction::RequestDevice);
    let failed = Opening::begin(Platform::Linux).adapter(false).adapter(true);
    assert_eq!(failed.finish().unwrap().unwrap_err(), Error::NoAdapterFound);
    let done = Opening::begin(Platform::Linux)
        .adapter(true)
        .device(Ok(limits(256, 1, 1)))
        .device(Err("late".to_string()));
    assert!(done.finish().unwrap().is_ok());
}
