use bhuiz::errors::MediaError;
use bhuiz::interfaces::{init_gpu, DefaultGpu, GpuAdapter, VULKAN_WINDOW_FLAGS, WINDOW_SHOWN, WINDOW_VULKAN};
use bhuiz::vulkan::{Extent3D, InstanceTeardown, QueueFamilyProperties, Vulkan, VK_SUCCESS};

fn family(flags: u32) -> QueueFamilyProperties {
    QueueFamilyProperties {
        queue_flags: flags,
        queue_count: 1,
        timestamp_valid_bits: 64,
        min_image_transfer_granularity: Extent3D { width: 1, height: 1, depth: 1 },
    }
}

#[test]
fn instance_creation_success() {
    assert!(Vulkan::check_instance_creation(VK_SUCCESS).is_ok());
}

#[test]
fn instance_creation_failure_message() {
    let e = Vulkan::check_instance_creation(-3).unwrap_err();
    assert_eq!(e.0, "failed to create Vulkan instance");
    let m: MediaError = e.into();
    assert_eq!(m.0, "failed to create Vulkan instance");
}

#[test]
fn from_parts_has_no_surface() {
    let v = Vulkan::from_parts(vec![7], vec![11, 12], vec![family(1)]);
    assert_eq!(v.instance, vec![7]);
    assert_eq!(v.physical_devices, vec![11, 12]);
    assert_eq!(v.physical_devices_families, vec![family(1)]);
    assert!(v.surface.is_empty());
}

#[test]
fn init_devices_leaves_state() {
    let mut v = Vulkan::from_parts(vec![7], vec![11], vec![family(1), family(6)]);
    v.init_devices();
    assert_eq!(v.instance, vec![7]);
    assert_eq!(v.physical_devices, vec![11]);
    assert_eq!(v.physical_devices_families, vec![family(1), family(6)]);
    assert!(v.surface.is_empty());
}

#[test]
fn teardown_destroys_live_instances() {
    let v = Vulkan::from_parts(vec![7, 0, 9], vec![], vec![]);
    assert_eq!(
        v.teardown(),
        vec![
            InstanceTeardown::Destroy(7),
            InstanceTeardown::NotInitialized,
            InstanceTeardown::Destroy(9),
        ]
    );
}

#[test]
fn default_gpu_init_succeeds() {
    let gpu = init_gpu("Sample", "Engine", 0).unwrap();
    assert_eq!(gpu, DefaultGpu);
    gpu.close();
}

#[test]
fn window_flags() {
    assert_eq!(VULKAN_WINDOW_FLAGS, WINDOW_SHOWN | WINDOW_VULKAN);
}

#[test]
fn created_instance_checks() {
    assert_eq!(Vulkan::check_created_instance(VK_SUCCESS, 5).unwrap(), 5);
    assert_eq!(Vulkan::check_created_instance(-1, 5).unwrap_err().0, "Could not create Vulkan Instance");
    assert_eq!(Vulkan::check_created_instance(VK_SUCCESS, 0).unwrap(), 0);
}
