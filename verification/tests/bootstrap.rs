//! Context construction: success, the typed error of each failing step,
//! the fail-fast call ordering, and the swapchain parameters.

use game_world::bootstrap::{ApiCall, Environment, GraphicsError};
use game_world::device::{DeviceInfo, QueueFamilyInfo};
use game_world::swapchain::{PresentMode, SurfaceCaps};

fn family(graphics: bool, present: bool) -> QueueFamilyInfo {
    QueueFamilyInfo { supports_graphics: graphics, supports_present: present }
}

fn one_device_env() -> Environment {
    Environment {
        instance_ok: true,
        devices: vec![DeviceInfo { queue_families: vec![family(true, true)] }],
        surface_ok: true,
        device_ok: true,
        caps: SurfaceCaps {
            min_image_count: 2,
            supported_alpha: vec![7],
            supported_formats: vec![3],
        },
        window_size: Some((800, 600)),
        swapchain_ok: true,
    }
}

#[test]
fn create_context() {
    let (result, _calls) =
        game_world::bootstrap::create_context(String::from("Test"), &one_device_env());
    assert!(result.is_ok());
}

#[test]
fn context_fully_populated() {
    let (result, _calls) =
        game_world::bootstrap::create_context(String::from("Test"), &one_device_env());
    let ctx = result.unwrap();
    assert_eq!(ctx.window_title, "Test");
    assert_eq!(ctx.device_index, 0);
    assert_eq!(ctx.queue_family_index, 0);
    assert_eq!(ctx.width, 800);
    assert_eq!(ctx.height, 600);
    assert_eq!(ctx.swapchain.image_count, 2);
    assert_eq!(ctx.swapchain.format, 3);
    assert_eq!(ctx.swapchain.alpha, 7);
    assert_eq!(ctx.swapchain.width, 800);
    assert_eq!(ctx.swapchain.height, 600);
    assert_eq!(ctx.swapchain.layers, 1);
    assert_eq!(ctx.swapchain.present_mode, PresentMode::Fifo);
    assert!(ctx.swapchain.clipped);
}

#[test]
fn zero_devices_fails_fast() {
    let mut env = one_device_env();
    env.devices = vec![];
    env.window_size = Some((800, 600));
    let (result, calls) = game_world::bootstrap::create_context(String::from("Test"), &env);
    assert_eq!(result.unwrap_err(), GraphicsError::NoSuitableDevice);
    assert_eq!(calls, vec![ApiCall::CreateInstance, ApiCall::EnumerateDevices]);
}

#[test]
fn device_without_graphics_counts_as_none() {
    let mut env = one_device_env();
    env.devices = vec![DeviceInfo { queue_families: vec![family(false, true)] }];
    let (result, calls) = game_world::bootstrap::create_context(String::from("Test"), &env);
    assert_eq!(result.unwrap_err(), GraphicsError::NoSuitableDevice);
    assert_eq!(calls.len(), 2);
}

#[test]
fn device_with_no_families_counts_as_none() {
    let mut env = one_device_env();
    env.devices = vec![DeviceInfo { queue_families: vec![] }];
    let (result, _calls) = game_world::bootstrap::create_context(String::from("Test"), &env);
    assert_eq!(result.unwrap_err(), GraphicsError::NoSuitableDevice);
}

#[test]
fn instance_failure_is_typed() {
    let mut env = one_device_env();
    env.instance_ok = false;
    let (result, calls) = game_world::bootstrap::create_context(String::from("Test"), &env);
    assert_eq!(result.unwrap_err(), GraphicsError::InstanceCreationFailed);
    assert_eq!(calls, vec![ApiCall::CreateInstance]);
}

#[test]
fn surface_failure_is_typed() {
    let mut env = one_device_env();
    env.surface_ok = false;
    let (result, calls) = game_world::bootstrap::create_context(String::from("Test"), &env);
    assert_eq!(result.unwrap_err(), GraphicsError::SurfaceUnavailable);
    assert_eq!(
        calls,
        vec![ApiCall::CreateInstance, ApiCall::EnumerateDevices, ApiCall::CreateSurface]
    );
}

#[test]
fn no_present_family_is_typed() {
    let mut env = one_device_env();
    env.devices = vec![DeviceInfo { queue_families: vec![family(true, false)] }];
    let (result, calls) = game_world::bootstrap::create_context(String::from("Test"), &env);
    assert_eq!(result.unwrap_err(), GraphicsError::NoSuitableQueueFamily);
    assert_eq!(calls.len(), 4);
    assert_eq!(calls[3], ApiCall::QueryQueueFamilies);
}

#[test]
fn device_creation_failure_is_typed() {
    let mut env = one_device_env();
    env.device_ok = false;
    let (result, calls) = game_world::bootstrap::create_context(String::from("Test"), &env);
    assert_eq!(result.unwrap_err(), GraphicsError::DeviceCreationFailed);
    assert_eq!(calls.len(), 5);
    assert_eq!(calls[4], ApiCall::CreateDevice);
}

#[test]
fn empty_capabilities_fail_before_swapchain() {
    let mut env = one_device_env();
    env.caps.supported_formats = vec![];
    let (result, calls) = game_world::bootstrap::create_context(String::from("Test"), &env);
    assert_eq!(result.unwrap_err(), GraphicsError::SwapchainCreationFailed);
    assert_eq!(calls.len(), 6);
    assert!(!calls.iter().any(|c| matches!(c, ApiCall::CreateSwapchain(_))));
}

#[test]
fn missing_dimensions_are_a_typed_error() {
    let mut env = one_device_env();
    env.window_size = None;
    let (result, calls) = game_world::bootstrap::create_context(String::from("Test"), &env);
    assert_eq!(result.unwrap_err(), GraphicsError::SurfaceUnavailable);
    assert_eq!(calls.len(), 7);
    assert_eq!(calls[6], ApiCall::QueryDimensions);
}

#[test]
fn swapchain_failure_is_typed() {
    let mut env = one_device_env();
    env.swapchain_ok = false;
    let (result, calls) = game_world::bootstrap::create_context(String::from("Test"), &env);
    assert_eq!(result.unwrap_err(), GraphicsError::SwapchainCreationFailed);
    assert_eq!(calls.len(), 8);
}

#[test]
fn swapchain_request_is_always_fifo() {
    let (result, calls) =
        game_world::bootstrap::create_context(String::from("Test"), &one_device_env());
    assert!(result.is_ok());
    let mut swapchain_requests = 0;
    for call in &calls {
        if let ApiCall::CreateSwapchain(cfg) = call {
            swapchain_requests += 1;
            assert_eq!(cfg.present_mode, PresentMode::Fifo);
            assert_ne!(cfg.present_mode, PresentMode::Immediate);
            assert_ne!(cfg.present_mode, PresentMode::Mailbox);
            assert!(cfg.clipped);
        }
    }
    assert_eq!(swapchain_requests, 1);
}

#[test]
fn repeated_bootstrap_selects_the_same_handles() {
    let (first, _) = game_world::bootstrap::create_context(String::from("Test"), &one_device_env());
    let (second, _) =
        game_world::bootstrap::create_context(String::from("Test"), &one_device_env());
    let (first, second) = (first.unwrap(), second.unwrap());
    assert_eq!(first.device_index, second.device_index);
    assert_eq!(first.queue_family_index, second.queue_family_index);
}
