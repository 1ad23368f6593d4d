use hexil::instance::plan_instance_extensions;
use hexil::swapchain::choose_present_mode;
use hexil::swapchain::choose_scaling_behavior;
use hexil::swapchain::PresentScaling;
use hexil::swapchain::choose_surface_format;
use hexil::swapchain::plan_swapchain_change;
use hexil::swapchain::select_recreate_format;
use hexil::swapchain::PresentMode;
use hexil::swapchain::RenderTargets;
use hexil::swapchain::SurfaceFormat;
use hexil::swapchain::SwapchainParams;
use hexil::swapchain::SwapchainPlan;
use hexil::swapchain::SwapchainState;

fn sf(format: u32, srgb_nonlinear: bool) -> SurfaceFormat {
    SurfaceFormat {
        format,
        srgb_nonlinear,
    }
}

fn params(format: u32, width: u32, height: u32, image_count: usize) -> SwapchainParams {
    SwapchainParams {
        format,
        width,
        height,
        image_count,
    }
}

#[test]
fn mailbox_is_used_when_offered() {
    assert_eq!(choose_present_mode(true, true), PresentMode::Mailbox);
    assert_eq!(choose_present_mode(true, false), PresentMode::Fifo);
    assert_eq!(choose_present_mode(false, true), PresentMode::Fifo);
}

#[test]
fn scaling_follows_the_maintenance_extension() {
    assert_eq!(
        choose_scaling_behavior(true),
        Some(PresentScaling::AspectRatioStretch)
    );
    assert_eq!(choose_scaling_behavior(false), None);
}

#[test]
fn instance_extensions_want_surface_maintenance_when_supported() {
    let c = plan_instance_extensions(true);
    assert!(c.surface_maintenance1);
    assert!(c.get_surface_capabilities2);
    assert!(c.get_physical_device_properties2);
    let c = plan_instance_extensions(false);
    assert!(!c.surface_maintenance1);
    assert!(c.get_surface_capabilities2);
}

#[test]
fn first_srgb_format_is_chosen() {
    let formats = vec![sf(10, false), sf(44, true), sf(50, true)];
    assert_eq!(choose_surface_format(&formats), Some(1));
}

#[test]
fn no_srgb_format_means_no_choice() {
    let formats = vec![sf(10, false), sf(11, false)];
    assert_eq!(choose_surface_format(&formats), None);
    let empty = vec![];
    assert_eq!(choose_surface_format(&empty), None);
}

#[test]
fn recreation_preserves_a_still_supported_format() {
    // The old format is still in the surface's supported set, so it is
    // kept even though another sRGB format comes first.
    let formats = vec![sf(44, true), sf(50, true)];
    assert_eq!(select_recreate_format(50, &formats), Some(50));
}

#[test]
fn recreation_falls_back_when_the_format_is_gone() {
    let formats = vec![sf(44, true), sf(50, true)];
    assert_eq!(select_recreate_format(99, &formats), Some(44));
    let none_srgb = vec![sf(44, false)];
    assert_eq!(select_recreate_format(44, &none_srgb), None);
}

#[test]
fn zero_area_window_tears_the_swapchain_down() {
    let live = SwapchainState::Active(params(44, 800, 600, 3));
    assert_eq!(plan_swapchain_change(&live, 0, 600), SwapchainPlan::Destroy);
    assert_eq!(plan_swapchain_change(&live, 800, 0), SwapchainPlan::Destroy);
    assert_eq!(
        plan_swapchain_change(&SwapchainState::Absent, 0, 0),
        SwapchainPlan::Destroy
    );
}

#[test]
fn first_nonzero_size_creates_from_scratch() {
    assert_eq!(
        plan_swapchain_change(&SwapchainState::Absent, 800, 600),
        SwapchainPlan::CreateFresh {
            width: 800,
            height: 600
        }
    );
}

#[test]
fn resize_recreates_with_the_old_format_as_parent() {
    let live = SwapchainState::Active(params(44, 800, 600, 3));
    assert_eq!(
        plan_swapchain_change(&live, 1024, 768),
        SwapchainPlan::Recreate {
            width: 1024,
            height: 768,
            old_format: 44
        }
    );
}

#[test]
fn fresh_targets_match_the_swapchain() {
    let t = RenderTargets::create(params(44, 800, 600, 3));
    assert_eq!(t.render_pass_format, 44);
    assert_eq!(t.framebuffer_count, 3);
    assert_eq!(t.render_pass_generation, 0);
}

#[test]
fn same_format_reuses_the_render_pass() {
    // A recreation that keeps the image format must skip the render pass
    // rebuild: the generation does not move.
    let t = RenderTargets::create(params(44, 800, 600, 3));
    let t2 = t.adopt(params(44, 1024, 768, 4));
    assert_eq!(t2.render_pass_generation, 0);
    assert_eq!(t2.framebuffer_count, 4);
    assert_eq!(t2.render_pass_format, 44);
}

#[test]
fn changed_format_rebuilds_the_render_pass() {
    let t = RenderTargets::create(params(44, 800, 600, 3));
    let t2 = t.adopt(params(50, 800, 600, 3));
    assert_eq!(t2.render_pass_generation, 1);
    assert_eq!(t2.render_pass_format, 50);
}
