use prima::error::RenderError;
use prima::setup::{pick_memory_type, pick_queue_family, plan_swapchain, select_surface_format,
    QueueFamily, SurfaceCaps, SurfaceFormat, COLOR_SPACE_SRGB_NONLINEAR, FORMAT_B8G8R8A8_UNORM,
    QUEUE_GRAPHICS_BIT};

fn wanted() -> SurfaceFormat {
    SurfaceFormat { format: FORMAT_B8G8R8A8_UNORM, color_space: COLOR_SPACE_SRGB_NONLINEAR }
}

#[test]
fn first_wanted_format_is_selected() {
    let formats = vec![
        SurfaceFormat { format: 50, color_space: 0 },
        SurfaceFormat { format: 44, color_space: 1000104006 },
        wanted(),
        wanted(),
    ];
    assert_eq!(select_surface_format(&formats), Ok(wanted()));
}

#[test]
fn unsupported_format_fails_setup() {
    let formats = vec![
        SurfaceFormat { format: 50, color_space: 0 },
        SurfaceFormat { format: 37, color_space: 0 },
    ];
    assert_eq!(
        select_surface_format(&formats),
        Err(RenderError::UnsupportedPresentationFormat),
    );
}

#[test]
fn plan_fixes_extent_and_image_count() {
    let caps = SurfaceCaps { min_image_count: 2, min_extent_w: 800, min_extent_h: 600 };
    let formats = vec![wanted()];
    let plan = plan_swapchain(&formats, &caps, 1024, 768).unwrap();
    assert_eq!(plan.format, wanted());
    // The window extent is clamped with the minimum as both bounds.
    assert_eq!((plan.extent_w, plan.extent_h), (800, 600));
    assert_eq!(plan.image_count, 2);
}

#[test]
fn unsupported_format_aborts_before_any_swapchain_plan() {
    let caps = SurfaceCaps { min_image_count: 2, min_extent_w: 800, min_extent_h: 600 };
    let formats = vec![SurfaceFormat { format: 50, color_space: 0 }];
    let r = plan_swapchain(&formats, &caps, 800, 600);
    assert_eq!(r, Err(RenderError::UnsupportedPresentationFormat));
}

#[test]
fn first_family_that_draws_and_presents_wins() {
    let families = vec![
        QueueFamily { flags: 0, can_present: true },
        QueueFamily { flags: QUEUE_GRAPHICS_BIT, can_present: false },
        QueueFamily { flags: QUEUE_GRAPHICS_BIT | 4, can_present: true },
        QueueFamily { flags: QUEUE_GRAPHICS_BIT, can_present: true },
    ];
    assert_eq!(pick_queue_family(&families), Ok(2));
}

#[test]
fn no_compatible_queue_family_fails_setup() {
    let families = vec![
        QueueFamily { flags: 0, can_present: true },
        QueueFamily { flags: QUEUE_GRAPHICS_BIT, can_present: false },
    ];
    assert_eq!(pick_queue_family(&families), Err(RenderError::NoCompatibleQueueFamily));
}

#[test]
fn memory_scan_keeps_the_last_match() {
    let host_coherent = 0b110u32;
    let flags = vec![host_coherent, 0b010, host_coherent | 1];
    assert_eq!(pick_memory_type(0b111, &flags, host_coherent), Ok(2));
}

#[test]
fn memory_type_must_be_allowed_by_the_mask() {
    let host_coherent = 0b110u32;
    let flags = vec![host_coherent, host_coherent];
    assert_eq!(pick_memory_type(0b01, &flags, host_coherent), Ok(0));
    assert_eq!(
        pick_memory_type(0b00, &flags, host_coherent),
        Err(RenderError::NoSuitableMemoryType),
    );
}

#[test]
fn memory_type_must_have_every_required_flag() {
    let flags = vec![0b100u32, 0b010];
    assert_eq!(pick_memory_type(0b11, &flags, 0b110), Err(RenderError::NoSuitableMemoryType));
}
