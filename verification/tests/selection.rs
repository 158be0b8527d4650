use vk_helpers::select::{
    select_physical_device, tick, PhysicalDeviceInfo, PhysicalDeviceType, QueueFamilyInfo,
    SurfaceFormat, COLOR_SPACE_SRGB_NONLINEAR,
};

const FORMAT_BGRA_SRGB: u32 = 50;
const FORMAT_RGBA_SRGB: u32 = 43;

fn graphics_family() -> QueueFamilyInfo {
    QueueFamilyInfo { supports_graphics: true, supports_present: true }
}

fn device(
    device_type: PhysicalDeviceType,
    families: Vec<QueueFamilyInfo>,
    extensions: Vec<Vec<u8>>,
    formats: Vec<SurfaceFormat>,
) -> PhysicalDeviceInfo {
    PhysicalDeviceInfo { device_type, queue_families: families, extensions, surface_formats: formats }
}

fn basic_formats() -> Vec<SurfaceFormat> {
    vec![SurfaceFormat { format: FORMAT_BGRA_SRGB, color_space: COLOR_SPACE_SRGB_NONLINEAR }]
}

fn swapchain_ext() -> Vec<Vec<u8>> {
    vec![b"VK_KHR_swapchain".to_vec()]
}

#[test]
fn missing_extension_excludes_device() {
    let devices = vec![device(
        PhysicalDeviceType::DiscreteGpu,
        vec![graphics_family()],
        vec![b"VK_KHR_other".to_vec()],
        basic_formats(),
    )];
    let result = select_physical_device(&devices, &swapchain_ext(), FORMAT_BGRA_SRGB);
    assert!(result.is_none());
}

#[test]
fn one_missing_extension_among_many_excludes_device() {
    let devices = vec![device(
        PhysicalDeviceType::DiscreteGpu,
        vec![graphics_family()],
        vec![b"VK_KHR_swapchain".to_vec(), b"VK_KHR_maintenance1".to_vec()],
        basic_formats(),
    )];
    let required = vec![
        b"VK_KHR_swapchain".to_vec(),
        b"VK_KHR_maintenance1".to_vec(),
        b"VK_KHR_ray_tracing_pipeline".to_vec(),
    ];
    let result = select_physical_device(&devices, &required, FORMAT_BGRA_SRGB);
    assert!(result.is_none());
}

#[test]
fn discrete_wins_over_integrated() {
    let devices = vec![
        device(
            PhysicalDeviceType::IntegratedGpu,
            vec![graphics_family()],
            swapchain_ext(),
            basic_formats(),
        ),
        device(
            PhysicalDeviceType::DiscreteGpu,
            vec![graphics_family()],
            swapchain_ext(),
            basic_formats(),
        ),
    ];
    let (index, _, _) =
        select_physical_device(&devices, &swapchain_ext(), FORMAT_BGRA_SRGB).unwrap();
    assert_eq!(index, 1);

    let devices = vec![
        device(
            PhysicalDeviceType::DiscreteGpu,
            vec![graphics_family()],
            swapchain_ext(),
            basic_formats(),
        ),
        device(
            PhysicalDeviceType::IntegratedGpu,
            vec![graphics_family()],
            swapchain_ext(),
            basic_formats(),
        ),
    ];
    let (index, _, _) =
        select_physical_device(&devices, &swapchain_ext(), FORMAT_BGRA_SRGB).unwrap();
    assert_eq!(index, 0);
}

#[test]
fn integrated_wins_over_other() {
    let devices = vec![
        device(PhysicalDeviceType::Cpu, vec![graphics_family()], swapchain_ext(), basic_formats()),
        device(
            PhysicalDeviceType::IntegratedGpu,
            vec![graphics_family()],
            swapchain_ext(),
            basic_formats(),
        ),
        device(PhysicalDeviceType::Other, vec![graphics_family()], swapchain_ext(), basic_formats()),
    ];
    let (index, _, _) =
        select_physical_device(&devices, &swapchain_ext(), FORMAT_BGRA_SRGB).unwrap();
    assert_eq!(index, 1);
}

#[test]
fn equal_scores_resolve_to_later_device() {
    let devices = vec![
        device(
            PhysicalDeviceType::DiscreteGpu,
            vec![graphics_family()],
            swapchain_ext(),
            basic_formats(),
        ),
        device(
            PhysicalDeviceType::DiscreteGpu,
            vec![graphics_family()],
            swapchain_ext(),
            basic_formats(),
        ),
    ];
    let (index, _, _) =
        select_physical_device(&devices, &swapchain_ext(), FORMAT_BGRA_SRGB).unwrap();
    assert_eq!(index, 1);
}

#[test]
fn first_suitable_queue_family_wins() {
    let families = vec![
        QueueFamilyInfo { supports_graphics: true, supports_present: false },
        QueueFamilyInfo { supports_graphics: false, supports_present: true },
        graphics_family(),
        graphics_family(),
    ];
    let devices =
        vec![device(PhysicalDeviceType::DiscreteGpu, families, swapchain_ext(), basic_formats())];
    let (_, queue_family, _) =
        select_physical_device(&devices, &swapchain_ext(), FORMAT_BGRA_SRGB).unwrap();
    assert_eq!(queue_family, 2);
}

#[test]
fn no_graphics_family_excludes_device() {
    let families = vec![QueueFamilyInfo { supports_graphics: true, supports_present: false }];
    let devices =
        vec![device(PhysicalDeviceType::DiscreteGpu, families, swapchain_ext(), basic_formats())];
    assert!(select_physical_device(&devices, &swapchain_ext(), FORMAT_BGRA_SRGB).is_none());
}

#[test]
fn desired_srgb_format_is_picked_when_reported() {
    let formats = vec![
        SurfaceFormat { format: FORMAT_RGBA_SRGB, color_space: COLOR_SPACE_SRGB_NONLINEAR },
        SurfaceFormat { format: FORMAT_BGRA_SRGB, color_space: 7 },
        SurfaceFormat { format: FORMAT_BGRA_SRGB, color_space: COLOR_SPACE_SRGB_NONLINEAR },
    ];
    let devices =
        vec![device(PhysicalDeviceType::DiscreteGpu, vec![graphics_family()], swapchain_ext(), formats)];
    let (_, _, format) =
        select_physical_device(&devices, &swapchain_ext(), FORMAT_BGRA_SRGB).unwrap();
    assert_eq!(format.format, FORMAT_BGRA_SRGB);
    assert_eq!(format.color_space, COLOR_SPACE_SRGB_NONLINEAR);
}

#[test]
fn first_format_is_fallback_when_desired_is_missing() {
    let formats = vec![
        SurfaceFormat { format: FORMAT_RGBA_SRGB, color_space: 7 },
        SurfaceFormat { format: FORMAT_RGBA_SRGB, color_space: COLOR_SPACE_SRGB_NONLINEAR },
    ];
    let devices =
        vec![device(PhysicalDeviceType::DiscreteGpu, vec![graphics_family()], swapchain_ext(), formats)];
    let (_, _, format) =
        select_physical_device(&devices, &swapchain_ext(), FORMAT_BGRA_SRGB).unwrap();
    assert_eq!(format.format, FORMAT_RGBA_SRGB);
    assert_eq!(format.color_space, 7);
}

#[test]
fn no_surface_formats_excludes_device() {
    let devices = vec![device(
        PhysicalDeviceType::DiscreteGpu,
        vec![graphics_family()],
        swapchain_ext(),
        Vec::new(),
    )];
    assert!(select_physical_device(&devices, &swapchain_ext(), FORMAT_BGRA_SRGB).is_none());
}

#[test]
fn empty_device_list_selects_nothing() {
    let devices: Vec<PhysicalDeviceInfo> = Vec::new();
    assert!(select_physical_device(&devices, &swapchain_ext(), FORMAT_BGRA_SRGB).is_none());
}

#[test]
fn tick_marks_support() {
    assert_eq!(tick(true), "yes");
    assert_eq!(tick(false), "no");
}
