use vstd::prelude::*;

verus! {

/// The kind of a physical device, in preference order for selection.
#[derive(Clone, Copy, Debug, PartialEq, Eq, Structural)]
pub enum PhysicalDeviceType {
    Other,
    IntegratedGpu,
    DiscreteGpu,
    VirtualGpu,
    Cpu,
}

/// What a queue family advertises for this surface.
#[derive(Clone, Copy, Debug, PartialEq, Eq, Structural)]
pub struct QueueFamilyInfo {
    pub supports_graphics: bool,
    /// Whether the family is verified able to present to the surface.
    pub supports_present: bool,
}

/// A pixel format paired with a color space, as a device reports them.
#[derive(Clone, Copy, Debug, PartialEq, Eq, Structural)]
pub struct SurfaceFormat {
    pub format: u32,
    pub color_space: u32,
}

/// The SRGB nonlinear color space, as the underlying API numbers it.
pub const COLOR_SPACE_SRGB_NONLINEAR: u32 = 0;

/// Everything selection reads of one enumerated physical device.
#[derive(Debug)]
pub struct PhysicalDeviceInfo {
    pub device_type: PhysicalDeviceType,
    pub queue_families: Vec<QueueFamilyInfo>,
    /// The names of the extensions the device supports, as raw bytes.
    pub extensions: Vec<Vec<u8>>,
    pub surface_formats: Vec<SurfaceFormat>,
}

/// The selection preference of a device type: discrete over integrated over
/// anything else.
pub open spec fn spec_score(device_type: PhysicalDeviceType) -> int {
    match device_type {
        PhysicalDeviceType::DiscreteGpu => 2,
        PhysicalDeviceType::IntegratedGpu => 1,
        _ => 0,
    }
}

/// Whether a queue family can both draw and present.
pub open spec fn spec_family_suitable(family: QueueFamilyInfo) -> bool {
    family.supports_graphics && family.supports_present
}

/// Whether some queue family of the device can both draw and present.
pub open spec fn spec_has_graphics_family(device: PhysicalDeviceInfo) -> bool {
    exists|i: int|
        0 <= i < device.queue_families@.len() && spec_family_suitable(device.queue_families@[i])
}

/// Whether the device supports an extension of exactly this name.
pub open spec fn spec_has_extension(device: PhysicalDeviceInfo, name: Seq<u8>) -> bool {
    exists|i: int| 0 <= i < device.extensions@.len() && device.extensions@[i]@ == name
}

/// Whether the device supports every required extension.
pub open spec fn spec_supports_extensions(
    device: PhysicalDeviceInfo,
    required: Seq<Vec<u8>>,
) -> bool {
    forall|k: int| 0 <= k < required.len() ==> spec_has_extension(device, required[k]@)
}

/// Whether a reported format is the desired one in the SRGB nonlinear color
/// space.
pub open spec fn spec_format_matches(format: SurfaceFormat, desired: u32) -> bool {
    format.format == desired && format.color_space == COLOR_SPACE_SRGB_NONLINEAR
}

/// Whether a device qualifies at all: a graphics-and-present queue family,
/// at least one reported surface format, and every required extension.
/// A single missing extension disqualifies the device entirely.
pub open spec fn spec_qualifies(device: PhysicalDeviceInfo, required: Seq<Vec<u8>>) -> bool {
    &&& spec_has_graphics_family(device)
    &&& device.surface_formats@.len() > 0
    &&& spec_supports_extensions(device, required)
}

/// Whether `format` is the surface format selection picks for this device:
/// the first reported format equal to the desired one with SRGB nonlinear
/// color space, or the first reported format at all when none matches.
pub open spec fn spec_chosen_format(
    device: PhysicalDeviceInfo,
    desired: u32,
    format: SurfaceFormat,
) -> bool {
    if exists|i: int|
        0 <= i < device.surface_formats@.len() && spec_format_matches(
            device.surface_formats@[i],
            desired,
        ) {
        exists|i: int|
            {
                &&& 0 <= i < device.surface_formats@.len()
                &&& spec_format_matches(device.surface_formats@[i], desired)
                &&& format == device.surface_formats@[i]
                &&& forall|j: int|
                    0 <= j < i ==> !spec_format_matches(device.surface_formats@[j], desired)
            }
    } else {
        device.surface_formats@.len() > 0 && format == device.surface_formats@[0]
    }
}

/// A device missing any one required extension never qualifies, and so is
/// never selected.
pub proof fn lemma_missing_extension_disqualifies(
    device: PhysicalDeviceInfo,
    required: Seq<Vec<u8>>,
    k: int,
)
    requires
        0 <= k < required.len(),
        !spec_has_extension(device, required[k]@),
    ensures
        !spec_qualifies(device, required),
{
}

/// When any qualifying discrete GPU exists, a selected device whose score is
/// maximal among qualifying devices is itself a discrete GPU.
pub proof fn lemma_discrete_preferred(
    devices: Seq<PhysicalDeviceInfo>,
    required: Seq<Vec<u8>>,
    selected: int,
    witness: int,
)
    requires
        0 <= selected < devices.len(),
        0 <= witness < devices.len(),
        spec_qualifies(devices[witness], required),
        devices[witness].device_type == PhysicalDeviceType::DiscreteGpu,
        forall|j: int|
            0 <= j < devices.len() && spec_qualifies(devices[j], required) ==> spec_score(
                devices[j].device_type,
            ) <= spec_score(devices[selected].device_type),
    ensures
        devices[selected].device_type == PhysicalDeviceType::DiscreteGpu,
{
    assert(spec_score(devices[witness].device_type) == 2);
}

/// Whether two byte strings hold the same bytes.
fn bytes_eq(a: &Vec<u8>, b: &Vec<u8>) -> (r: bool)
    ensures
        r == (a@ == b@),
{
    if a.len() != b.len() {
        return false;
    }
    let mut i: usize = 0;
    while i < a.len()
        invariant
            a@.len() == b@.len(),
            i <= a@.len(),
            forall|j: int| 0 <= j < i ==> a@[j] == b@[j],
        decreases a@.len() - i,
    {
        if a[i] != b[i] {
            return false;
        }
        i = i + 1;
    }
    proof {
        assert(a@ =~= b@);
    }
    true
}

/// Whether the device supports an extension of exactly this name.
fn has_extension(device: &PhysicalDeviceInfo, name: &Vec<u8>) -> (r: bool)
    ensures
        r == spec_has_extension(*device, name@),
{
    let mut i: usize = 0;
    while i < device.extensions.len()
        invariant
            i <= device.extensions@.len(),
            forall|j: int| 0 <= j < i ==> device.extensions@[j]@ != name@,
        decreases device.extensions@.len() - i,
    {
        if bytes_eq(&device.extensions[i], name) {
            return true;
        }
        i = i + 1;
    }
    false
}

/// Selects at most one `(device index, queue family, surface format)` triple
/// from an enumerated device list.
///
/// A device qualifies when some queue family both draws and presents (the
/// first such family wins), it reports at least one surface format, and it
/// supports every required extension — any single missing extension excludes
/// it.  The chosen surface format is the desired one with SRGB nonlinear
/// color space when reported, else the first format the device reports.
/// Among qualifying devices the best device-type score wins (discrete over
/// integrated over anything else); ties resolve to the later device in
/// enumeration order.  Returns `None`, not an error, when no device
/// qualifies.
pub fn select_physical_device(
    devices: &Vec<PhysicalDeviceInfo>,
    required_extensions: &Vec<Vec<u8>>,
    desired_format: u32,
) -> (r: Option<(usize, u32, SurfaceFormat)>)
    requires
        forall|i: int|
            0 <= i < devices@.len() ==> devices@[i].queue_families@.len() <= u32::MAX,
    ensures
        r is None <==> forall|i: int|
            0 <= i < devices@.len() ==> !spec_qualifies(devices@[i], required_extensions@),
        match r {
            Some((index, queue_family, surface_format)) => {
                &&& index < devices@.len()
                &&& spec_qualifies(devices@[index as int], required_extensions@)
                &&& queue_family < devices@[index as int].queue_families@.len()
                &&& spec_family_suitable(
                    devices@[index as int].queue_families@[queue_family as int],
                )
                &&& forall|j: int|
                    0 <= j < queue_family ==> !spec_family_suitable(
                        devices@[index as int].queue_families@[j],
                    )
                &&& spec_chosen_format(devices@[index as int], desired_format, surface_format)
                &&& forall|j: int|
                    0 <= j < devices@.len() && spec_qualifies(devices@[j], required_extensions@)
                        ==> spec_score(devices@[j].device_type) <= spec_score(
                        devices@[index as int].device_type,
                    )
                &&& forall|j: int|
                    index < j < devices@.len() && spec_qualifies(devices@[j], required_extensions@)
                        ==> spec_score(devices@[j].device_type) < spec_score(
                        devices@[index as int].device_type,
                    )
            },
            None => true,
        },
{
    let mut best: Option<(usize, u32, SurfaceFormat)> = None;
    let mut best_score: u32 = 0;
    let mut di: usize = 0;
    while di < devices.len()
        invariant
            di <= devices@.len(),
            forall|i: int|
                0 <= i < devices@.len() ==> devices@[i].queue_families@.len() <= u32::MAX,
            best is None <==> forall|i: int|
                0 <= i < di ==> !spec_qualifies(devices@[i], required_extensions@),
            match best {
                Some((index, queue_family, surface_format)) => {
                    &&& index < di
                    &&& spec_qualifies(devices@[index as int], required_extensions@)
                    &&& queue_family < devices@[index as int].queue_families@.len()
                    &&& spec_family_suitable(
                        devices@[index as int].queue_families@[queue_family as int],
                    )
                    &&& forall|j: int|
                        0 <= j < queue_family ==> !spec_family_suitable(
                            devices@[index as int].queue_families@[j],
                        )
                    &&& spec_chosen_format(devices@[index as int], desired_format, surface_format)
                    &&& best_score == spec_score(devices@[index as int].device_type)
                    &&& forall|j: int|
                        0 <= j < di && spec_qualifies(devices@[j], required_extensions@)
                            ==> spec_score(devices@[j].device_type) <= best_score
                    &&& forall|j: int|
                        index < j < di && spec_qualifies(devices@[j], required_extensions@)
                            ==> spec_score(devices@[j].device_type) < best_score
                },
                None => true,
            },
        decreases devices@.len() - di,
    {
        let device = &devices[di];

        // The first queue family that both draws and presents, if any.
        let mut queue_family: Option<u32> = None;
        let mut fi: usize = 0;
        while fi < device.queue_families.len() && queue_family.is_none()
            invariant
                fi <= device.queue_families@.len(),
                device.queue_families@.len() <= u32::MAX,
                match queue_family {
                    Some(qf) => {
                        &&& qf < device.queue_families@.len()
                        &&& spec_family_suitable(device.queue_families@[qf as int])
                        &&& forall|j: int|
                            0 <= j < qf ==> !spec_family_suitable(device.queue_families@[j])
                    },
                    None => forall|j: int|
                        0 <= j < fi ==> !spec_family_suitable(device.queue_families@[j]),
                },
            decreases device.queue_families@.len() - fi,
        {
            let family = device.queue_families[fi];
            if family.supports_graphics && family.supports_present {
                queue_family = Some(fi as u32);
            }
            fi = fi + 1;
        }
        proof {
            if queue_family is None {
                assert(forall|j: int|
                    0 <= j < device.queue_families@.len() ==> !spec_family_suitable(
                        device.queue_families@[j],
                    ));
                assert(!spec_has_graphics_family(devices@[di as int]));
            }
        }

        if let Some(queue_family) = queue_family {
            proof {
                assert(spec_family_suitable(device.queue_families@[queue_family as int]));
                assert(spec_has_graphics_family(devices@[di as int]));
            }
            // The desired format with SRGB nonlinear color space when the
            // device reports it, else the first reported format.
            let mut surface_format: Option<SurfaceFormat> = None;
            let mut si: usize = 0;
            while si < device.surface_formats.len() && surface_format.is_none()
                invariant
                    si <= device.surface_formats@.len(),
                    match surface_format {
                        Some(found) => exists|i: int|
                            {
                                &&& 0 <= i < device.surface_formats@.len()
                                &&& spec_format_matches(device.surface_formats@[i], desired_format)
                                &&& found == device.surface_formats@[i]
                                &&& forall|j: int|
                                    0 <= j < i ==> !spec_format_matches(
                                        device.surface_formats@[j],
                                        desired_format,
                                    )
                            },
                        None => forall|j: int|
                            0 <= j < si ==> !spec_format_matches(
                                device.surface_formats@[j],
                                desired_format,
                            ),
                    },
                decreases device.surface_formats@.len() - si,
            {
                let candidate = device.surface_formats[si];
                if candidate.format == desired_format && candidate.color_space
                    == COLOR_SPACE_SRGB_NONLINEAR {
                    surface_format = Some(candidate);
                }
                si = si + 1;
            }
            let surface_format = match surface_format {
                Some(surface_format) => Some(surface_format),
                None => {
                    if device.surface_formats.len() > 0 {
                        Some(device.surface_formats[0])
                    } else {
                        None
                    }
                },
            };

            if let Some(surface_format) = surface_format {
                proof {
                    assert(spec_chosen_format(devices@[di as int], desired_format, surface_format));
                }
                // Every required extension must be present; any single
                // missing one disqualifies the device.
                let mut has_required_extensions = true;
                let mut ei: usize = 0;
                while ei < required_extensions.len()
                    invariant
                        ei <= required_extensions@.len(),
                        has_required_extensions <==> forall|k: int|
                            0 <= k < ei ==> spec_has_extension(
                                devices@[di as int],
                                required_extensions@[k]@,
                            ),
                        devices@[di as int] == *device,
                    decreases required_extensions@.len() - ei,
                {
                    let found = has_extension(device, &required_extensions[ei]);
                    has_required_extensions = has_required_extensions && found;
                    ei = ei + 1;
                }

                if has_required_extensions {
                    proof {
                        assert(spec_qualifies(devices@[di as int], required_extensions@));
                    }
                    let score: u32 = match device.device_type {
                        PhysicalDeviceType::DiscreteGpu => 2,
                        PhysicalDeviceType::IntegratedGpu => 1,
                        _ => 0,
                    };
                    let take = match best {
                        Some(_) => score >= best_score,
                        None => true,
                    };
                    if take {
                        best = Some((di, queue_family, surface_format));
                        best_score = score;
                    }
                }
            }
        }
        di = di + 1;
    }
    best
}

/// A short human-readable marker for a supported or missing capability, for
/// diagnostic traces.
pub fn tick(supported: bool) -> (r: &'static str)
    ensures
        supported ==> r@ == "yes"@,
        !supported ==> r@ == "no"@,
{
    if supported {
        "yes"
    } else {
        "no"
    }
}

} // verus!
