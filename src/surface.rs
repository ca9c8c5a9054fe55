//! Negotiation between the drawable surface and the device: instance layers
//! and extensions, device selection, and the swapchain's format, extent,
//! image count and presentation mode.
use vstd::prelude::*;
use ash::vk;

use crate::error::VulkanError;

verus! {

/// Declares ash's plain extent record; its fields are read directly.
#[verifier::external_type_specification]
pub struct ExExtent2D(vk::Extent2D);

/// Declares ash's image format handle, carried through opaquely.
#[verifier::external_type_specification]
#[verifier::external_body]
pub struct ExFormat(vk::Format);

/// Declares ash's color space handle, carried through opaquely.
#[verifier::external_type_specification]
#[verifier::external_body]
pub struct ExColorSpaceKHR(vk::ColorSpaceKHR);

/// Declares ash's surface format record (format and color space).
#[verifier::external_type_specification]
pub struct ExSurfaceFormatKHR(vk::SurfaceFormatKHR);

/// Declares ash's surface transform flags, carried through opaquely.
#[verifier::external_type_specification]
#[verifier::external_body]
pub struct ExSurfaceTransformFlagsKHR(vk::SurfaceTransformFlagsKHR);

/// Declares ash's composite alpha flags, carried through opaquely.
#[verifier::external_type_specification]
#[verifier::external_body]
pub struct ExCompositeAlphaFlagsKHR(vk::CompositeAlphaFlagsKHR);

/// Declares ash's image usage flags, carried through opaquely.
#[verifier::external_type_specification]
#[verifier::external_body]
pub struct ExImageUsageFlags(vk::ImageUsageFlags);

/// Declares ash's surface capability snapshot; its counts and extents are read directly.
#[verifier::external_type_specification]
pub struct ExSurfaceCapabilitiesKHR(vk::SurfaceCapabilitiesKHR);

/// The number of swapchain images asked for at creation.
pub const DESIRED_IMAGE_COUNT: u32 = 3;

/// The bit of a queue family's flags that marks graphics support.
pub const QUEUE_GRAPHICS_BIT: u32 = 1;

/// The name of the host's validation layer.
pub const VALIDATION_LAYER: &'static str = "VK_LAYER_KHRONOS_validation";

/// A width reported as the current extent when the swapchain decides the extent.
pub const EXTENT_UNDEFINED: u32 = 0xFFFF_FFFF;

/// How finished images are handed to the presentation engine.
#[derive(Clone, Copy, PartialEq, Eq, Structural, Debug)]
pub enum PresentMode {
    Immediate,
    Mailbox,
    Fifo,
    FifoRelaxed,
}

/// An instance extension that the renderer enables.
#[derive(Clone, Copy, PartialEq, Eq, Structural, Debug)]
pub enum InstanceExtension {
    Surface,
    Win32Surface,
    DebugUtils,
}

/// What one queue family of a physical device offers.
#[derive(Clone, Copy, PartialEq, Eq, Structural, Debug)]
pub struct QueueFamilySupport {
    /// The family's raw queue capability bits.
    pub queue_flags: u32,
    /// Whether the family can present to the bound surface.
    pub supports_present: bool,
}

/// Everything a swapchain is built from.
#[derive(Clone, Copy)]
pub struct SwapchainPlan {
    pub surface_format: vk::SurfaceFormatKHR,
    pub extent: vk::Extent2D,
    pub image_count: u32,
    pub present_mode: PresentMode,
}

pub open spec fn family_suitable(f: QueueFamilySupport) -> bool {
    f.queue_flags & QUEUE_GRAPHICS_BIT == QUEUE_GRAPHICS_BIT && f.supports_present
}

pub open spec fn device_suitable(families: Seq<QueueFamilySupport>) -> bool {
    exists|q: int| 0 <= q < families.len() && family_suitable(#[trigger] families[q])
}

pub open spec fn first_suitable_family(families: Seq<QueueFamilySupport>, q: int) -> bool {
    &&& 0 <= q < families.len()
    &&& family_suitable(families[q])
    &&& forall|p: int| 0 <= p < q ==> !family_suitable(#[trigger] families[p])
}

/// `n` moved into `[lo, hi]`, where an upper bound of zero means no upper bound.
pub open spec fn clamp_count(n: u32, lo: u32, hi: u32) -> u32 {
    let raised = if n < lo { lo } else { n };
    if hi > 0 && raised > hi { hi } else { raised }
}

/// `n` moved into `[lo, hi]`; the upper bound wins when the two cross.
pub open spec fn clamp_dim(n: u32, lo: u32, hi: u32) -> u32 {
    let raised = if n < lo { lo } else { n };
    if raised > hi { hi } else { raised }
}

pub open spec fn chosen_extent(caps: vk::SurfaceCapabilitiesKHR, drawable: vk::Extent2D) -> vk::Extent2D {
    if caps.current_extent.width == EXTENT_UNDEFINED {
        vk::Extent2D {
            width: clamp_dim(drawable.width, caps.min_image_extent.width, caps.max_image_extent.width),
            height: clamp_dim(drawable.height, caps.min_image_extent.height, caps.max_image_extent.height),
        }
    } else {
        caps.current_extent
    }
}

pub open spec fn chosen_present_mode(supported: Seq<PresentMode>) -> PresentMode {
    if supported.contains(PresentMode::Mailbox) {
        PresentMode::Mailbox
    } else {
        PresentMode::Fifo
    }
}

pub open spec fn extent_in_bounds(caps: vk::SurfaceCapabilitiesKHR, width: u32, height: u32) -> bool {
    &&& caps.min_image_extent.width <= width <= caps.max_image_extent.width
    &&& caps.min_image_extent.height <= height <= caps.max_image_extent.height
}

pub open spec fn validation_available(layers: Seq<String>) -> bool {
    exists|i: int| 0 <= i < layers.len() && (#[trigger] layers[i])@ == VALIDATION_LAYER@
}

fn is_graphics_family(f: &QueueFamilySupport) -> (r: bool)
    ensures
        r == family_suitable(*f),
{
    f.queue_flags & QUEUE_GRAPHICS_BIT == QUEUE_GRAPHICS_BIT && f.supports_present
}

/// Finds the first family of one device that supports both graphics and
/// presentation to the surface.
pub fn find_queue_family(families: &Vec<QueueFamilySupport>) -> (r: Option<u32>)
    requires
        families@.len() <= u32::MAX,
    ensures
        r is None <==> !device_suitable(families@),
        r matches Some(q) ==> first_suitable_family(families@, q as int),
{
    let mut q: usize = 0;
    while q < families.len()
        invariant
            q <= families@.len() <= u32::MAX,
            forall|p: int| 0 <= p < q ==> !family_suitable(#[trigger] families@[p]),
        decreases families@.len() - q,
    {
        if is_graphics_family(&families[q]) {
            return Some(q as u32);
        }
        q = q + 1;
    }
    None
}

/// Picks the first physical device, in enumeration order, with a queue family
/// that supports both graphics and presentation to the surface; returns the
/// device's position and the family's index.
pub fn pick_physical_device(devices: &Vec<Vec<QueueFamilySupport>>) -> (r: Result<
    (usize, u32),
    VulkanError,
>)
    requires
        forall|d: int| 0 <= d < devices@.len() ==> (#[trigger] devices@[d])@.len() <= u32::MAX,
    ensures
        r is Err <==> forall|d: int| 0 <= d < devices@.len() ==> !device_suitable(#[trigger] devices@[d]@),
        r matches Err(e) ==> e == VulkanError::NoSuitableDevice,
        r matches Ok((d, q)) ==> {
            &&& d < devices@.len()
            &&& first_suitable_family(devices@[d as int]@, q as int)
            &&& forall|e: int| 0 <= e < d ==> !device_suitable(#[trigger] devices@[e]@)
        },
{
    let mut d: usize = 0;
    while d < devices.len()
        invariant
            d <= devices@.len(),
            forall|d: int| 0 <= d < devices@.len() ==> (#[trigger] devices@[d])@.len() <= u32::MAX,
            forall|e: int| 0 <= e < d ==> !device_suitable(#[trigger] devices@[e]@),
        decreases devices@.len() - d,
    {
        match find_queue_family(&devices[d]) {
            Some(q) => {
                return Ok((d, q));
            },
            None => {},
        }
        d = d + 1;
    }
    Err(VulkanError::NoSuitableDevice)
}

/// Whether the host offers the validation layer among `layers`.
pub fn get_validation_support(layers: &Vec<String>) -> (r: bool)
    ensures
        r == validation_available(layers@),
{
    let name = VALIDATION_LAYER.to_owned();
    let mut i: usize = 0;
    while i < layers.len()
        invariant
            i <= layers@.len(),
            name@ == VALIDATION_LAYER@,
            forall|j: int| 0 <= j < i ==> (#[trigger] layers@[j])@ != VALIDATION_LAYER@,
        decreases layers@.len() - i,
    {
        if layers[i] == name {
            return true;
        }
        i = i + 1;
    }
    false
}

/// Refuses a request for validation that the host cannot honour.
pub fn check_validation(validation: bool, layers: &Vec<String>) -> (r: Result<(), VulkanError>)
    ensures
        r is Err <==> validation && !validation_available(layers@),
        r matches Err(e) ==> e == VulkanError::ValidationNotPresent,
{
    if validation && !get_validation_support(layers) {
        Err(VulkanError::ValidationNotPresent)
    } else {
        Ok(())
    }
}

/// The layers to enable: the validation layer exactly when validation is asked for.
pub fn get_layers(validation: bool) -> (r: Vec<String>)
    ensures
        validation ==> r@.len() == 1 && r@[0]@ == VALIDATION_LAYER@,
        !validation ==> r@.len() == 0,
{
    let mut layers: Vec<String> = Vec::new();
    if validation {
        layers.push(VALIDATION_LAYER.to_owned());
    }
    layers
}

/// The instance extensions to enable: surface support, the window-system
/// surface, and debug messaging when validation is asked for.
pub fn get_required_extensions(validation: bool) -> (r: Vec<InstanceExtension>)
    ensures
        validation ==> r@ == seq![
            InstanceExtension::Surface,
            InstanceExtension::Win32Surface,
            InstanceExtension::DebugUtils,
        ],
        !validation ==> r@ == seq![InstanceExtension::Surface, InstanceExtension::Win32Surface],
{
    let mut extensions = vec![InstanceExtension::Surface, InstanceExtension::Win32Surface];
    if validation {
        extensions.push(InstanceExtension::DebugUtils);
    }
    extensions
}

/// The first format that the surface supports.
pub fn choose_surface_format(formats: &Vec<vk::SurfaceFormatKHR>) -> (r: Result<
    vk::SurfaceFormatKHR,
    VulkanError,
>)
    ensures
        formats@.len() == 0 ==> r == Err::<vk::SurfaceFormatKHR, VulkanError>(
            VulkanError::ResourceCreationFailed,
        ),
        formats@.len() > 0 ==> r == Ok::<vk::SurfaceFormatKHR, VulkanError>(formats@[0]),
{
    if formats.len() == 0 {
        Err(VulkanError::ResourceCreationFailed)
    } else {
        Ok(formats[0])
    }
}

/// The low-latency mailbox mode where offered, else the always-available FIFO mode.
pub fn choose_present_mode(supported: &Vec<PresentMode>) -> (r: PresentMode)
    ensures
        r == chosen_present_mode(supported@),
{
    let mut i: usize = 0;
    while i < supported.len()
        invariant
            i <= supported@.len(),
            forall|j: int| 0 <= j < i ==> supported@[j] != PresentMode::Mailbox,
        decreases supported@.len() - i,
    {
        if supported[i] == PresentMode::Mailbox {
            assert(supported@[i as int] == PresentMode::Mailbox);
            return PresentMode::Mailbox;
        }
        i = i + 1;
    }
    PresentMode::Fifo
}

/// `n` moved into the image count bounds of `caps` (a maximum of zero means none).
pub fn clamp_image_count(caps: &vk::SurfaceCapabilitiesKHR, n: u32) -> (r: u32)
    ensures
        r == clamp_count(n, caps.min_image_count, caps.max_image_count),
{
    let raised = if n < caps.min_image_count {
        caps.min_image_count
    } else {
        n
    };
    if caps.max_image_count > 0 && raised > caps.max_image_count {
        caps.max_image_count
    } else {
        raised
    }
}

fn clamp_dimension(n: u32, lo: u32, hi: u32) -> (r: u32)
    ensures
        r == clamp_dim(n, lo, hi),
{
    let raised = if n < lo {
        lo
    } else {
        n
    };
    if raised > hi {
        hi
    } else {
        raised
    }
}

/// The extent of a new swapchain: the surface's current extent when it fixes
/// one, else the drawable size moved into the surface's extent bounds.
pub fn choose_extent(caps: &vk::SurfaceCapabilitiesKHR, drawable: vk::Extent2D) -> (r: vk::Extent2D)
    ensures
        r == chosen_extent(*caps, drawable),
{
    if caps.current_extent.width == EXTENT_UNDEFINED {
        vk::Extent2D {
            width: clamp_dimension(
                drawable.width,
                caps.min_image_extent.width,
                caps.max_image_extent.width,
            ),
            height: clamp_dimension(
                drawable.height,
                caps.min_image_extent.height,
                caps.max_image_extent.height,
            ),
        }
    } else {
        caps.current_extent
    }
}

/// Plans the first swapchain of a context from the surface's live capabilities.
pub fn plan_swapchain(
    formats: &Vec<vk::SurfaceFormatKHR>,
    caps: &vk::SurfaceCapabilitiesKHR,
    present_modes: &Vec<PresentMode>,
    drawable: vk::Extent2D,
) -> (r: Result<SwapchainPlan, VulkanError>)
    ensures
        r is Err <==> formats@.len() == 0,
        r matches Err(e) ==> e == VulkanError::ResourceCreationFailed,
        r matches Ok(p) ==> {
            &&& p.surface_format == formats@[0]
            &&& p.extent == chosen_extent(*caps, drawable)
            &&& p.image_count == clamp_count(
                DESIRED_IMAGE_COUNT,
                caps.min_image_count,
                caps.max_image_count,
            )
            &&& p.present_mode == chosen_present_mode(present_modes@)
        },
{
    let surface_format = match choose_surface_format(formats) {
        Ok(f) => f,
        Err(e) => {
            return Err(e);
        },
    };
    Ok(
        SwapchainPlan {
            surface_format,
            extent: choose_extent(caps, drawable),
            image_count: clamp_image_count(caps, DESIRED_IMAGE_COUNT),
            present_mode: choose_present_mode(present_modes),
        },
    )
}

} // verus!
